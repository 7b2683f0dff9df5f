//! GraphQL result values.

use vstd::prelude::*;

verus! {

/// A GraphQL result value.
#[derive(Debug)]
pub enum Value {
    Int(i64),
    String(String),
    Boolean(bool),
    Null,
    List(Vec<Value>),
    Object(Object),
}

/// A GraphQL result object: its entries in the order of their keys.
#[derive(Debug)]
pub struct Object {
    pub entries: Vec<(String, Value)>,
}

impl View for Object {
    type V = Seq<(String, Value)>;

    open spec fn view(&self) -> Seq<(String, Value)> {
        self.entries@
    }
}

/// Whether `v` is the text `s`.
pub open spec fn is_text(v: Value, s: Seq<char>) -> bool {
    v matches Value::String(t) && t@ == s
}

/// Whether the entry has key `k`.
pub open spec fn has_key(e: (String, Value), k: Seq<char>) -> bool {
    e.0@ == k
}

/// The index of the first entry with key `k`, if any.
pub open spec fn key_index(entries: Seq<(String, Value)>, k: Seq<char>) -> Option<int> {
    if exists|i: int| 0 <= i < entries.len() && #[trigger] has_key(entries[i], k) {
        let i = choose|i: int|
            0 <= i < entries.len() && #[trigger] has_key(entries[i], k) && forall|j: int|
                0 <= j < i ==> !#[trigger] has_key(entries[j], k);
        Some(i)
    } else {
        None
    }
}

/// `key_index` picks the first entry with the key.
pub proof fn lemma_key_index(entries: Seq<(String, Value)>, k: Seq<char>, i: int)
    requires
        0 <= i < entries.len(),
        has_key(entries[i], k),
        forall|j: int| 0 <= j < i ==> !#[trigger] has_key(entries[j], k),
    ensures
        key_index(entries, k) == Some(i),
{
    let c = choose|c: int|
        0 <= c < entries.len() && #[trigger] has_key(entries[c], k) && forall|j: int|
            0 <= j < c ==> !#[trigger] has_key(entries[j], k);
    assert(0 <= c < entries.len() && has_key(entries[c], k) && forall|j: int|
        0 <= j < c ==> !#[trigger] has_key(entries[j], k));
    if c < i {
        assert(!has_key(entries[c], k));
    } else if i < c {
        assert(!has_key(entries[i], k));
    }
}

/// When some entry has key `k`, a first such entry exists.
proof fn lemma_first_key_exists(entries: Seq<(String, Value)>, k: Seq<char>, i: int)
    requires
        0 <= i < entries.len(),
        has_key(entries[i], k),
    ensures
        exists|c: int|
            0 <= c < entries.len() && #[trigger] has_key(entries[c], k) && forall|j: int|
                0 <= j < c ==> !#[trigger] has_key(entries[j], k),
    decreases i,
{
    if exists|j: int| 0 <= j < i && #[trigger] has_key(entries[j], k) {
        let j = choose|j: int| 0 <= j < i && #[trigger] has_key(entries[j], k);
        lemma_first_key_exists(entries, k, j);
    } else {
        assert(forall|j: int| 0 <= j < i ==> !#[trigger] has_key(entries[j], k));
    }
}

/// `key_index` names an entry with the key, and only fails when no entry
/// has it.
pub proof fn lemma_key_index_found(entries: Seq<(String, Value)>, k: Seq<char>)
    ensures
        key_index(entries, k) matches Some(i) ==> 0 <= i < entries.len() && has_key(
            entries[i],
            k,
        ),
        key_index(entries, k) is None ==> forall|j: int|
            0 <= j < entries.len() ==> !#[trigger] has_key(entries[j], k),
{
    if exists|i: int| 0 <= i < entries.len() && #[trigger] has_key(entries[i], k) {
        let i = choose|i: int| 0 <= i < entries.len() && #[trigger] has_key(entries[i], k);
        lemma_first_key_exists(entries, k, i);
    }
}

impl Object {
    /// An object with no entries.
    pub fn new() -> (r: Object)
        ensures
            r@.len() == 0,
    {
        Object { entries: Vec::new() }
    }

    /// The index of the first entry whose key is `key`.
    pub fn position(&self, key: &String) -> (r: Option<usize>)
        ensures
            match r {
                Some(i) => i < self@.len() && key_index(self@, key@) == Some(i as int),
                None => key_index(self@, key@) is None,
            },
    {
        let n = self.entries.len();
        let mut i: usize = 0;
        while i < n
            invariant
                n == self@.len(),
                i <= n,
                forall|j: int| 0 <= j < i ==> !#[trigger] has_key(self@[j], key@),
            decreases n - i,
        {
            if self.entries[i].0 == *key {
                proof {
                    lemma_key_index(self@, key@, i as int);
                }
                return Some(i);
            }
            i = i + 1;
        }
        None
    }

    /// Takes out the first entry with key `key`, if there is one.
    pub fn remove(&mut self, key: &String) -> (r: Option<(String, Value)>)
        ensures
            match key_index(old(self)@, key@) {
                Some(i) => r == Some(old(self)@[i]) && final(self)@ == old(self)@.remove(i),
                None => r is None && final(self)@ == old(self)@,
            },
    {
        match self.position(key) {
            Some(i) => Some(self.entries.remove(i)),
            None => None,
        }
    }
}

} // verus!
