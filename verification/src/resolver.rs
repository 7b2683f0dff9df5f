//! The resolver that answers GraphQL queries from prefetched store data:
//! which block a query reads, the `_meta` field, and the handling of
//! indexing errors.

use vstd::prelude::*;
use crate::block::{BlockHash, BlockNumber, BlockPtr, BLOCK_NUMBER_MAX};
use crate::hex::{hex_decoded, lemma_decode_lower_hex, lower_hex, push_lower_hex};
use crate::text::{decimal_text, i32_text, owned};
use crate::value::{has_key, is_text, key_index, lemma_key_index_found, Object, Value};

verus! {

/// The hash that names a subgraph deployment.
pub type DeploymentHash = String;

/// What to do with a query when the subgraph has indexing errors.
#[derive(Clone, Copy, Debug, PartialEq, Eq, Structural)]
pub enum ErrorPolicy {
    /// Answer with the data.
    Allow,
    /// Answer only the `_meta` field.
    Deny,
}

/// The block that a query asks to read.
#[derive(Debug)]
pub enum BlockConstraint {
    /// The block with this hash.
    Hash(BlockHash),
    /// The block with this number.
    Number(BlockNumber),
    /// The latest block, which must have at least this number.
    Min(BlockNumber),
    /// The latest block.
    Latest,
}

/// What a deployment has indexed so far.
#[derive(Debug)]
pub struct DeploymentState {
    pub id: DeploymentHash,
    pub latest_block: BlockPtr,
}

/// A position in the query text.
#[derive(Clone, Copy, Debug, PartialEq, Eq, Structural)]
pub struct Pos {
    pub line: usize,
    pub column: usize,
}

/// Why a query could not be executed.
#[derive(Debug)]
pub enum QueryExecutionError {
    /// An argument could not be used: the argument, and why.
    ValueParseError(String, String),
    /// The entities of a field could not be resolved.
    ResolveEntitiesError(String),
    /// A derived field matched several entities: where the field is, its
    /// name, the type it belongs to, and the field it is derived from.
    AmbiguousDerivedFromResult(Pos, String, String, String),
    /// The store failed to answer.
    StoreError(String),
}

/// The text of the error for a block that is not yet indexed.
pub open spec fn not_yet_available_text(id: Seq<char>, latest: int, block: int) -> Seq<char> {
    "subgraph "@ + id + " has only indexed up to block number "@ + decimal_text(latest)
        + " and data for block number "@ + decimal_text(block)
        + " is therefore not yet available"@
}

/// Whether `e` is the error that `argument` is unusable because `message`.
pub open spec fn is_value_parse_error(
    e: QueryExecutionError,
    argument: Seq<char>,
    message: Seq<char>,
) -> bool {
    e matches QueryExecutionError::ValueParseError(a, m) && a@ == argument && m@ == message
}

/// The hash given to a block that was asked for by number: 32 zero bytes,
/// which stands for "hash unknown".
pub open spec fn unknown_hash() -> Seq<u8> {
    Seq::new(32, |i: int| 0u8)
}

/// The text of the error for a block that is not yet indexed.
fn not_yet_available(id: &str, latest: BlockNumber, block: BlockNumber) -> (r: String)
    ensures
        r@ == not_yet_available_text(id@, latest as int, block as int),
{
    let mut m = owned("subgraph ");
    m.append(id);
    m.append(" has only indexed up to block number ");
    let latest_text = i32_text(latest);
    m.append(latest_text.as_str());
    m.append(" and data for block number ");
    let block_text = i32_text(block);
    m.append(block_text.as_str());
    m.append(" is therefore not yet available");
    m
}

impl DeploymentState {
    /// Whether `block` can be queried: it must not lie after the latest
    /// indexed block; otherwise the reason.
    pub fn block_queryable(&self, block: BlockNumber) -> (r: Result<(), String>)
        ensures
            r is Ok <==> block <= self.latest_block.number,
            r matches Err(m) ==> m@ == not_yet_available_text(
                self.id@,
                self.latest_block.number as int,
                block as int,
            ),
    {
        if block <= self.latest_block.number {
            Ok(())
        } else {
            Err(not_yet_available(self.id.as_str(), self.latest_block.number, block))
        }
    }

    /// The same check, with the reason as the error for the `block.number`
    /// argument.
    fn check_queryable(&self, block: BlockNumber) -> (r: Result<(), QueryExecutionError>)
        ensures
            r is Ok <==> block <= self.latest_block.number,
            r matches Err(e) ==> is_value_parse_error(
                e,
                "block.number"@,
                not_yet_available_text(self.id@, self.latest_block.number as int, block as int),
            ),
    {
        match self.block_queryable(block) {
            Ok(()) => Ok(()),
            Err(msg) => Err(QueryExecutionError::ValueParseError(owned("block.number"), msg)),
        }
    }
}

/// Where locating a block stands: done, or waiting for the store to say
/// which number the block with a hash has.
#[derive(Debug)]
pub enum BlockLocation {
    /// The block, or why it cannot be read.
    Located(Result<BlockPtr, QueryExecutionError>),
    /// The store must look up the number of the block with this hash;
    /// `StoreResolver::locate_block_by_hash` takes its answer.
    LookupHash(BlockHash),
}

/// A resolver that reads entities at one block, or at the latest block when
/// it serves a subscription.
#[derive(Debug)]
pub struct StoreResolver {
    pub block_ptr: Option<BlockPtr>,
    pub deployment: DeploymentHash,
    pub has_non_fatal_errors: bool,
    pub error_policy: ErrorPolicy,
}

impl StoreResolver {
    /// The block number that the resolver reads: that of its block, or the
    /// largest block number when it reads the latest block.
    pub open spec fn spec_block_number(&self) -> BlockNumber {
        match self.block_ptr {
            Some(p) => p.number,
            None => BLOCK_NUMBER_MAX,
        }
    }

    /// A resolver that reads whatever block is the latest when a query
    /// runs; it never reports indexing errors and denies data when there
    /// are some.
    pub fn for_subscription(deployment: DeploymentHash) -> (r: StoreResolver)
        ensures
            r.block_ptr is None,
            r.deployment@ == deployment@,
            !r.has_non_fatal_errors,
            r.error_policy == ErrorPolicy::Deny,
    {
        StoreResolver {
            block_ptr: None,
            deployment,
            has_non_fatal_errors: false,
            error_policy: ErrorPolicy::Deny,
        }
    }

    /// A resolver that reads the block `block_ptr` located, with whether the
    /// deployment has indexing errors at that block.
    pub fn at_block(
        block_ptr: BlockPtr,
        has_non_fatal_errors: bool,
        error_policy: ErrorPolicy,
        deployment: DeploymentHash,
    ) -> (r: StoreResolver)
        ensures
            r.block_ptr matches Some(p) && p.hash@ == block_ptr.hash@ && p.number
                == block_ptr.number,
            r.deployment@ == deployment@,
            r.has_non_fatal_errors == has_non_fatal_errors,
            r.error_policy == error_policy,
    {
        StoreResolver { block_ptr: Some(block_ptr), deployment, has_non_fatal_errors, error_policy }
    }

    /// The block number that the resolver reads.
    pub fn block_number(&self) -> (r: BlockNumber)
        ensures
            r == self.spec_block_number(),
    {
        match &self.block_ptr {
            Some(ptr) => ptr.number,
            None => BLOCK_NUMBER_MAX,
        }
    }

    /// Finds the block that `bc` asks for in the indexed part of the
    /// deployment. A hash needs the store: then the result asks for that
    /// lookup. A number must be indexed and gets the unknown hash; a
    /// minimum must not exceed the latest block, which is the answer, as it
    /// is for `Latest`.
    pub fn locate_block(bc: BlockConstraint, state: &DeploymentState) -> (r: BlockLocation)
        requires
            bc matches BlockConstraint::Number(n) ==> n >= 0 || n > state.latest_block.number,
        ensures
            match bc {
                BlockConstraint::Hash(h) => r matches BlockLocation::LookupHash(h2) && h2@ == h@,
                BlockConstraint::Number(n) => if n <= state.latest_block.number {
                    r matches BlockLocation::Located(Ok(p)) && p.hash@ == unknown_hash()
                        && p.number == n
                } else {
                    r matches BlockLocation::Located(Err(e)) && is_value_parse_error(
                        e,
                        "block.number"@,
                        not_yet_available_text(
                            state.id@,
                            state.latest_block.number as int,
                            n as int,
                        ),
                    )
                },
                BlockConstraint::Min(min) => if state.latest_block.number < min {
                    r matches BlockLocation::Located(Err(e)) && is_value_parse_error(
                        e,
                        "block.number_gte"@,
                        not_yet_available_text(
                            state.id@,
                            state.latest_block.number as int,
                            min as int,
                        ),
                    )
                } else {
                    r matches BlockLocation::Located(Ok(p)) && p.hash@ == state.latest_block.hash@
                        && p.number == state.latest_block.number
                },
                BlockConstraint::Latest => r matches BlockLocation::Located(Ok(p)) && p.hash@
                    == state.latest_block.hash@ && p.number == state.latest_block.number,
            },
    {
        match bc {
            BlockConstraint::Hash(hash) => BlockLocation::LookupHash(hash),
            BlockConstraint::Number(number) => {
                match state.check_queryable(number) {
                    Err(e) => BlockLocation::Located(Err(e)),
                    Ok(()) => {
                        let zeros: Vec<u8> = vec![0u8; 32];
                        proof {
                            assert(zeros@ =~= unknown_hash());
                        }
                        BlockLocation::Located(Ok(BlockPtr { hash: BlockHash(zeros), number }))
                    },
                }
            },
            BlockConstraint::Min(min) => {
                if state.latest_block.number < min {
                    BlockLocation::Located(
                        Err(
                            QueryExecutionError::ValueParseError(
                                owned("block.number_gte"),
                                not_yet_available(
                                    state.id.as_str(),
                                    state.latest_block.number,
                                    min,
                                ),
                            ),
                        ),
                    )
                } else {
                    BlockLocation::Located(Ok(state.latest_block.duplicate()))
                }
            },
            BlockConstraint::Latest => BlockLocation::Located(Ok(state.latest_block.duplicate())),
        }
    }

    /// Finishes locating the block with hash `hash`, given what the store
    /// said its number is: a store failure is passed on, an unknown hash is
    /// an error for `block.hash`, and the number must be indexed.
    pub fn locate_block_by_hash(
        hash: BlockHash,
        stored_number: Result<Option<BlockNumber>, QueryExecutionError>,
        state: &DeploymentState,
    ) -> (r: Result<BlockPtr, QueryExecutionError>)
        ensures
            match stored_number {
                Err(e) => r == Err::<BlockPtr, _>(e),
                Ok(None) => r matches Err(e) && is_value_parse_error(
                    e,
                    "block.hash"@,
                    "no block with that hash found"@,
                ),
                Ok(Some(n)) => if n <= state.latest_block.number {
                    r matches Ok(p) && p.hash@ == hash@ && p.number == n
                } else {
                    r matches Err(e) && is_value_parse_error(
                        e,
                        "block.number"@,
                        not_yet_available_text(
                            state.id@,
                            state.latest_block.number as int,
                            n as int,
                        ),
                    )
                },
            },
    {
        match stored_number {
            Err(e) => Err(e),
            Ok(None) => Err(
                QueryExecutionError::ValueParseError(
                    owned("block.hash"),
                    owned("no block with that hash found"),
                ),
            ),
            Ok(Some(number)) => {
                state.check_queryable(number)?;
                Ok(BlockPtr { hash, number })
            },
        }
    }
}

/// The name of the type of the `_meta` field.
pub const META_FIELD_TYPE: &'static str = "_Meta_";

/// The name of the type of the block inside the `_meta` field.
pub const BLOCK_FIELD_TYPE: &'static str = "_Block_";

/// A GraphQL object or interface type, known by its name.
#[derive(Debug)]
pub struct ObjectOrInterface {
    pub name: String,
}

impl ObjectOrInterface {
    /// Whether this is the type of the `_meta` field.
    pub open spec fn spec_is_meta(&self) -> bool {
        self.name@ == META_FIELD_TYPE@
    }

    /// Whether this is the type of the `_meta` field.
    pub fn is_meta(&self) -> (r: bool)
        ensures
            r == self.spec_is_meta(),
    {
        let meta = owned(META_FIELD_TYPE);
        self.name == meta
    }
}

/// A field of a query: where it stands and its name.
#[derive(Debug)]
pub struct Field {
    pub position: Pos,
    pub name: String,
}

/// A query's result: its data, if any, and its errors.
#[derive(Debug)]
pub enum QueryError {
    /// The subgraph has indexing errors.
    IndexingError,
    /// The query could not be executed.
    ExecutionError(QueryExecutionError),
}

/// The result of a query: the data and the errors.
#[derive(Debug)]
pub struct QueryResult {
    pub data: Option<Object>,
    pub errors: Vec<QueryError>,
}

/// The contents of a query result.
#[verifier::ext_equal]
pub ghost struct QueryResultView {
    pub data: Option<Seq<(String, Value)>>,
    pub errors: Seq<QueryError>,
}

impl View for QueryResult {
    type V = QueryResultView;

    open spec fn view(&self) -> QueryResultView {
        QueryResultView {
            data: match self.data {
                Some(o) => Some(o@),
                None => None,
            },
            errors: self.errors@,
        }
    }
}

impl QueryResult {
    /// Whether the result has errors.
    pub fn has_errors(&self) -> (r: bool)
        ensures
            r == (self.errors@.len() > 0),
    {
        self.errors.len() > 0
    }
}

/// Whether every byte is zero.
pub open spec fn all_zero(b: Seq<u8>) -> bool {
    forall|i: int| 0 <= i < b.len() ==> b[i] == 0u8
}

/// The text that `_meta` shows as the hash of the block at `ptr`: none when
/// the resolver reads the latest block or the hash is unknown (all zero),
/// else `0x` and the lowercase hexadecimal digits of the hash.
pub open spec fn meta_hash_text(ptr: Option<BlockPtr>) -> Option<Seq<char>> {
    match ptr {
        None => None,
        Some(p) => if all_zero(p.hash@) {
            None
        } else {
            Some(seq!['0', 'x'] + lower_hex(p.hash@))
        },
    }
}

/// Whether `v` shows the hash text `t`, or null when there is none.
pub open spec fn shows_hash(v: Value, t: Option<Seq<char>>) -> bool {
    match t {
        None => v is Null,
        Some(s) => is_text(v, s),
    }
}

/// Whether `v` shows the number of the block at `ptr`, or null when there
/// is none.
pub open spec fn shows_number(v: Value, ptr: Option<BlockPtr>) -> bool {
    match ptr {
        None => v is Null,
        Some(p) => v == Value::Int(p.number as i64),
    }
}

/// Whether `v` is the `_meta` block object for the block at `ptr`:
/// `__typename`, `hash` and `number`, in that order.
pub open spec fn is_meta_block(v: Value, ptr: Option<BlockPtr>) -> bool {
    &&& v matches Value::Object(o)
    &&& o@.len() == 3
    &&& has_key(o@[0], "__typename"@) && is_text(o@[0].1, BLOCK_FIELD_TYPE@)
    &&& has_key(o@[1], "hash"@) && shows_hash(o@[1].1, meta_hash_text(ptr))
    &&& has_key(o@[2], "number"@) && shows_number(o@[2].1, ptr)
}

/// Whether `v` is the `_meta` object of resolver `r`: `__typename`,
/// `deployment`, `hasIndexingErrors` and `prefetch:block` (a list with the
/// block object), in that order.
pub open spec fn is_meta_object(v: Value, r: &StoreResolver) -> bool {
    &&& v matches Value::Object(o)
    &&& o@.len() == 4
    &&& has_key(o@[0], "__typename"@) && is_text(o@[0].1, META_FIELD_TYPE@)
    &&& has_key(o@[1], "deployment"@) && is_text(o@[1].1, r.deployment@)
    &&& has_key(o@[2], "hasIndexingErrors"@) && o@[2].1 == Value::Boolean(r.has_non_fatal_errors)
    &&& has_key(o@[3], "prefetch:block"@)
    &&& o@[3].1 matches Value::List(l) && l@.len() == 1 && is_meta_block(l@[0], r.block_ptr)
}

/// The text of the error for a field whose entities were not prefetched.
pub open spec fn not_prefetched_text(object_name: Seq<char>, field_name: Seq<char>) -> Seq<char> {
    "internal error resolving "@ + object_name + "."@ + field_name
        + ": expected prefetched result, but found nothing"@
}

/// The text of the error for a field whose entities were not prefetched.
fn not_prefetched(object_name: &str, field_name: &str) -> (r: String)
    ensures
        r@ == not_prefetched_text(object_name@, field_name@),
{
    let mut m = owned("internal error resolving ");
    m.append(object_name);
    m.append(".");
    m.append(field_name);
    m.append(": expected prefetched result, but found nothing");
    m
}

/// What remains of the data when only `_meta` may be answered: the `_meta`
/// entry alone, or nothing.
pub open spec fn meta_only(data: Option<Seq<(String, Value)>>) -> Option<Seq<(String, Value)>> {
    match data {
        None => None,
        Some(entries) => match key_index(entries, "_meta"@) {
            Some(i) => Some(seq![entries[i]]),
            None => None,
        },
    }
}

/// A result after post-processing by a resolver with the given indexing
/// errors and policy: unchanged when there are no indexing errors or the
/// query already failed; otherwise the single error is the indexing error,
/// and under `Deny` only the `_meta` entry of the data remains.
pub open spec fn post_processed(
    has_non_fatal_errors: bool,
    policy: ErrorPolicy,
    r: QueryResultView,
) -> QueryResultView {
    if !has_non_fatal_errors || r.errors.len() > 0 {
        r
    } else {
        QueryResultView {
            data: if policy == ErrorPolicy::Deny {
                meta_only(r.data)
            } else {
                r.data
            },
            errors: seq![QueryError::IndexingError],
        }
    }
}

impl StoreResolver {
    /// Whether the `_meta` object can be built: the hash of the resolver's
    /// block, if it has one, is 32 bytes long.
    pub open spec fn meta_hash_readable(&self) -> bool {
        self.block_ptr matches Some(p) ==> p.hash@.len() == 32
    }

    /// The `_meta` object of this resolver.
    fn meta_object(&self) -> (r: Value)
        requires
            self.meta_hash_readable(),
        ensures
            is_meta_object(r, self),
    {
        let hash = match &self.block_ptr {
            None => Value::Null,
            Some(ptr) => {
                let bytes = ptr.hash.0.as_slice();
                let n = bytes.len();
                let mut i: usize = 0;
                let mut zero = true;
                while i < n
                    invariant
                        n == bytes@.len(),
                        bytes@ == ptr.hash@,
                        i <= n,
                        zero == (forall|j: int| 0 <= j < i ==> bytes@[j] == 0u8),
                    decreases n - i,
                {
                    if bytes[i] != 0 {
                        zero = false;
                    }
                    i = i + 1;
                }
                assert(zero == all_zero(ptr.hash@));
                if zero {
                    Value::Null
                } else {
                    let mut text = owned("0x");
                    proof {
                        reveal_strlit("0x");
                    }
                    push_lower_hex(&mut text, bytes);
                    assert(text@ == seq!['0', 'x'] + lower_hex(ptr.hash@));
                    Value::String(text)
                }
            },
        };
        let number = match &self.block_ptr {
            None => Value::Null,
            Some(ptr) => Value::Int(ptr.number as i64),
        };
        let mut block_entries: Vec<(String, Value)> = Vec::new();
        block_entries.push((owned("__typename"), Value::String(owned(BLOCK_FIELD_TYPE))));
        block_entries.push((owned("hash"), hash));
        block_entries.push((owned("number"), number));
        let block = Value::Object(Object { entries: block_entries });
        let mut blocks: Vec<Value> = Vec::new();
        blocks.push(block);
        let mut entries: Vec<(String, Value)> = Vec::new();
        entries.push((owned("__typename"), Value::String(owned(META_FIELD_TYPE))));
        entries.push((owned("deployment"), Value::String(self.deployment.clone())));
        entries.push((owned("hasIndexingErrors"), Value::Boolean(self.has_non_fatal_errors)));
        entries.push((owned("prefetch:block"), Value::List(blocks)));
        Value::Object(Object { entries })
    }

    /// Answers the `_meta` field from the resolver itself, as if it had been
    /// prefetched: for the `_meta` type the object is the meta result and
    /// nothing is prefetched; any other type keeps its prefetched object.
    pub fn handle_meta(
        &self,
        prefetched_object: Option<Value>,
        object_type: &ObjectOrInterface,
    ) -> (r: Result<(Option<Value>, Option<Value>), QueryExecutionError>)
        requires
            object_type.spec_is_meta() ==> self.meta_hash_readable(),
        ensures
            object_type.spec_is_meta() ==> (r matches Ok((None, Some(m))) && is_meta_object(m, self)),
            !object_type.spec_is_meta() ==> r == Ok::<_, QueryExecutionError>(
                (prefetched_object, None::<Value>),
            ),
    {
        if object_type.is_meta() {
            return Ok((None, Some(self.meta_object())));
        }
        Ok((prefetched_object, None))
    }

    /// The entities of a list field: the prefetched value, which must be
    /// there.
    pub fn resolve_objects(
        &self,
        prefetched_objects: Option<Value>,
        field: &Field,
        object_type: &ObjectOrInterface,
    ) -> (r: Result<Value, QueryExecutionError>)
        ensures
            match prefetched_objects {
                Some(child) => r == Ok::<Value, QueryExecutionError>(child),
                None => r matches Err(QueryExecutionError::ResolveEntitiesError(m)) && m@
                    == not_prefetched_text(object_type.name@, field.name@),
            },
    {
        match prefetched_objects {
            Some(child) => Ok(child),
            None => Err(
                QueryExecutionError::ResolveEntitiesError(
                    not_prefetched(object_type.name.as_str(), field.name.as_str()),
                ),
            ),
        }
    }

    /// The entity of a single-valued field. `_meta` is answered by the
    /// resolver; otherwise the prefetched value must be a list with at most
    /// one entity (null for none). Several entities are only possible for
    /// a derived field, and `derived_from_field` names the field it is
    /// derived from.
    pub fn resolve_object(
        &self,
        prefetched_object: Option<Value>,
        field: &Field,
        derived_from_field: Option<&str>,
        object_type: &ObjectOrInterface,
    ) -> (r: Result<Value, QueryExecutionError>)
        requires
            object_type.spec_is_meta() ==> self.meta_hash_readable(),
            !object_type.spec_is_meta() ==> (prefetched_object matches Some(Value::List(c))
                ==> c@.len() > 1 ==> derived_from_field is Some),
        ensures
            object_type.spec_is_meta() ==> (r matches Ok(m) && is_meta_object(m, self)),
            !object_type.spec_is_meta() ==> match prefetched_object {
                Some(Value::List(c)) => if c@.len() > 1 {
                    r matches Err(QueryExecutionError::AmbiguousDerivedFromResult(p, f, t, d))
                        && p == field.position && f@ == field.name@ && t@ == object_type.name@
                        && d@ == derived_from_field->0@
                } else if c@.len() == 1 {
                    r == Ok::<Value, QueryExecutionError>(c@[0])
                } else {
                    r == Ok::<Value, QueryExecutionError>(Value::Null)
                },
                _ => r matches Err(QueryExecutionError::ResolveEntitiesError(m)) && m@
                    == not_prefetched_text(object_type.name@, field.name@),
            },
    {
        let (prefetched_object, meta) = self.handle_meta(prefetched_object, object_type)?;
        if let Some(meta) = meta {
            return Ok(meta);
        }
        match prefetched_object {
            Some(Value::List(children)) => {
                if children.len() > 1 {
                    let derived = derived_from_field.unwrap();
                    Err(
                        QueryExecutionError::AmbiguousDerivedFromResult(
                            field.position,
                            field.name.clone(),
                            object_type.name.clone(),
                            owned(derived),
                        ),
                    )
                } else if children.len() == 1 {
                    let mut children = children;
                    Ok(children.remove(0))
                } else {
                    Ok(Value::Null)
                }
            },
            _ => Err(
                QueryExecutionError::ResolveEntitiesError(
                    not_prefetched(object_type.name.as_str(), field.name.as_str()),
                ),
            ),
        }
    }

    /// Marks a successful query of a deployment with indexing errors: the
    /// only error becomes the indexing error and, when such results are
    /// denied, all data but the `_meta` entry is dropped.
    pub fn post_process(&self, result: &mut QueryResult)
        ensures
            final(result)@ == post_processed(
                self.has_non_fatal_errors,
                self.error_policy,
                old(result)@,
            ),
            !self.has_non_fatal_errors ==> final(result)@ == old(result)@,
            old(result)@.errors.len() > 0 ==> final(result)@ == old(result)@,
            (self.has_non_fatal_errors && old(result)@.errors.len() == 0) ==> final(result)@.errors
                == seq![QueryError::IndexingError],
            (self.has_non_fatal_errors && self.error_policy == ErrorPolicy::Allow)
                ==> final(result)@.data == old(result)@.data,
    {
        if !self.has_non_fatal_errors || result.has_errors() {
            return;
        }
        result.errors = vec![QueryError::IndexingError];
        assert(result.errors@ =~= seq![QueryError::IndexingError]);
        match self.error_policy {
            ErrorPolicy::Deny => {
                let data = result.data.take();
                let meta = match data {
                    Some(mut d) => {
                        let key = owned("_meta");
                        match d.remove(&key) {
                            Some(entry) => {
                                let mut entries: Vec<(String, Value)> = Vec::new();
                                entries.push(entry);
                                Some(Object { entries })
                            },
                            None => None,
                        }
                    },
                    None => None,
                };
                result.data = meta;
                proof {
                    let old_data = old(result)@.data;
                    if let Some(es) = old_data {
                        lemma_key_index_found(es, "_meta"@);
                    }
                    assert(final(result)@.data == meta_only(old_data));
                }
            },
            ErrorPolicy::Allow => {},
        }
    }
}

/// A resolver made for a subscription reads the latest block: its block
/// number is the largest one.
pub proof fn lemma_subscription_reads_latest(r: StoreResolver)
    requires
        r.block_ptr is None,
    ensures
        r.spec_block_number() == BLOCK_NUMBER_MAX,
{
}

/// A resolver made at a block reads that block's number.
pub proof fn lemma_resolver_reads_its_block(r: StoreResolver, p: BlockPtr)
    requires
        r.block_ptr == Some(p),
    ensures
        r.spec_block_number() == p.number,
{
}

/// A block asked for by number gets the unknown hash, and `_meta` then
/// shows no hash for it.
pub proof fn lemma_unknown_hash_not_shown(p: BlockPtr)
    requires
        p.hash@ == unknown_hash(),
    ensures
        meta_hash_text(Some(p)) is None,
{
    assert(all_zero(p.hash@));
}

/// The hash that `_meta` shows, read back from its hexadecimal digits after
/// `0x`, is the block's hash.
pub proof fn lemma_meta_hash_decodes(p: BlockPtr)
    ensures
        meta_hash_text(Some(p)) matches Some(t) ==> hex_decoded(t.skip(2)) == Some(p.hash@),
{
    if let Some(t) = meta_hash_text(Some(p)) {
        lemma_decode_lower_hex(p.hash@);
        assert(t.skip(2) =~= lower_hex(p.hash@));
    }
}

/// Post-processing a result a second time changes nothing.
pub proof fn lemma_post_process_idempotent(
    has_non_fatal_errors: bool,
    policy: ErrorPolicy,
    r: QueryResultView,
)
    ensures
        post_processed(has_non_fatal_errors, policy, post_processed(has_non_fatal_errors, policy, r))
            == post_processed(has_non_fatal_errors, policy, r),
{
}

/// When a successful query meets indexing errors under `Deny`, the answer
/// carries the indexing error alone and at most the `_meta` entry of the
/// data, unchanged.
pub proof fn lemma_deny_keeps_only_meta(r: QueryResultView)
    requires
        r.errors.len() == 0,
    ensures
        ({
            let p = post_processed(true, ErrorPolicy::Deny, r);
            &&& p.errors == seq![QueryError::IndexingError]
            &&& p.data matches Some(es) ==> (es.len() == 1 && has_key(es[0], "_meta"@) && (r.data
                matches Some(old_es) && old_es.contains(es[0])))
        }),
{
    if let Some(es) = r.data {
        lemma_key_index_found(es, "_meta"@);
    }
}

/// Under `Allow`, indexing errors never take data away.
pub proof fn lemma_allow_keeps_data(has_non_fatal_errors: bool, r: QueryResultView)
    ensures
        post_processed(has_non_fatal_errors, ErrorPolicy::Allow, r).data == r.data,
{
}

/// A deployment without indexing errors, or a query that already failed,
/// is answered unchanged under every policy; the indexing error is added
/// only when the deployment has indexing errors and the query succeeded.
pub proof fn lemma_indexing_error_only_when_present(
    has_non_fatal_errors: bool,
    policy: ErrorPolicy,
    r: QueryResultView,
)
    ensures
        !has_non_fatal_errors ==> post_processed(has_non_fatal_errors, policy, r) == r,
        r.errors.len() > 0 ==> post_processed(has_non_fatal_errors, policy, r) == r,
        post_processed(has_non_fatal_errors, policy, r).errors.contains(QueryError::IndexingError)
            ==> has_non_fatal_errors || r.errors.contains(QueryError::IndexingError),
        (has_non_fatal_errors && r.errors.len() == 0) ==> post_processed(
            has_non_fatal_errors,
            policy,
            r,
        ).errors == seq![QueryError::IndexingError],
{
    if has_non_fatal_errors && r.errors.len() == 0 {
        assert(seq![QueryError::IndexingError][0] == QueryError::IndexingError);
    }
}

/// `_meta` hides the hash of a block exactly when every byte of it is zero;
/// any other hash is shown as `0x` and the lowercase hexadecimal digits of
/// all its bytes.
pub proof fn lemma_meta_hash_null_iff_zero(p: BlockPtr)
    ensures
        meta_hash_text(Some(p)) is None <==> (forall|i: int|
            0 <= i < p.hash@.len() ==> p.hash@[i] == 0u8),
        (exists|i: int| 0 <= i < p.hash@.len() && p.hash@[i] != 0u8) ==> meta_hash_text(Some(p))
            == Some(seq!['0', 'x'] + lower_hex(p.hash@)),
        meta_hash_text(None) is None,
{
}

} // verus!
