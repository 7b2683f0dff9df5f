//! The value type of a `Field`.

use vstd::prelude::*;

verus! {

/// How the bytes of a field value are to be read; the wire numbers are 0 to
/// 5 in the order of the variants (`Int` is a 32-bit integer).
#[derive(Clone, Copy, Debug, PartialEq, Eq, Structural, Hash, PartialOrd, Ord)]
pub enum Type {
    Unset,
    Bigdecimal,
    Bigint,
    Int,
    Bytes,
    String,
}

impl Type {
    /// The wire number of the value type.
    pub open spec fn wire_number(self) -> i32 {
        match self {
            Type::Unset => 0,
            Type::Bigdecimal => 1,
            Type::Bigint => 2,
            Type::Int => 3,
            Type::Bytes => 4,
            Type::String => 5,
        }
    }

    /// The value type with wire number `v`, if there is one.
    pub open spec fn spec_from_wire(v: i32) -> Option<Type> {
        if v == 0 {
            Some(Type::Unset)
        } else if v == 1 {
            Some(Type::Bigdecimal)
        } else if v == 2 {
            Some(Type::Bigint)
        } else if v == 3 {
            Some(Type::Int)
        } else if v == 4 {
            Some(Type::Bytes)
        } else if v == 5 {
            Some(Type::String)
        } else {
            None
        }
    }

    /// The wire number of the value type.
    pub fn to_i32(self) -> (r: i32)
        ensures
            r == self.wire_number(),
    {
        match self {
            Type::Unset => 0,
            Type::Bigdecimal => 1,
            Type::Bigint => 2,
            Type::Int => 3,
            Type::Bytes => 4,
            Type::String => 5,
        }
    }

    /// The value type with wire number `value`; `None` for an unknown number.
    pub fn from_i32(value: i32) -> (r: Option<Type>)
        ensures
            r == Type::spec_from_wire(value),
    {
        if value == 0 {
            Some(Type::Unset)
        } else if value == 1 {
            Some(Type::Bigdecimal)
        } else if value == 2 {
            Some(Type::Bigint)
        } else if value == 3 {
            Some(Type::Int)
        } else if value == 4 {
            Some(Type::Bytes)
        } else if value == 5 {
            Some(Type::String)
        } else {
            None
        }
    }

    /// Whether `value` is the wire number of a value type.
    pub fn is_valid(value: i32) -> (r: bool)
        ensures
            r == Type::spec_from_wire(value) is Some,
    {
        0 <= value && value <= 5
    }

    /// Each value type is read back from its own wire number, and a number
    /// that is read as a value type is that type's wire number.
    pub proof fn lemma_wire_roundtrip(t: Type, v: i32)
        ensures
            Type::spec_from_wire(t.wire_number()) == Some(t),
            Type::spec_from_wire(v) == Some(t) ==> v == t.wire_number(),
    {
    }
}

impl Default for Type {
    /// `Unset`, wire number 0.
    fn default() -> (r: Self)
        ensures
            r == Type::Unset,
    {
        Type::Unset
    }
}

} // verus!
