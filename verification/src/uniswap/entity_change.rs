//! The operation of an `EntityChange`.

use vstd::prelude::*;

verus! {

/// What happened to an entity; the wire numbers are 0 to 3 in the order of
/// the variants.
#[derive(Clone, Copy, Debug, PartialEq, Eq, Structural, Hash, PartialOrd, Ord)]
pub enum Operation {
    Unset,
    Create,
    Update,
    Delete,
}

impl Operation {
    /// The wire number of the operation.
    pub open spec fn wire_number(self) -> i32 {
        match self {
            Operation::Unset => 0,
            Operation::Create => 1,
            Operation::Update => 2,
            Operation::Delete => 3,
        }
    }

    /// The operation with wire number `v`, if there is one.
    pub open spec fn spec_from_wire(v: i32) -> Option<Operation> {
        if v == 0 {
            Some(Operation::Unset)
        } else if v == 1 {
            Some(Operation::Create)
        } else if v == 2 {
            Some(Operation::Update)
        } else if v == 3 {
            Some(Operation::Delete)
        } else {
            None
        }
    }

    /// The wire number of the operation.
    pub fn to_i32(self) -> (r: i32)
        ensures
            r == self.wire_number(),
    {
        match self {
            Operation::Unset => 0,
            Operation::Create => 1,
            Operation::Update => 2,
            Operation::Delete => 3,
        }
    }

    /// The operation with wire number `value`; `None` for an unknown number.
    pub fn from_i32(value: i32) -> (r: Option<Operation>)
        ensures
            r == Operation::spec_from_wire(value),
    {
        if value == 0 {
            Some(Operation::Unset)
        } else if value == 1 {
            Some(Operation::Create)
        } else if value == 2 {
            Some(Operation::Update)
        } else if value == 3 {
            Some(Operation::Delete)
        } else {
            None
        }
    }

    /// Whether `value` is the wire number of an operation.
    pub fn is_valid(value: i32) -> (r: bool)
        ensures
            r == Operation::spec_from_wire(value) is Some,
    {
        0 <= value && value <= 3
    }

    /// Each operation is read back from its own wire number, and a number
    /// that is read as an operation is that operation's wire number.
    pub proof fn lemma_wire_roundtrip(op: Operation, v: i32)
        ensures
            Operation::spec_from_wire(op.wire_number()) == Some(op),
            Operation::spec_from_wire(v) == Some(op) ==> v == op.wire_number(),
    {
    }
}

impl Default for Operation {
    /// `Unset`, wire number 0.
    fn default() -> (r: Self)
        ensures
            r == Operation::Unset,
    {
        Operation::Unset
    }
}

} // verus!
