//! The substreams stream messages that the mapper reads, and the block
//! pointer of a block-scoped output.

use vstd::prelude::*;
use crate::block::{BlockHash, BlockNumber, BlockPtr};
use crate::hex::{decode_hex, hex_decoded, lemma_hex_decoded_len};

verus! {

/// Where a block stands relative to the chain's fork choice; the wire
/// numbers are 0, 1, 2 and 4 (3 is reserved).
#[derive(Clone, Copy, Debug, PartialEq, Eq, Structural)]
pub enum ForkStep {
    StepUnknown,
    StepNew,
    StepUndo,
    StepIrreversible,
}

impl ForkStep {
    /// The wire number of the step: `StepUnknown` 0, `StepNew` 1, `StepUndo`
    /// 2, `StepIrreversible` 4.
    pub open spec fn wire_number(self) -> i32 {
        match self {
            ForkStep::StepUnknown => 0,
            ForkStep::StepNew => 1,
            ForkStep::StepUndo => 2,
            ForkStep::StepIrreversible => 4,
        }
    }

    /// The step with wire number `v`, if there is one.
    pub open spec fn spec_from_wire(v: i32) -> Option<ForkStep> {
        if v == 0 {
            Some(ForkStep::StepUnknown)
        } else if v == 1 {
            Some(ForkStep::StepNew)
        } else if v == 2 {
            Some(ForkStep::StepUndo)
        } else if v == 4 {
            Some(ForkStep::StepIrreversible)
        } else {
            None
        }
    }

    /// The step with wire number `value`; `None` for an unknown number.
    pub fn from_i32(value: i32) -> (r: Option<ForkStep>)
        ensures
            r == ForkStep::spec_from_wire(value),
            r matches Some(step) ==> step.wire_number() == value,
            forall|step: ForkStep| step.wire_number() == value ==> r == Some(step),
    {
        if value == 0 {
            Some(ForkStep::StepUnknown)
        } else if value == 1 {
            Some(ForkStep::StepNew)
        } else if value == 2 {
            Some(ForkStep::StepUndo)
        } else if value == 4 {
            Some(ForkStep::StepIrreversible)
        } else {
            None
        }
    }
}

/// The block that a stream message is about: its hexadecimal id and number.
#[derive(Clone, Debug)]
pub struct Clock {
    pub id: String,
    pub number: u64,
}

/// A serialized protobuf message with its type URL.
#[derive(Clone, Debug)]
pub struct Any {
    pub type_url: String,
    pub value: Vec<u8>,
}

/// One change to a key of a store module.
#[derive(Clone, Debug)]
pub struct StoreDelta {
    pub operation: i32,
    pub ordinal: u64,
    pub key: String,
    pub old_value: Vec<u8>,
    pub new_value: Vec<u8>,
}

/// The changes a store module made in one block.
#[derive(Clone, Debug)]
pub struct StoreDeltas {
    pub deltas: Vec<StoreDelta>,
}

/// What a module emitted: the output of a map module or the deltas of a
/// store module.
#[derive(Clone, Debug)]
pub enum Data {
    MapOutput(Any),
    StoreDeltas(StoreDeltas),
}

/// The output of one module for one block.
#[derive(Clone, Debug)]
pub struct ModuleOutput {
    pub name: String,
    pub data: Option<Data>,
}

/// The outputs of the requested modules for one block, with the stream
/// cursor after it.
#[derive(Clone, Debug)]
pub struct BlockScopedData {
    pub outputs: Vec<ModuleOutput>,
    pub clock: Option<Clock>,
    pub step: i32,
    pub cursor: String,
}

impl BlockScopedData {
    /// Whether the message names its block: it has a clock whose id is
    /// hexadecimal text.
    pub open spec fn names_block(&self) -> bool {
        &&& self.clock is Some
        &&& hex_decoded(self.clock->0.id@) is Some
    }

    /// The hash of the block the message is about (meaningful when
    /// `names_block`).
    pub open spec fn block_hash_bytes(&self) -> Seq<u8> {
        hex_decoded(self.clock->0.id@)->0
    }

    /// The number of the block the message is about: the clock's number
    /// truncated to a `BlockNumber`.
    pub open spec fn block_number_of(&self) -> BlockNumber {
        self.clock->0.number as i32
    }

    /// The pointer to the block the message is about: the decoded clock id
    /// and the clock number.
    pub fn ptr(&self) -> (r: BlockPtr)
        requires
            self.names_block(),
        ensures
            r.hash@ == self.block_hash_bytes(),
            r.number == self.block_number_of(),
            hex_decoded(self.clock->0.id@) == Some(r.hash@),
            self.clock->0.number <= i32::MAX ==> r.number as int == self.clock->0.number as int,
    {
        let clock = self.clock.as_ref().unwrap();
        let bytes = decode_hex(clock.id.as_str()).unwrap();
        BlockPtr { hash: BlockHash(bytes), number: clock.number as i32 }
    }

    /// The parent pointer, which is the block's own pointer.
    pub fn parent_ptr(&self) -> (r: Option<BlockPtr>)
        requires
            self.names_block(),
        ensures
            r matches Some(p) && p.hash@ == self.block_hash_bytes()
                && p.number == self.block_number_of()
                && hex_decoded(self.clock->0.id@) == Some(p.hash@),
    {
        Some(self.ptr())
    }

    /// The number of the block, as its pointer gives it.
    pub fn number(&self) -> (r: BlockNumber)
        requires
            self.names_block(),
        ensures
            r == self.block_number_of(),
            self.clock->0.number <= i32::MAX ==> r as int == self.clock->0.number as int,
    {
        self.ptr().number
    }

    /// The hash of the block, as its pointer gives it.
    pub fn hash(&self) -> (r: BlockHash)
        requires
            self.names_block(),
        ensures
            r@ == self.block_hash_bytes(),
            hex_decoded(self.clock->0.id@) == Some(r@),
    {
        self.ptr().hash
    }

    /// The parent hash, as the parent pointer gives it.
    pub fn parent_hash(&self) -> (r: Option<BlockHash>)
        requires
            self.names_block(),
        ensures
            r matches Some(h) && h@ == self.block_hash_bytes()
                && hex_decoded(self.clock->0.id@) == Some(h@),
    {
        match self.parent_ptr() {
            Some(p) => Some(p.hash),
            None => None,
        }
    }
}

/// The block a message names has the hash that its clock id spells out in
/// full (two hexadecimal digits per byte, so half as many bytes as digits),
/// and the number of its clock whenever that number is a block number.
pub proof fn lemma_named_block(data: BlockScopedData)
    requires
        data.names_block(),
    ensures
        hex_decoded(data.clock->0.id@) == Some(data.block_hash_bytes()),
        2 * data.block_hash_bytes().len() == data.clock->0.id@.len(),
        data.clock->0.number <= i32::MAX ==> data.block_number_of() as int
            == data.clock->0.number as int,
{
    lemma_hex_decoded_len(data.clock->0.id@);
}

} // verus!
