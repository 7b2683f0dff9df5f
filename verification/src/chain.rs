//! The substreams chain: node capabilities and the mapper from stream
//! messages to block stream events.

use vstd::prelude::*;
use crate::block::{Block as SubstreamBlock, BlockHash, BlockNumber};
use crate::hex::{decode_hex, hex_decoded, lemma_hex_decoded_len};
use crate::substreams::{BlockScopedData, Data, ForkStep};
use crate::uniswap::EntitiesChanges;

verus! {

/// The (empty) block type of the substreams chain.
#[derive(Clone, Debug)]
pub struct Block {}

/// The substreams chain.
#[derive(Debug)]
pub struct Chain {}

/// What a node must support to index substreams; there is nothing to
/// choose, so all values are equal.
#[derive(Clone, Copy, Debug, PartialEq, Eq, Structural, PartialOrd, Ord)]
pub struct NodeCapabilities {}

impl NodeCapabilities {
    /// Reads capabilities from text; every text is accepted.
    pub fn from_str(_s: &str) -> (r: Result<NodeCapabilities, ()>)
        ensures
            r == Ok::<NodeCapabilities, ()>(NodeCapabilities {}),
    {
        Ok(NodeCapabilities {})
    }

    /// The text of the capabilities: `substream`.
    pub fn to_string(&self) -> (r: String)
        ensures
            r@ == "substream"@,
    {
        "substream".to_owned()
    }

    /// The capabilities that any set of data sources needs.
    pub fn from_data_sources<T>(_data_sources: &[T]) -> (r: NodeCapabilities)
        ensures
            r == (NodeCapabilities {}),
    {
        NodeCapabilities {}
    }
}

/// Why a stream message cannot be turned into a block stream event.
#[derive(Clone, Copy, Debug, PartialEq, Eq, Structural)]
pub enum SubstreamsError {
    /// The message holds the outputs of more than one module.
    MultipleModuleOutputError,
    /// The single output comes from a store module, not a map module.
    UnexpectedStoreDeltaOutput,
}

/// The cursor from which a stream can be resumed after a block.
#[derive(Clone, Debug)]
pub struct FirehoseCursor(pub String);

/// A block together with the triggers found in it.
#[derive(Clone, Debug)]
pub struct BlockWithTriggers {
    pub block: SubstreamBlock,
}

/// What the block stream hands to the indexer.
#[derive(Clone, Debug)]
pub enum BlockStreamEvent {
    /// Process this block; the stream can be resumed at the cursor.
    ProcessBlock(BlockWithTriggers, FirehoseCursor),
}

/// A map output that is ready to become a block once its payload has been
/// decoded into entity changes.
#[derive(Clone, Debug)]
pub struct PendingBlock {
    pub block_num: BlockNumber,
    pub block_hash: BlockHash,
    pub cursor: String,
    /// The serialized `EntitiesChanges` message of the map module.
    pub payload: Vec<u8>,
}

/// Turns substreams stream messages into block stream events.
pub struct Mapper {}

impl Mapper {
    /// Whether the mapper can read `data` without failing: the step is a
    /// known fork step, the clock is present, a single output carries data,
    /// and the clock id of a map output is hexadecimal.
    pub open spec fn readable(data: &BlockScopedData) -> bool {
        &&& ForkStep::spec_from_wire(data.step) is Some
        &&& data.clock is Some
        &&& data.outputs@.len() == 1 ==> data.outputs@[0].data is Some
        &&& (data.outputs@.len() == 1 && data.outputs@[0].data matches Some(Data::MapOutput(_)))
            ==> hex_decoded(data.clock->0.id@) is Some
    }

    /// The first step of mapping a message: no event when no module
    /// produced output, an error for several outputs or for a store output,
    /// and otherwise the block, its cursor and the map output's payload,
    /// which must then be decoded and handed to `into_block_stream_event`.
    pub fn prepare_block_stream_event(&self, data: &BlockScopedData) -> (r: Result<
        Option<PendingBlock>,
        SubstreamsError,
    >)
        requires
            Mapper::readable(data),
        ensures
            data.outputs@.len() == 0 <==> r matches Ok(None),
            data.outputs@.len() > 1 <==> r == Err::<Option<PendingBlock>, _>(
                SubstreamsError::MultipleModuleOutputError,
            ),
            (data.outputs@.len() == 1 && data.outputs@[0].data matches Some(Data::StoreDeltas(_)))
                <==> r == Err::<Option<PendingBlock>, _>(SubstreamsError::UnexpectedStoreDeltaOutput),
            data.outputs@.len() == 1 ==> (data.outputs@[0].data matches Some(Data::MapOutput(any))
                ==> r matches Ok(Some(p)) && p.block_num == data.block_number_of()
                && p.block_hash@ == data.block_hash_bytes() && p.cursor@ == data.cursor@
                && p.payload@ == any.value@),
            r matches Ok(Some(p)) ==> hex_decoded(data.clock->0.id@) == Some(p.block_hash@)
                && 2 * p.block_hash@.len() == data.clock->0.id@.len()
                && (data.clock->0.number <= i32::MAX ==> p.block_num as int
                == data.clock->0.number as int),
    {
        let _step = ForkStep::from_i32(data.step).unwrap();
        let clock = data.clock.as_ref().unwrap();
        if data.outputs.len() == 0 {
            return Ok(None);
        }
        if data.outputs.len() > 1 {
            return Err(SubstreamsError::MultipleModuleOutputError);
        }
        let module_output = &data.outputs[0];
        match module_output.data.as_ref().unwrap() {
            Data::MapOutput(msg) => {
                let hash = decode_hex(clock.id.as_str()).unwrap();
                proof {
                    lemma_hex_decoded_len(clock.id@);
                }
                Ok(
                    Some(
                        PendingBlock {
                            block_num: clock.number as i32,
                            block_hash: BlockHash(hash),
                            cursor: data.cursor.clone(),
                            payload: msg.value.clone(),
                        },
                    ),
                )
            },
            Data::StoreDeltas(_) => Err(SubstreamsError::UnexpectedStoreDeltaOutput),
        }
    }
}

impl PendingBlock {
    /// The block stream event for the block, with the decoded entity
    /// changes: block number and hash from the clock, parent number 0 and
    /// an empty parent hash, and the stream cursor.
    pub fn into_block_stream_event(self, changes: EntitiesChanges) -> (r: BlockStreamEvent)
        ensures
            r matches BlockStreamEvent::ProcessBlock(bwt, cursor) && bwt.block.block_num
                == self.block_num && bwt.block.block_hash@ == self.block_hash@
                && bwt.block.parent_block_num == 0 && bwt.block.parent_block_hash@.len() == 0
                && bwt.block.entities_changes == changes && cursor.0@ == self.cursor@,
    {
        BlockStreamEvent::ProcessBlock(
            BlockWithTriggers {
                block: SubstreamBlock {
                    block_num: self.block_num,
                    block_hash: self.block_hash,
                    parent_block_num: 0,
                    parent_block_hash: BlockHash(Vec::new()),
                    entities_changes: changes,
                },
            },
            FirehoseCursor(self.cursor),
        )
    }
}

} // verus!
