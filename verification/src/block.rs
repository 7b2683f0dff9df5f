use vstd::prelude::*;
use crate::uniswap::EntitiesChanges;

verus! {

/// A block height; negative values never name a real block.
pub type BlockNumber = i32;

/// The largest block number that can be represented.
pub const BLOCK_NUMBER_MAX: BlockNumber = 2147483647i32;

/// The hash of a block, as raw bytes.
#[derive(Clone, Debug)]
pub struct BlockHash(pub Vec<u8>);

impl View for BlockHash {
    type V = Seq<u8>;

    open spec fn view(&self) -> Seq<u8> {
        self.0@
    }
}

impl BlockHash {
    /// Copies the hash; the copy holds the same bytes.
    pub fn duplicate(&self) -> (r: BlockHash)
        ensures
            r@ == self@,
    {
        BlockHash(self.0.clone())
    }
}


/// A pointer to a block: its hash and its number.
#[derive(Clone, Debug)]
pub struct BlockPtr {
    pub hash: BlockHash,
    pub number: BlockNumber,
}

impl BlockPtr {
    /// The pointer with the given hash and number.
    pub fn new(hash: BlockHash, number: BlockNumber) -> (r: BlockPtr)
        ensures
            r.hash@ == hash@,
            r.number == number,
    {
        BlockPtr { hash, number }
    }

    /// The number of the block.
    pub fn block_number(&self) -> (r: BlockNumber)
        ensures
            r == self.number,
    {
        self.number
    }

    /// Copies the pointer; the copy names the same block.
    pub fn duplicate(&self) -> (r: BlockPtr)
        ensures
            r.hash@ == self.hash@,
            r.number == self.number,
    {
        BlockPtr { hash: self.hash.duplicate(), number: self.number }
    }
}

/// A block that a substreams mapping module produced entity changes for.
#[derive(Clone, Debug)]
pub struct Block {
    pub block_num: BlockNumber,
    pub block_hash: BlockHash,
    pub parent_block_num: BlockNumber,
    pub parent_block_hash: BlockHash,
    pub entities_changes: EntitiesChanges,
}

impl Default for Block {
    /// Block 0 with empty hashes and no entity changes.
    fn default() -> (r: Self)
        ensures
            r.block_num == 0,
            r.block_hash@.len() == 0,
            r.parent_block_num == 0,
            r.parent_block_hash@.len() == 0,
            r.entities_changes.entity_changes@.len() == 0,
    {
        Block {
            block_num: 0,
            block_hash: BlockHash(Vec::new()),
            parent_block_num: 0,
            parent_block_hash: BlockHash(Vec::new()),
            entities_changes: EntitiesChanges::default(),
        }
    }
}

impl Block {
    /// The pointer to this block.
    pub fn ptr(&self) -> (r: BlockPtr)
        ensures
            r.hash@ == self.block_hash@,
            r.number == self.block_num,
    {
        BlockPtr { hash: self.block_hash.duplicate(), number: self.block_num }
    }

    /// The pointer to the parent block; every block has one.
    pub fn parent_ptr(&self) -> (r: Option<BlockPtr>)
        ensures
            r matches Some(p) && p.hash@ == self.parent_block_hash@
                && p.number == self.parent_block_num,
    {
        Some(BlockPtr { hash: self.parent_block_hash.duplicate(), number: self.parent_block_num })
    }

    /// The number of the block, as its pointer gives it.
    pub fn number(&self) -> (r: BlockNumber)
        ensures
            r == self.block_num,
    {
        self.ptr().number
    }

    /// The hash of the block, as its pointer gives it.
    pub fn hash(&self) -> (r: BlockHash)
        ensures
            r@ == self.block_hash@,
    {
        self.ptr().hash
    }

    /// The hash of the parent block, as the parent pointer gives it.
    pub fn parent_hash(&self) -> (r: Option<BlockHash>)
        ensures
            r matches Some(h) && h@ == self.parent_block_hash@,
    {
        match self.parent_ptr() {
            Some(p) => Some(p.hash),
            None => None,
        }
    }
}

} // verus!
