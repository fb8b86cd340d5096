//! Block identifiers and the intervals of blocks that a request asks for.

use vstd::prelude::*;

verus! {

/// A block number, or a tag that a node resolves to one.
#[derive(Clone, Copy, Debug, PartialEq, Eq, Structural)]
pub enum BlockNumberOrTag {
    Latest,
    Finalized,
    Safe,
    Earliest,
    Pending,
    Number(u64),
}

/// The 32 bytes of a block hash.
#[derive(Clone, Copy, Debug, PartialEq, Eq)]
pub struct BlockHash {
    pub bytes: [u8; 32],
}

/// What names a block: its hash, or its number or tag.
#[derive(Clone, Copy, Debug, PartialEq, Eq)]
pub enum BlockId {
    Hash(BlockHash),
    Number(BlockNumberOrTag),
}

impl BlockId {
    /// The identifier of the block with number `number`.
    pub open spec fn spec_number(number: u64) -> BlockId {
        BlockId::Number(BlockNumberOrTag::Number(number))
    }

    /// The identifier of the block with number `number`.
    pub fn number(number: u64) -> (id: BlockId)
        ensures
            id == BlockId::spec_number(number),
    {
        BlockId::Number(BlockNumberOrTag::Number(number))
    }

    /// The number that the identifier gives, if it gives one.
    pub open spec fn spec_as_number(self) -> Option<u64> {
        match self {
            BlockId::Number(BlockNumberOrTag::Number(number)) => Some(number),
            _ => None,
        }
    }

    /// The number that the identifier gives, if it gives one.
    pub fn as_number(&self) -> (number: Option<u64>)
        ensures
            number == self.spec_as_number(),
    {
        match self {
            BlockId::Number(BlockNumberOrTag::Number(number)) => Some(*number),
            _ => None,
        }
    }
}

/// The blocks that a request asks for.
#[derive(Clone, Copy, Debug, PartialEq, Eq)]
pub enum BlockInterval {
    /// Every block from `start_block` on, as the chain grows; `block_time`
    /// is the time between two looks at the chain tip, in milliseconds.
    FollowFrom { start_block: u64, block_time: Option<u64> },
    /// The blocks from `start` to `end`, both included.
    Range { start: u64, end: u64 },
    /// One block.
    SingleBlockId(BlockId),
}

impl BlockInterval {
    /// The number of the first block of the interval, where the interval
    /// gives one: a single block named by a hash or a tag gives none.
    pub open spec fn spec_start(self) -> Option<u64> {
        match self {
            BlockInterval::FollowFrom { start_block, block_time } => Some(start_block),
            BlockInterval::Range { start, end } => Some(start),
            BlockInterval::SingleBlockId(id) => id.spec_as_number(),
        }
    }

    /// Whether the interval can be proved: a single block has to be named
    /// by its number, not by a hash or a tag.
    pub open spec fn spec_is_supported(self) -> bool {
        self.spec_start().is_some()
    }

    /// Whether the interval can be proved.
    pub fn is_supported(&self) -> (supported: bool)
        ensures
            supported == self.spec_is_supported(),
    {
        self.start().is_some()
    }

    /// The number of the first block of the interval, where the interval
    /// gives one.
    pub fn start(&self) -> (start: Option<u64>)
        ensures
            start == self.spec_start(),
    {
        match self {
            BlockInterval::FollowFrom { start_block, block_time: _ } => Some(*start_block),
            BlockInterval::Range { start, end: _ } => Some(*start),
            BlockInterval::SingleBlockId(id) => id.as_number(),
        }
    }
}

} // verus!
