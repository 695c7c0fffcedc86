//! Block references, the block a request was resolved to, and how stale it is.

use vstd::prelude::*;

verus! {

/// A logical pointer to a block, before it is resolved to a number.
#[derive(Clone, Copy, Debug, PartialEq, Eq)]
pub enum BlockReference {
    /// The block with this hash.
    Hash([u8; 32]),
    /// The block with this number.
    Number(u64),
    /// The first block of the chain.
    Earliest,
    /// The last sealed block.
    Latest,
    /// The last committed block.
    Committed,
    /// The last finalized block.
    Finalized,
    /// The block that is being built on top of the last sealed one.
    Pending,
}

impl BlockReference {
    /// Whether the reference follows the chain head instead of naming a fixed block. A
    /// call against such a reference is run on top of the head itself.
    pub open spec fn follows_head(self) -> bool {
        self is Pending || self is Latest || self is Committed
    }

    /// The reference a trace-by-call request is run against: the one it gave, or the
    /// pending block when it gave none.
    pub open spec fn or_pending(reference: Option<BlockReference>) -> BlockReference {
        match reference {
            Some(reference) => reference,
            None => BlockReference::Pending,
        }
    }
}

/// The block that a reference was resolved to, as the VM is run against it.
#[derive(Clone, Copy, Debug, PartialEq, Eq)]
pub struct BlockContext {
    /// The reference that was resolved.
    pub block_id: BlockReference,
    /// The number of the block it was resolved to.
    pub resolved_block_number: u32,
}

/// The distance from a block to the chain head, in blocks; zero for a block that is not
/// behind the head.
pub open spec fn block_diff(chain_head: u32, block_number: u32) -> u32 {
    if chain_head >= block_number {
        (chain_head - block_number) as u32
    } else {
        0
    }
}

/// The staleness of a request that was run against `block`: the distance from the
/// resolved block to the head, but nothing where its reference follows the head, whatever
/// number it was resolved to a moment before.
pub open spec fn context_diff(chain_head: u32, block: BlockContext) -> u32 {
    if block.block_id.follows_head() {
        0
    } else {
        block_diff(chain_head, block.resolved_block_number)
    }
}

/// The staleness of a block against the chain head.
pub fn diff(chain_head: u32, block_number: u32) -> (staleness: u32)
    ensures
        staleness == block_diff(chain_head, block_number),
{
    chain_head.saturating_sub(block_number)
}

impl BlockContext {
    /// Whether the block was reached through a reference that follows the chain head.
    pub fn resolves_to_latest_sealed_block(&self) -> (follows: bool)
        ensures
            follows == self.block_id.follows_head(),
    {
        match self.block_id {
            BlockReference::Pending => true,
            BlockReference::Latest => true,
            BlockReference::Committed => true,
            _ => false,
        }
    }
}

/// The staleness of a request against the chain head, by the block it was run against.
pub fn diff_with_block_context(chain_head: u32, block: &BlockContext) -> (staleness: u32)
    ensures
        staleness == context_diff(chain_head, *block),
{
    let distance = diff(chain_head, block.resolved_block_number);
    if block.resolves_to_latest_sealed_block() {
        0
    } else {
        distance
    }
}

} // verus!
