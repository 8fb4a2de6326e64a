//! Exclusive use of the register sets: each can be claimed once, and never
//! again for as long as the program runs.

use vstd::prelude::*;
use crate::action::Block;

verus! {

/// Evidence of a successful claim. Only `Ownership::claim` hands one out,
/// and at most one per register set.
#[derive(Debug)]
pub struct Handle {
    block: Block,
}

impl Handle {
    /// The register set this handle stands for.
    pub closed spec fn block_of(self) -> Block {
        self.block
    }

    /// The register set this handle stands for.
    pub fn block(&self) -> (block: Block)
        ensures
            block == self.block_of(),
    {
        self.block
    }
}

/// The record of which register sets have been claimed since the program
/// started. Claims are never given back.
#[derive(Debug)]
pub struct Ownership {
    device_claimed: bool,
    core_claimed: bool,
}

impl View for Ownership {
    type V = Set<Block>;

    /// The register sets claimed so far.
    closed spec fn view(&self) -> Set<Block> {
        Set::new(
            |block: Block|
                match block {
                    Block::Device => self.device_claimed,
                    Block::Core => self.core_claimed,
                },
        )
    }
}

impl Ownership {
    /// The record at program start: nothing is claimed.
    pub fn new() -> (ownership: Ownership)
        ensures
            ownership@ == Set::<Block>::empty(),
    {
        let ownership = Ownership { device_claimed: false, core_claimed: false };
        assert(ownership@ =~= Set::<Block>::empty());
        ownership
    }

    /// Whether `block` has been claimed.
    pub fn is_claimed(&self, block: Block) -> (claimed: bool)
        ensures
            claimed == self@.contains(block),
    {
        match block {
            Block::Device => self.device_claimed,
            Block::Core => self.core_claimed,
        }
    }

    /// Claims `block`. The first claim of a register set is granted a handle;
    /// every later one is refused. Either way the set counts as claimed
    /// afterwards, and the other set's standing is untouched.
    pub fn claim(&mut self, block: Block) -> (granted: Option<Handle>)
        ensures
            granted.is_some() == !old(self)@.contains(block),
            final(self)@ == old(self)@.insert(block),
            granted matches Some(handle) ==> handle.block_of() == block,
    {
        let taken = self.is_claimed(block);
        match block {
            Block::Device => {
                self.device_claimed = true;
            },
            Block::Core => {
                self.core_claimed = true;
            },
        }
        assert(self@ =~= old(self)@.insert(block));
        if taken {
            None
        } else {
            Some(Handle { block })
        }
    }
}

} // verus!
