//! Block identifiers and static block data.

use vstd::prelude::*;

verus! {

/// The registry id of a block type; every value names a registered block.
#[derive(Clone, Copy, PartialEq, Eq, Debug, Structural)]
pub struct BlockId(u16);

impl BlockId {
    pub closed spec fn value(self) -> u16 {
        self.0
    }

    /// Two ids are the same block exactly when their values agree.
    pub proof fn lemma_value_identifies(a: BlockId, b: BlockId)
        ensures
            a.value() == b.value() <==> a == b,
    {
    }

    /// Air, the block with registry id 0.
    pub fn air() -> (b: BlockId)
        ensures
            b.value() == 0,
    {
        BlockId(0)
    }

    /// The block with registry id `inner`, when it is below `block_count`,
    /// the number of registered blocks.
    pub fn new(inner: u16, block_count: u16) -> (r: Option<BlockId>)
        ensures
            inner < block_count ==> (r matches Some(b) && b.value() == inner),
            inner >= block_count ==> r is None,
    {
        if inner < block_count {
            Some(BlockId(inner))
        } else {
            None
        }
    }

    /// The block with registry id `inner`, or air when there is none.
    pub fn new_or_air(inner: u16, block_count: u16) -> (b: BlockId)
        ensures
            b.value() == (if inner < block_count { inner } else { 0 }),
    {
        if inner < block_count {
            BlockId(inner)
        } else {
            BlockId(0)
        }
    }

    pub fn as_u16(self) -> (v: u16)
        ensures
            v == self.value(),
    {
        self.0
    }

    /// Whether the block is one of the ids of a tag.
    pub fn has_tag(self, tag: &[u16]) -> (r: bool)
        ensures
            r == tag@.contains(self.value()),
    {
        let mut i: usize = 0;
        while i < tag.len()
            invariant
                i <= tag@.len(),
                forall|j: int| 0 <= j < i ==> tag@[j] != self.value(),
            decreases tag@.len() - i,
        {
            if tag[i] == self.0 {
                assert(tag@.contains(tag@[i as int]));
                return true;
            }
            i = i + 1;
        }
        false
    }
}

/// How fire spreads to and burns a block.
#[derive(Clone, Copy, PartialEq, Eq, Debug, Structural)]
pub struct Flammable {
    pub spread_chance: u8,
    pub burn_chance: u8,
}

} // verus!
