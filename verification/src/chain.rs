//! The chain: an ordered run of blocks that grows at its end, and the check
//! of its back-references.

use crate::block::{Block, BlockView};
use crate::laws::lemma_extended_keeps;
use vstd::prelude::*;
use vstd::string::StringExecFns;

verus! {

/// The block that an insertion of `payload` puts behind the blocks `s`: it
/// claims the next place and refers back to the last block of `s`, or to
/// nothing where `s` is empty.
pub open spec fn successor(s: Seq<BlockView>, payload: Seq<char>) -> BlockView {
    BlockView {
        index: s.len(),
        payload,
        back_reference: if s.len() == 0 {
            0
        } else {
            s.last().fingerprint()
        },
    }
}

/// The blocks `s` after an insertion of `payload`.
pub open spec fn extended(s: Seq<BlockView>, payload: Seq<char>) -> Seq<BlockView> {
    s.push(successor(s, payload))
}

/// The blocks of a chain that started empty and had `payloads` inserted in
/// order.
pub open spec fn built(payloads: Seq<Seq<char>>) -> Seq<BlockView>
    decreases payloads.len(),
{
    if payloads.len() == 0 {
        Seq::empty()
    } else {
        extended(built(payloads.drop_last()), payloads.last())
    }
}

/// Every block of `s` claims the place at which it stands.
pub open spec fn indexed(s: Seq<BlockView>) -> bool {
    forall|k: int| 0 <= k < s.len() ==> (#[trigger] s[k]).index == k
}

/// The first block of `s`, if there is one, refers back to nothing.
pub open spec fn rooted(s: Seq<BlockView>) -> bool {
    s.len() > 0 ==> s[0].back_reference == 0
}

/// The back-reference of the block at `k` is in order: the block claims the
/// first place, or the place before the one it claims exists in `s` and the
/// block there has the fingerprint that the block at `k` stores.
pub open spec fn link_holds(s: Seq<BlockView>, k: int) -> bool {
    let claimed = s[k].index;
    claimed > 0 ==> claimed - 1 < s.len() && s[k].back_reference == s[claimed - 1].fingerprint()
}

/// Every back-reference in `s` is in order.
pub open spec fn linked(s: Seq<BlockView>) -> bool {
    forall|k: int| 0 <= k < s.len() ==> #[trigger] link_holds(s, k)
}

/// All blocks of `s` written out in order, a line break behind each.
pub open spec fn rendered(s: Seq<BlockView>) -> Seq<char>
    decreases s.len(),
{
    if s.len() == 0 {
        Seq::empty()
    } else {
        rendered(s.drop_last()) + s.last().rendered() + "\n"@
    }
}

/// An ordered run of blocks. It starts empty and grows at its end.
pub struct Chain {
    blocks: Vec<Block>,
}

impl View for Chain {
    type V = Seq<BlockView>;

    closed spec fn view(&self) -> Seq<BlockView> {
        self.blocks@.map_values(|b: Block| b@)
    }
}

impl Chain {
    /// What holds of a chain that only insertions have touched: every block
    /// claims the place at which it stands, and the first refers back to
    /// nothing.
    pub open spec fn well_formed(&self) -> bool {
        indexed(self@) && rooted(self@)
    }

    /// Makes a chain without blocks.
    pub fn new() -> (chain: Chain)
        ensures
            chain@ == Seq::<BlockView>::empty(),
            chain.well_formed(),
    {
        Chain { blocks: Vec::new() }
    }

    /// Puts a new block with the given payload behind the blocks of the
    /// chain. The first block of a chain gets index 0 and back-reference 0;
    /// every later one gets the number of blocks before it as its index and
    /// the fingerprint of the block last inserted as its back-reference.
    pub fn insert_block(&mut self, data_str: String)
        ensures
            final(self)@ == extended(old(self)@, data_str@),
            old(self).well_formed() ==> final(self).well_formed(),
            linked(old(self)@) ==> linked(final(self)@),
    {
        let len: usize = self.blocks.len();
        let block = if len == 0 {
            Block::new(0, data_str, 0)
        } else {
            let prevh: u64 = self.blocks[len - 1].get_hash();
            Block::new(len as u64, data_str, prevh)
        };
        self.blocks.push(block);
        proof {
            lemma_extended_keeps(old(self)@, data_str@);
        }
    }

    /// Tells whether every back-reference of the chain is in order. A block
    /// whose index names a place before it that the chain does not have
    /// makes the chain invalid.
    pub fn validate_chain(&self) -> (valid: bool)
        ensures
            valid == linked(self@),
    {
        let len: usize = self.blocks.len();
        let mut k: usize = 0;
        while k < len
            invariant
                len == self.blocks.len(),
                k <= len,
                forall|j: int| 0 <= j < k ==> #[trigger] link_holds(self@, j),
            decreases len - k,
        {
            let block = &self.blocks[k];
            let claimed: u64 = block.index();
            if claimed > 0 {
                let before: u64 = claimed - 1;
                if before >= len as u64 {
                    assert(!link_holds(self@, k as int));
                    return false;
                }
                let expected: u64 = self.blocks[before as usize].get_hash();
                if block.back_reference() != expected {
                    assert(!link_holds(self@, k as int));
                    return false;
                }
            }
            k += 1;
        }
        true
    }

    /// Writes every block out in order, each followed by a line break.
    pub fn render(&self) -> (text: String)
        ensures
            text@ == rendered(self@),
    {
        let len: usize = self.blocks.len();
        let mut text = String::new();
        let mut k: usize = 0;
        while k < len
            invariant
                len == self.blocks.len(),
                k <= len,
                text@ == rendered(self@.take(k as int)),
            decreases len - k,
        {
            let one = self.blocks[k].render();
            text.append(one.as_str());
            text.append("\n");
            proof {
                let next = self@.take(k + 1);
                assert(next.drop_last() =~= self@.take(k as int));
            }
            k += 1;
        }
        assert(self@.take(len as int) =~= self@);
        text
    }

    /// The number of blocks in the chain.
    pub fn len(&self) -> (n: usize)
        ensures
            n == self@.len(),
    {
        self.blocks.len()
    }

    /// The block at `position`, counted from 0, if the chain has one there.
    pub fn get(&self, position: usize) -> (found: Option<&Block>)
        ensures
            match found {
                Some(b) => position < self@.len() && b@ == self@[position as int],
                None => position >= self@.len(),
            },
    {
        if position < self.blocks.len() {
            Some(&self.blocks[position])
        } else {
            None
        }
    }

    /// Puts `block` in the place of the block at `position` and hands the
    /// old block back, as damage to a stored chain would overwrite it. No
    /// other block changes, so the chain may stop validating. A chain
    /// without a block at `position` is left as it is.
    pub fn replace_block(&mut self, position: usize, block: Block) -> (replaced: Option<Block>)
        ensures
            match replaced {
                Some(b) => {
                    &&& position < old(self)@.len()
                    &&& b@ == old(self)@[position as int]
                    &&& final(self)@ == old(self)@.update(position as int, block@)
                },
                None => position >= old(self)@.len() && final(self)@ == old(self)@,
            },
    {
        if position < self.blocks.len() {
            let mut held = block;
            std::mem::swap(&mut self.blocks[position], &mut held);
            Some(held)
        } else {
            None
        }
    }
}

} // verus!
