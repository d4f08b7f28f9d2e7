//! What holds of every chain, proved over the models that the contracts of
//! [`Block`](crate::block::Block) and [`Chain`](crate::chain::Chain) speak of.

use crate::block::BlockView;
use crate::chain::{built, extended, indexed, link_holds, linked, rooted};
use crate::decimal::{decimal_text, digit_char};
use vstd::prelude::*;

verus! {

/// The first insertion into an empty chain leaves one block, with index 0
/// and back-reference 0, whatever the payload.
pub proof fn lemma_genesis_shape(payload: Seq<char>)
    ensures
        extended(Seq::empty(), payload).len() == 1,
        extended(Seq::empty(), payload)[0] == (BlockView { index: 0, payload, back_reference: 0 }),
{
}

/// An insertion keeps what held of the blocks before it: their places, their
/// root and their links.
pub proof fn lemma_extended_keeps(s: Seq<BlockView>, payload: Seq<char>)
    ensures
        indexed(s) ==> indexed(extended(s, payload)),
        rooted(s) ==> rooted(extended(s, payload)),
        linked(s) ==> linked(extended(s, payload)),
{
    let t = extended(s, payload);
    if linked(s) {
        assert forall|k: int| 0 <= k < t.len() implies #[trigger] link_holds(t, k) by {
            if k < s.len() {
                assert(link_holds(s, k));
            }
        }
    }
}

/// A chain that started empty and took `n` insertions has `n` blocks. The
/// block at each place claims that place and carries the payload inserted
/// at that turn, and the first block refers back to nothing.
pub proof fn lemma_built_shape(payloads: Seq<Seq<char>>)
    ensures
        built(payloads).len() == payloads.len(),
        indexed(built(payloads)),
        rooted(built(payloads)),
        forall|k: int|
            0 <= k < payloads.len() ==> (#[trigger] built(payloads)[k]).payload == payloads[k],
    decreases payloads.len(),
{
    if payloads.len() > 0 {
        lemma_built_shape(payloads.drop_last());
        lemma_extended_keeps(built(payloads.drop_last()), payloads.last());
    }
}

/// A chain that was built by insertions alone validates, whatever the
/// payloads were.
pub proof fn lemma_built_linked(payloads: Seq<Seq<char>>)
    ensures
        linked(built(payloads)),
    decreases payloads.len(),
{
    if payloads.len() > 0 {
        lemma_built_linked(payloads.drop_last());
        lemma_extended_keeps(built(payloads.drop_last()), payloads.last());
    }
}

/// Two blocks with the same index, payload and back-reference have the same
/// fingerprint.
pub proof fn lemma_fingerprint_of_equal_fields(a: BlockView, b: BlockView)
    requires
        a.index == b.index,
        a.payload == b.payload,
        a.back_reference == b.back_reference,
    ensures
        a.fingerprint() == b.fingerprint(),
{
}

/// The fields of a block are fingerprinted with nothing between them, so a
/// digit may pass from the front of the payload to the end of the index
/// without a change of the fingerprint: index 1 with payload `"2"` and
/// index 12 with an empty payload cannot be told apart.
pub proof fn lemma_fields_run_together(
    index: nat,
    digit: nat,
    payload: Seq<char>,
    back_reference: u64,
)
    requires
        index > 0,
        digit < 10,
    ensures
        (BlockView {
            index,
            payload: seq![digit_char(digit)] + payload,
            back_reference,
        }).fingerprint() == (BlockView {
            index: 10 * index + digit,
            payload,
            back_reference,
        }).fingerprint(),
{
    let short = BlockView { index, payload: seq![digit_char(digit)] + payload, back_reference };
    let long = BlockView { index: 10 * index + digit, payload, back_reference };
    assert(short.canonical_text() =~= long.canonical_text());
}

/// Where every block stands at the place it claims, the chain validates
/// exactly if each block but the first stores the fingerprint of the block
/// just before it.
pub proof fn lemma_linked_by_neighbours(s: Seq<BlockView>)
    requires
        indexed(s),
    ensures
        linked(s) <==> forall|k: int|
            0 < k < s.len() ==> (#[trigger] s[k]).back_reference == s[k - 1].fingerprint(),
{
    if linked(s) {
        assert forall|k: int| 0 < k < s.len() implies
            (#[trigger] s[k]).back_reference == s[k - 1].fingerprint() by {
            assert(link_holds(s, k));
        }
    }
}

/// A chain without blocks validates, and so does a chain of one block that
/// claims the first place.
pub proof fn lemma_short_chain_linked(s: Seq<BlockView>)
    requires
        s.len() <= 1,
        indexed(s),
    ensures
        linked(s),
{
}

/// What the overwriting of one block does to a valid chain. Let every block
/// of `s` stand at the place it claims and let `s` validate. After the block
/// at `k` is overwritten by one that claims the same place, the chain still
/// validates exactly if both of these hold: the new block stores the old
/// back-reference, unless it is the first block; and the new block has the
/// old fingerprint, unless it is the last block.
pub proof fn lemma_alteration_verdict(s: Seq<BlockView>, k: int, altered: BlockView)
    requires
        indexed(s),
        linked(s),
        0 <= k < s.len(),
        altered.index == s[k].index,
    ensures
        linked(s.update(k, altered)) <==> {
            &&& k > 0 ==> altered.back_reference == s[k].back_reference
            &&& k + 1 < s.len() ==> altered.fingerprint() == s[k].fingerprint()
        },
{
    let t = s.update(k, altered);
    lemma_linked_by_neighbours(s);
    lemma_linked_by_neighbours(t);
    // Only the link into place `k` and the link out of it can have changed.
    if k > 0 {
        assert(t[k - 1] == s[k - 1] && t[k] == altered);
    }
    if k + 1 < s.len() {
        assert(t[k + 1] == s[k + 1] && t[k] == altered);
    }
}

/// Tampering shows. Let every block of `s` stand at the place it claims and
/// let `s` validate. If the block at `k` is overwritten by one that claims
/// the same place but stores another back-reference, where a block stands
/// before it, or has another fingerprint, where a block stands behind it,
/// the chain no longer validates.
///
/// A change that leaves the fingerprint as it was, or one of the payload of
/// the last block, is not noticed: see [`lemma_alteration_verdict`].
pub proof fn lemma_tamper_detected(s: Seq<BlockView>, k: int, altered: BlockView)
    requires
        indexed(s),
        linked(s),
        0 <= k < s.len(),
        altered.index == s[k].index,
        (k > 0 && altered.back_reference != s[k].back_reference)
            || (k + 1 < s.len() && altered.fingerprint() != s[k].fingerprint()),
    ensures
        !linked(s.update(k, altered)),
{
    lemma_alteration_verdict(s, k, altered);
}

} // verus!
