//! A sample chain to show the library at work.

use crate::chain::{built, linked, Chain};
use crate::decimal::{decimal_string, decimal_text};
use crate::laws::{lemma_built_linked, lemma_built_shape};
use vstd::prelude::*;

verus! {

/// The payloads of the sample chain: the numerals of 1 to 99, in order.
pub open spec fn sample_payloads() -> Seq<Seq<char>> {
    Seq::new(99, |k: int| decimal_text((k + 1) as nat))
}

/// Builds the sample chain: 99 blocks whose payloads are the numerals of 1
/// to 99. It validates.
pub fn generate_chain() -> (chain: Chain)
    ensures
        chain@ == built(sample_payloads()),
        chain.well_formed(),
        linked(chain@),
{
    let mut chain = Chain::new();
    let mut i: u64 = 1;
    while i < 100
        invariant
            1 <= i <= 100,
            chain@ == built(sample_payloads().take(i - 1)),
        decreases 100 - i,
    {
        chain.insert_block(decimal_string(i));
        proof {
            let taken = sample_payloads().take(i as int);
            assert(taken.drop_last() =~= sample_payloads().take(i - 1));
        }
        i += 1;
    }
    proof {
        assert(sample_payloads().take(99) =~= sample_payloads());
        lemma_built_shape(sample_payloads());
        lemma_built_linked(sample_payloads());
    }
    chain
}

} // verus!
