//! The 64-bit digest that fingerprints are made of.

use std::collections::hash_map::DefaultHasher;
use std::hash::Hasher;
use vstd::prelude::*;
use vstd::std_specs::hash::DefaultHasherAdditionalSpecFns;
use vstd::string::StringSliceAdditionalSpecFns;
use vstd::utf8::encode_utf8;

verus! {

/// The byte that closes a hashed text. No UTF-8 encoding contains it, so
/// the bytes fed for one text are never a prefix of those fed for another.
pub const TEXT_END: u8 = 0xff;

/// The digest of `text`: what the standard library's default hasher, freshly
/// made, returns after it was fed the UTF-8 bytes of `text` and then
/// [`TEXT_END`].
pub open spec fn digest_of(text: Seq<char>) -> u64 {
    DefaultHasher::spec_finish(seq![encode_utf8(text), seq![TEXT_END]])
}

/// Computes the digest of `text`.
///
/// The value is fixed for a given text within one build of the program; the
/// standard library does not promise the same value across its releases.
pub fn digest(text: &str) -> (h: u64)
    ensures
        h == digest_of(text@),
{
    let mut hasher = DefaultHasher::new();
    hasher.write(text.as_bytes());
    let end: [u8; 1] = [TEXT_END];
    assert(end@ =~= seq![TEXT_END]);
    hasher.write(end.as_slice());
    assert(hasher@ =~= seq![encode_utf8(text@), seq![TEXT_END]]);
    hasher.finish()
}

} // verus!
