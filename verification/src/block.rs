//! One entry of the ledger and its fingerprint.

use crate::decimal::{append_decimal, decimal_string, decimal_text};
use crate::digest::{digest, digest_of};
use vstd::prelude::*;
use vstd::string::StringExecFns;

verus! {

/// One entry of the ledger. Its fields are fixed when it is made.
pub struct Block {
    /// The place that the block claims in its chain; 0 for the first block.
    index: u64,
    /// The data that the block carries. Nothing is asked of it.
    payload: String,
    /// The fingerprint of the block before this one; 0 where there is none.
    back_reference: u64,
}

/// What a [`Block`] holds, as mathematical values.
pub struct BlockView {
    pub index: nat,
    pub payload: Seq<char>,
    pub back_reference: u64,
}

impl BlockView {
    /// The text that is fingerprinted: the numeral of the index, the
    /// payload, and the numeral of the back-reference, with nothing between
    /// them.
    pub open spec fn canonical_text(self) -> Seq<char> {
        decimal_text(self.index) + self.payload + decimal_text(self.back_reference as nat)
    }

    /// The fingerprint of the block: the digest of its canonical text.
    pub open spec fn fingerprint(self) -> u64 {
        digest_of(self.canonical_text())
    }

    /// The block written out for a reader: index, payload and
    /// back-reference, each behind its label and on a line of its own.
    pub open spec fn rendered(self) -> Seq<char> {
        "num: "@ + decimal_text(self.index) + " \ndata: "@ + self.payload
            + " \nprevious hash: "@ + decimal_text(self.back_reference as nat)
    }
}

impl View for Block {
    type V = BlockView;

    closed spec fn view(&self) -> BlockView {
        BlockView {
            index: self.index as nat,
            payload: self.payload@,
            back_reference: self.back_reference,
        }
    }
}

impl Block {
    /// Makes a block of the three given fields. Every value is accepted.
    pub fn new(n: u64, d: String, prevh: u64) -> (block: Block)
        ensures
            block@ == (BlockView { index: n as nat, payload: d@, back_reference: prevh }),
    {
        Block { index: n, payload: d, back_reference: prevh }
    }

    /// Joins the three fields into the text that is fingerprinted: the
    /// numeral of the index, the payload and the numeral of the
    /// back-reference, with nothing between them.
    pub fn canonical_text(&self) -> (text: String)
        ensures
            text@ == self@.canonical_text(),
    {
        let mut text = decimal_string(self.index);
        text.append(self.payload.as_str());
        append_decimal(&mut text, self.back_reference);
        text
    }

    /// Computes the fingerprint of the block: the digest of its canonical
    /// text. Blocks with the same fields get the same fingerprint.
    pub fn get_hash(&self) -> (h: u64)
        ensures
            h == self@.fingerprint(),
    {
        let text = self.canonical_text();
        digest(text.as_str())
    }

    /// Writes the block out for a reader: its index, its payload and its
    /// back-reference, each on a line of its own.
    pub fn render(&self) -> (text: String)
        ensures
            text@ == self@.rendered(),
    {
        let mut text = String::new();
        text.append("num: ");
        append_decimal(&mut text, self.index);
        text.append(" \ndata: ");
        text.append(self.payload.as_str());
        text.append(" \nprevious hash: ");
        append_decimal(&mut text, self.back_reference);
        text
    }

    /// The place that the block claims in its chain.
    pub fn index(&self) -> (n: u64)
        ensures
            n == self@.index,
    {
        self.index
    }

    /// The data that the block carries.
    pub fn payload(&self) -> (d: &str)
        ensures
            d@ == self@.payload,
    {
        self.payload.as_str()
    }

    /// The stored fingerprint of the block before this one.
    pub fn back_reference(&self) -> (prevh: u64)
        ensures
            prevh == self@.back_reference,
    {
        self.back_reference
    }
}

} // verus!
