//! Single-precision numbers as they travel.

use vstd::prelude::*;
use crate::wire::Layout;

verus! {

/// An IEEE 754 single-precision number, held as its 32 bits.
///
/// The library never computes with such a number; it only carries it. Two
/// values are equal when their bits are, so a NaN survives a round trip and
/// the two zeros stay apart.
#[derive(Clone, Copy, Debug, PartialEq, Eq, Hash)]
pub struct Float32 {
    /// The sign, exponent and fraction bits, as `to_bits` gives them.
    pub bits: u32,
}

impl Float32 {
    /// The number with the given bits.
    pub fn from_bits(bits: u32) -> (r: Self)
        ensures
            r.bits == bits,
    {
        Float32 { bits }
    }

    /// The bits of the number.
    pub fn to_bits(&self) -> (r: u32)
        ensures
            r == self.bits,
    {
        self.bits
    }
}

impl Default for Float32 {
    /// Positive zero.
    fn default() -> (r: Self)
        ensures
            r.bits == 0,
    {
        Float32 { bits: 0 }
    }
}

impl Layout for Float32 {
    open spec fn size() -> nat {
        4
    }

    open spec fn layout(&self) -> Seq<u8> {
        self.bits.layout()
    }

    open spec fn read(bytes: Seq<u8>) -> Self {
        Float32 { bits: u32::read(bytes) }
    }

    proof fn lemma_layout_len(&self) {
    }

    proof fn lemma_read_layout(&self) {
        self.bits.lemma_read_layout();
    }

    proof fn lemma_layout_read(bytes: Seq<u8>) {
        u32::lemma_layout_read(bytes);
    }

    proof fn lemma_sealed_twice(&self) {
    }

    fn zeroed() -> (r: Self) {
        Float32 { bits: u32::zeroed() }
    }

    fn put(&self, out: &mut Vec<u8>) {
        self.bits.put(out);
    }

    fn take(bytes: &[u8], pos: &mut usize) -> (r: Option<Self>) {
        match u32::take(bytes, pos) {
            None => None,
            Some(bits) => Some(Float32 { bits }),
        }
    }

    fn seal(&self) -> (r: Self) {
        *self
    }

    fn is_sealed(&self) -> (r: bool) {
        true
    }
}

} // verus!
