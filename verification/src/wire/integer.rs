//! Layout of the integer types: little-endian, two's complement.

use vstd::prelude::*;
use crate::wire::{field, Layout};

verus! {

/// The unsigned 16-bit number with the bits of `x`.
pub open spec fn unsigned16(x: i16) -> u16 {
    if x >= 0 {
        x as u16
    } else {
        (x + 0x1_0000) as u16
    }
}

/// The signed 16-bit number with the bits of `x`.
pub open spec fn signed16(x: u16) -> i16 {
    if x < 0x8000 {
        x as i16
    } else {
        (x - 0x1_0000) as i16
    }
}

/// The unsigned 32-bit number with the bits of `x`.
pub open spec fn unsigned32(x: i32) -> u32 {
    if x >= 0 {
        x as u32
    } else {
        (x + 0x1_0000_0000) as u32
    }
}

/// The signed 32-bit number with the bits of `x`.
pub open spec fn signed32(x: u32) -> i32 {
    if x < 0x8000_0000 {
        x as i32
    } else {
        (x - 0x1_0000_0000) as i32
    }
}

impl Layout for u8 {
    open spec fn size() -> nat {
        1
    }

    open spec fn layout(&self) -> Seq<u8> {
        seq![*self]
    }

    open spec fn read(bytes: Seq<u8>) -> Self {
        bytes[0]
    }

    proof fn lemma_layout_len(&self) {
    }

    proof fn lemma_read_layout(&self) {
    }

    proof fn lemma_layout_read(bytes: Seq<u8>) {
        assert(Self::read(bytes).layout() =~= bytes);
    }

    proof fn lemma_sealed_twice(&self) {
    }

    fn zeroed() -> (r: Self) {
        assert(seq![0u8] =~= crate::wire::zeros(1));
        0
    }

    fn put(&self, out: &mut Vec<u8>) {
        out.push(*self);
    }

    fn take(bytes: &[u8], pos: &mut usize) -> (r: Option<Self>) {
        let at: usize = *pos;
        if at >= bytes.len() {
            return None;
        }
        *pos = at + 1;
        Some(bytes[at])
    }

    fn seal(&self) -> (r: Self) {
        *self
    }

    fn is_sealed(&self) -> (r: bool) {
        true
    }
}

impl Layout for u16 {
    open spec fn size() -> nat {
        2
    }

    open spec fn layout(&self) -> Seq<u8> {
        seq![(*self % 256) as u8, (*self / 256) as u8]
    }

    open spec fn read(bytes: Seq<u8>) -> Self {
        (bytes[0] + 256 * bytes[1]) as u16
    }

    proof fn lemma_layout_len(&self) {
    }

    proof fn lemma_read_layout(&self) {
    }

    proof fn lemma_layout_read(bytes: Seq<u8>) {
        assert(Self::read(bytes).layout() =~= bytes);
    }

    proof fn lemma_sealed_twice(&self) {
    }

    fn zeroed() -> (r: Self) {
        assert(0u16.layout() =~= crate::wire::zeros(2));
        0
    }

    fn put(&self, out: &mut Vec<u8>) {
        let x: u16 = *self;
        out.push((x % 256) as u8);
        out.push((x / 256) as u8);
        assert(out@ =~= old(out)@ + self.layout());
    }

    fn take(bytes: &[u8], pos: &mut usize) -> (r: Option<Self>) {
        let at: usize = *pos;
        if at > bytes.len() || bytes.len() - at < 2 {
            return None;
        }
        let b0: u16 = bytes[at] as u16;
        let b1: u16 = bytes[at + 1] as u16;
        *pos = at + 2;
        Some(b0 + 256 * b1)
    }

    fn seal(&self) -> (r: Self) {
        *self
    }

    fn is_sealed(&self) -> (r: bool) {
        true
    }
}

impl Layout for u32 {
    open spec fn size() -> nat {
        4
    }

    open spec fn layout(&self) -> Seq<u8> {
        seq![
            (*self % 256) as u8,
            (*self / 0x100 % 256) as u8,
            (*self / 0x1_0000 % 256) as u8,
            (*self / 0x100_0000) as u8,
        ]
    }

    open spec fn read(bytes: Seq<u8>) -> Self {
        (bytes[0] + 0x100 * bytes[1] + 0x1_0000 * bytes[2] + 0x100_0000 * bytes[3]) as u32
    }

    proof fn lemma_layout_len(&self) {
    }

    proof fn lemma_read_layout(&self) {
    }

    proof fn lemma_layout_read(bytes: Seq<u8>) {
        let x = Self::read(bytes);
        let high = bytes[2] + 0x100 * bytes[3];
        let upper = bytes[1] + 0x100 * high;
        assert(x == bytes[0] + 0x100 * upper);
        assert(x % 256 == bytes[0] && x / 0x100 == upper);
        assert(upper % 256 == bytes[1] && upper / 0x100 == high);
        assert(high % 256 == bytes[2] && high / 0x100 == bytes[3]);
        assert(x / 0x1_0000 == high);
        assert(x / 0x100_0000 == bytes[3]);
        assert(Self::read(bytes).layout() =~= bytes);
    }

    proof fn lemma_sealed_twice(&self) {
    }

    fn zeroed() -> (r: Self) {
        assert(0u32.layout() =~= crate::wire::zeros(4));
        0
    }

    fn put(&self, out: &mut Vec<u8>) {
        let x: u32 = *self;
        out.push((x % 256) as u8);
        out.push((x / 0x100 % 256) as u8);
        out.push((x / 0x1_0000 % 256) as u8);
        out.push((x / 0x100_0000) as u8);
        assert(out@ =~= old(out)@ + self.layout());
    }

    fn take(bytes: &[u8], pos: &mut usize) -> (r: Option<Self>) {
        let at: usize = *pos;
        if at > bytes.len() || bytes.len() - at < 4 {
            return None;
        }
        let b0: u32 = bytes[at] as u32;
        let b1: u32 = bytes[at + 1] as u32;
        let b2: u32 = bytes[at + 2] as u32;
        let b3: u32 = bytes[at + 3] as u32;
        *pos = at + 4;
        Some(b0 + 0x100 * b1 + 0x1_0000 * b2 + 0x100_0000 * b3)
    }

    fn seal(&self) -> (r: Self) {
        *self
    }

    fn is_sealed(&self) -> (r: bool) {
        true
    }
}

/// The two halves of a 64-bit number determine it.
proof fn lemma_halves(lo: u32, hi: u32)
    ensures
        lo + 0x1_0000_0000 * hi <= u64::MAX,
        (lo + 0x1_0000_0000 * hi) % 0x1_0000_0000 == lo,
        (lo + 0x1_0000_0000 * hi) / 0x1_0000_0000 == hi,
{
}

impl Layout for u64 {
    open spec fn size() -> nat {
        8
    }

    open spec fn layout(&self) -> Seq<u8> {
        ((*self % 0x1_0000_0000) as u32).layout() + ((*self / 0x1_0000_0000) as u32).layout()
    }

    open spec fn read(bytes: Seq<u8>) -> Self {
        (u32::read(bytes.subrange(0, 4)) + 0x1_0000_0000 * u32::read(bytes.subrange(4, 8))) as u64
    }

    proof fn lemma_layout_len(&self) {
    }

    proof fn lemma_read_layout(&self) {
        let lo = (*self % 0x1_0000_0000) as u32;
        let hi = (*self / 0x1_0000_0000) as u32;
        assert(self.layout().subrange(0, 4) =~= lo.layout());
        assert(self.layout().subrange(4, 8) =~= hi.layout());
        lo.lemma_read_layout();
        hi.lemma_read_layout();
    }

    proof fn lemma_layout_read(bytes: Seq<u8>) {
        let lo = u32::read(bytes.subrange(0, 4));
        let hi = u32::read(bytes.subrange(4, 8));
        lemma_halves(lo, hi);
        u32::lemma_layout_read(bytes.subrange(0, 4));
        u32::lemma_layout_read(bytes.subrange(4, 8));
        assert(bytes.subrange(0, 4) + bytes.subrange(4, 8) =~= bytes);
    }

    proof fn lemma_sealed_twice(&self) {
    }

    fn zeroed() -> (r: Self) {
        assert(0u64.layout() =~= crate::wire::zeros(8));
        0
    }

    fn put(&self, out: &mut Vec<u8>) {
        let x: u64 = *self;
        let lo: u32 = (x % 0x1_0000_0000) as u32;
        let hi: u32 = (x / 0x1_0000_0000) as u32;
        lo.put(out);
        hi.put(out);
        assert(out@ =~= old(out)@ + self.layout());
    }

    fn take(bytes: &[u8], pos: &mut usize) -> (r: Option<Self>) {
        let at: usize = *pos;
        if at > bytes.len() || bytes.len() - at < 8 {
            return None;
        }
        let mut p: usize = at;
        let lo: u32 = u32::take(bytes, &mut p).unwrap();
        let hi: u32 = u32::take(bytes, &mut p).unwrap();
        let ghost whole = field(bytes@, at as int, 8);
        assert(whole.subrange(0, 4) =~= field(bytes@, at as int, 4));
        assert(whole.subrange(4, 8) =~= field(bytes@, at + 4, 4));
        *pos = p;
        Some(lo as u64 + 0x1_0000_0000 * (hi as u64))
    }

    fn seal(&self) -> (r: Self) {
        *self
    }

    fn is_sealed(&self) -> (r: bool) {
        true
    }
}

impl Layout for i16 {
    open spec fn size() -> nat {
        2
    }

    open spec fn layout(&self) -> Seq<u8> {
        unsigned16(*self).layout()
    }

    open spec fn read(bytes: Seq<u8>) -> Self {
        signed16(u16::read(bytes))
    }

    proof fn lemma_layout_len(&self) {
    }

    proof fn lemma_read_layout(&self) {
        unsigned16(*self).lemma_read_layout();
    }

    proof fn lemma_layout_read(bytes: Seq<u8>) {
        u16::lemma_layout_read(bytes);
    }

    proof fn lemma_sealed_twice(&self) {
    }

    fn zeroed() -> (r: Self) {
        assert(0i16.layout() =~= crate::wire::zeros(2));
        0
    }

    fn put(&self, out: &mut Vec<u8>) {
        let x: i16 = *self;
        let u: u16 = if x >= 0 {
            x as u16
        } else {
            (x as i32 + 0x1_0000) as u16
        };
        u.put(out);
    }

    fn take(bytes: &[u8], pos: &mut usize) -> (r: Option<Self>) {
        match u16::take(bytes, pos) {
            None => None,
            Some(u) => if u < 0x8000 {
                Some(u as i16)
            } else {
                Some((u as i32 - 0x1_0000) as i16)
            },
        }
    }

    fn seal(&self) -> (r: Self) {
        *self
    }

    fn is_sealed(&self) -> (r: bool) {
        true
    }
}

impl Layout for i32 {
    open spec fn size() -> nat {
        4
    }

    open spec fn layout(&self) -> Seq<u8> {
        unsigned32(*self).layout()
    }

    open spec fn read(bytes: Seq<u8>) -> Self {
        signed32(u32::read(bytes))
    }

    proof fn lemma_layout_len(&self) {
    }

    proof fn lemma_read_layout(&self) {
        unsigned32(*self).lemma_read_layout();
    }

    proof fn lemma_layout_read(bytes: Seq<u8>) {
        u32::lemma_layout_read(bytes);
    }

    proof fn lemma_sealed_twice(&self) {
    }

    fn zeroed() -> (r: Self) {
        assert(0i32.layout() =~= crate::wire::zeros(4));
        0
    }

    fn put(&self, out: &mut Vec<u8>) {
        let x: i32 = *self;
        let u: u32 = if x >= 0 {
            x as u32
        } else {
            (x as i64 + 0x1_0000_0000) as u32
        };
        u.put(out);
    }

    fn take(bytes: &[u8], pos: &mut usize) -> (r: Option<Self>) {
        match u32::take(bytes, pos) {
            None => None,
            Some(u) => if u < 0x8000_0000 {
                Some(u as i32)
            } else {
                Some((u as i64 - 0x1_0000_0000) as i32)
            },
        }
    }

    fn seal(&self) -> (r: Self) {
        *self
    }

    fn is_sealed(&self) -> (r: bool) {
        true
    }
}

} // verus!
