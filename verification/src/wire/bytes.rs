//! Runs of bytes, and frames that end in a checksum.

use vstd::prelude::*;
use crate::wire::crc::{checksum_of_prefix, crc32};
use crate::wire::{field, Layout};

verus! {

/// Appends `bytes` to `out`.
pub fn put_bytes(out: &mut Vec<u8>, bytes: &[u8])
    ensures
        final(out)@ == old(out)@ + bytes@,
{
    let mut i: usize = 0;
    while i < bytes.len()
        invariant
            i <= bytes.len(),
            out@ == old(out)@ + bytes@.subrange(0, i as int),
        decreases bytes.len() - i,
    {
        out.push(bytes[i]);
        i += 1;
        assert(out@ =~= old(out)@ + bytes@.subrange(0, i as int));
    }
    assert(bytes@.subrange(0, bytes@.len() as int) =~= bytes@);
}

/// The bytes of `bytes` from offset `from` up to offset `to`.
pub fn copy_of(bytes: &[u8], from: usize, to: usize) -> (r: Vec<u8>)
    requires
        from <= to <= bytes.len(),
    ensures
        r@ == bytes@.subrange(from as int, to as int),
{
    let mut r: Vec<u8> = Vec::new();
    let mut i: usize = from;
    while i < to
        invariant
            from <= i <= to <= bytes.len(),
            r@ == bytes@.subrange(from as int, i as int),
        decreases to - i,
    {
        r.push(bytes[i]);
        i += 1;
        assert(r@ =~= bytes@.subrange(from as int, i as int));
    }
    r
}

/// `body` followed by its checksum.
pub open spec fn closed(body: Seq<u8>) -> Seq<u8> {
    body + crc32(body).layout()
}

/// What stands before the checksum of `frame`, where `frame` ends in the
/// checksum of what stands before it.
pub open spec fn opened(frame: Seq<u8>) -> Option<Seq<u8>> {
    if frame.len() >= 4 && u32::read(field(frame, frame.len() - 4, 4)) == crc32(
        frame.subrange(0, frame.len() - 4),
    ) {
        Some(frame.subrange(0, frame.len() - 4))
    } else {
        None
    }
}

/// A closed body opens to itself.
pub proof fn lemma_opened_closed(body: Seq<u8>)
    ensures
        opened(closed(body)) == Some(body),
{
    let frame = closed(body);
    let sum = crc32(body);
    sum.lemma_layout_len();
    sum.lemma_read_layout();
    assert(field(frame, frame.len() - 4, 4) =~= sum.layout());
    assert(frame.subrange(0, frame.len() - 4) =~= body);
}

/// A frame that opens is what closing its body gives.
pub proof fn lemma_closed_opened(frame: Seq<u8>)
    requires
        opened(frame) is Some,
    ensures
        closed(opened(frame).unwrap()) == frame,
{
    let body = frame.subrange(0, frame.len() - 4);
    let tail = field(frame, frame.len() - 4, 4);
    u32::lemma_layout_read(tail);
    assert(body + tail =~= frame);
}

/// Appends the checksum of `out` to it.
pub fn close(out: &mut Vec<u8>)
    ensures
        final(out)@ == closed(old(out)@),
{
    assert(out@.subrange(0, out@.len() as int) =~= out@);
    let sum: u32 = checksum_of_prefix(out.as_slice(), out.len());
    sum.put(out);
}

/// The number of bytes that stand before the checksum of `frame`, where
/// `frame` ends in the checksum of what stands before it.
pub fn open(frame: &[u8]) -> (r: Option<usize>)
    ensures
        match r {
            Some(len) => opened(frame@) == Some(frame@.subrange(0, len as int)) && len + 4
                == frame.len(),
            None => opened(frame@) is None,
        },
{
    if frame.len() < 4 {
        return None;
    }
    let len: usize = frame.len() - 4;
    let mut pos: usize = len;
    let stored: u32 = u32::take(frame, &mut pos).unwrap();
    let sum: u32 = checksum_of_prefix(frame, len);
    if stored == sum {
        Some(len)
    } else {
        None
    }
}

} // verus!
