//! The binary layout of messages.
//!
//! Every value that travels between this library and a robot has a fixed,
//! packed, little-endian layout: the fields follow one another in declaration
//! order with no padding, integers are stored least significant byte first,
//! and an array is the layout of its elements in index order. [`Layout`]
//! states that layout for a type as two spec functions that are inverse to
//! each other, and provides the executable code that writes and reads it.

use vstd::prelude::*;

pub mod array;
pub mod bytes;
pub mod crc;
pub mod float;
pub mod integer;
pub mod message;
pub mod plain_text;

verus! {

/// A type with a fixed binary layout.
pub trait Layout: Sized + Copy {
    /// Number of bytes that a value occupies.
    spec fn size() -> nat;

    /// The bytes of a value.
    spec fn layout(&self) -> Seq<u8>;

    /// The value that `bytes` hold. Meaningful for `size()` bytes.
    spec fn read(bytes: Seq<u8>) -> Self;

    /// The value with its checksum field, if it has one, brought up to date.
    open spec fn sealed(&self) -> Self {
        *self
    }

    /// A layout has exactly `size()` bytes.
    proof fn lemma_layout_len(&self)
        ensures
            self.layout().len() == Self::size(),
    ;

    /// Reading back the layout of a value gives that value.
    proof fn lemma_read_layout(&self)
        ensures
            Self::read(self.layout()) == *self,
    ;

    /// Every string of `size()` bytes is the layout of the value read from it.
    proof fn lemma_layout_read(bytes: Seq<u8>)
        requires
            bytes.len() == Self::size(),
        ensures
            Self::read(bytes).layout() == bytes,
    ;

    /// Sealing a sealed value changes nothing.
    proof fn lemma_sealed_twice(&self)
        ensures
            self.sealed().sealed() == self.sealed(),
    ;

    /// The value whose layout is all zero bytes.
    fn zeroed() -> (r: Self)
        ensures
            r.layout() == zeros(Self::size()),
    ;

    /// Appends the layout of `self` to `out`.
    fn put(&self, out: &mut Vec<u8>)
        ensures
            final(out)@ == old(out)@ + self.layout(),
    ;

    /// Reads the value that starts at offset `pos` of `bytes` and moves `pos`
    /// behind it, or leaves `pos` alone where fewer than `size()` bytes follow.
    fn take(bytes: &[u8], pos: &mut usize) -> (r: Option<Self>)
        ensures
            r is Some <==> *old(pos) + Self::size() <= bytes.len(),
            r matches Some(v) ==> {
                &&& v == Self::read(field(bytes@, *old(pos) as int, Self::size()))
                &&& *final(pos) == *old(pos) + Self::size()
            },
            r is None ==> *final(pos) == *old(pos),
    ;

    /// The sealed form of `self`.
    fn seal(&self) -> (r: Self)
        ensures
            r == self.sealed(),
    ;

    /// Whether the checksum field of `self`, if it has one, is up to date.
    fn is_sealed(&self) -> (r: bool)
        ensures
            r == (self.sealed() == *self),
    ;
}

/// `n` zero bytes.
pub open spec fn zeros(n: nat) -> Seq<u8> {
    Seq::new(n, |i: int| 0u8)
}

/// The part of `bytes` that holds a field of `len` bytes at offset `at`.
pub open spec fn field(bytes: Seq<u8>, at: int, len: nat) -> Seq<u8> {
    bytes.subrange(at, at + len)
}

/// Two fields that follow one another make one field.
pub proof fn lemma_field_join(bytes: Seq<u8>, at: int, first: nat, second: nat)
    requires
        0 <= at,
        at + first + second <= bytes.len(),
    ensures
        field(bytes, at, first) + field(bytes, at + first, second) == field(
            bytes,
            at,
            first + second,
        ),
{
    assert(field(bytes, at, first) + field(bytes, at + first, second) =~= field(
        bytes,
        at,
        first + second,
    ));
}

/// The field that covers all of `bytes` is `bytes`.
pub proof fn lemma_field_whole(bytes: Seq<u8>)
    ensures
        field(bytes, 0, bytes.len()) == bytes,
{
    assert(field(bytes, 0, bytes.len()) =~= bytes);
}

/// What was joined comes apart again.
pub proof fn lemma_field_split(front: Seq<u8>, back: Seq<u8>)
    ensures
        field(front + back, 0, front.len()) == front,
        field(front + back, front.len() as int, back.len()) == back,
{
    assert(field(front + back, 0, front.len()) =~= front);
    assert(field(front + back, front.len() as int, back.len()) =~= back);
}

/// A field of a field is a field of the whole.
pub proof fn lemma_field_of_field(bytes: Seq<u8>, at: int, len: nat, inner: int, inner_len: nat)
    requires
        0 <= at,
        at + len <= bytes.len(),
        0 <= inner,
        inner + inner_len <= len,
    ensures
        field(field(bytes, at, len), inner, inner_len) == field(bytes, at + inner, inner_len),
{
    assert(field(field(bytes, at, len), inner, inner_len) =~= field(bytes, at + inner, inner_len));
}

/// Joining runs of bytes does not depend on the grouping.
pub proof fn lemma_join_grouping(first: Seq<u8>, second: Seq<u8>, third: Seq<u8>)
    ensures
        (first + second) + third == first + (second + third),
{
    assert((first + second) + third =~= first + (second + third));
}

/// Zero bytes joined to zero bytes are zero bytes.
pub proof fn lemma_zeros_join(first: nat, second: nat)
    ensures
        zeros(first) + zeros(second) == zeros(first + second),
{
    assert(zeros(first) + zeros(second) =~= zeros(first + second));
}

} // verus!
