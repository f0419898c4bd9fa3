//! Messages as whole frames.

use vstd::prelude::*;
use crate::error::SdkError;
use crate::wire::{field, Layout};

verus! {

/// The detail of the failure that `decode` reports.
pub open spec fn malformed() -> Seq<char> {
    "malformed message"@
}

/// The failure that `decode` reports.
pub fn malformed_message() -> (e: SdkError)
    ensures
        e is Serialization,
        e.detail() == malformed(),
{
    SdkError::Serialization(String::from_str("malformed message"))
}

/// A value that travels as one frame.
///
/// The contracts speak of a message through its model: the value itself for
/// a type of plain numbers, a view for a type that owns a buffer.
pub trait Message: Sized {
    /// What a message is, mathematically.
    type Model;

    /// The model of `self`.
    spec fn model(&self) -> Self::Model;

    /// The frame that carries `m`.
    spec fn wire(m: Self::Model) -> Seq<u8>;

    /// The message that `frame` carries, if it carries one.
    spec fn parse(frame: Seq<u8>) -> Option<Self::Model>;

    /// The message with its checksum field, if it has one, brought up to date.
    spec fn sealed(m: Self::Model) -> Self::Model;

    /// Decoding the frame of a message gives that message, whatever its
    /// fields hold.
    proof fn lemma_parse_wire(m: Self::Model)
        ensures
            Self::parse(Self::wire(m)) == Some(m),
    ;

    /// A frame that carries a message is the frame of that message: no two
    /// frames carry the same message.
    proof fn lemma_wire_parse(frame: Seq<u8>)
        requires
            Self::parse(frame) is Some,
        ensures
            Self::wire(Self::parse(frame).unwrap()) == frame,
    ;

    /// Sealing a sealed message changes nothing.
    proof fn lemma_sealed_twice(m: Self::Model)
        ensures
            Self::sealed(Self::sealed(m)) == Self::sealed(m),
    ;

    /// The frame of `self`, with the fields as they stand.
    fn encode(&self) -> (r: Vec<u8>)
        ensures
            r@ == Self::wire(self.model()),
    ;

    /// The frame of `self` with its checksum brought up to date.
    fn encode_sealed(&self) -> (r: Vec<u8>)
        ensures
            r@ == Self::wire(Self::sealed(self.model())),
    ;

    /// The message that `frame` carries.
    fn decode(frame: &[u8]) -> (r: Result<Self, SdkError>)
        ensures
            match r {
                Ok(m) => Self::parse(frame@) == Some(m.model()),
                Err(e) => Self::parse(frame@) is None && e is Serialization && e.detail()
                    == malformed(),
            },
    ;

    /// Whether the checksum of `self`, if it has one, is up to date.
    fn is_intact(&self) -> (r: bool)
        ensures
            r == (Self::sealed(self.model()) == self.model()),
    ;
}

impl<T: Layout> Message for T {
    type Model = T;

    open spec fn model(&self) -> T {
        *self
    }

    open spec fn wire(m: T) -> Seq<u8> {
        m.layout()
    }

    open spec fn parse(frame: Seq<u8>) -> Option<T> {
        if frame.len() == T::size() {
            Some(T::read(frame))
        } else {
            None
        }
    }

    open spec fn sealed(m: T) -> T {
        Layout::sealed(&m)
    }

    proof fn lemma_parse_wire(m: T) {
        m.lemma_layout_len();
        m.lemma_read_layout();
    }

    proof fn lemma_wire_parse(frame: Seq<u8>) {
        T::lemma_layout_read(frame);
    }

    proof fn lemma_sealed_twice(m: T) {
        Layout::lemma_sealed_twice(&m);
    }

    fn encode(&self) -> (r: Vec<u8>) {
        let mut r: Vec<u8> = Vec::new();
        self.put(&mut r);
        assert(r@ =~= self.layout());
        r
    }

    fn encode_sealed(&self) -> (r: Vec<u8>) {
        let mut r: Vec<u8> = Vec::new();
        self.seal().put(&mut r);
        assert(r@ =~= Layout::sealed(self).layout());
        r
    }

    fn decode(frame: &[u8]) -> (r: Result<Self, SdkError>) {
        let mut pos: usize = 0;
        match T::take(frame, &mut pos) {
            Some(m) => {
                if pos == frame.len() {
                    assert(field(frame@, 0, T::size()) =~= frame@);
                    Ok(m)
                } else {
                    Err(malformed_message())
                }
            },
            None => Err(malformed_message()),
        }
    }

    fn is_intact(&self) -> (r: bool) {
        self.is_sealed()
    }
}

} // verus!
