//! Text as a message: its UTF-8 encoding, and nothing else.

use vstd::prelude::*;
use vstd::utf8::{
    decode_utf8, decode_utf8_encode_utf8, encode_utf8, encode_utf8_decode_utf8,
    encode_utf8_valid_utf8, valid_utf8,
};
use crate::error::SdkError;
use crate::text::string_from_utf8;
use crate::wire::bytes::copy_of;
use crate::wire::message::{malformed_message, Message};

verus! {

impl Message for String {
    type Model = Seq<char>;

    open spec fn model(&self) -> Seq<char> {
        self@
    }

    open spec fn wire(m: Seq<char>) -> Seq<u8> {
        encode_utf8(m)
    }

    open spec fn parse(frame: Seq<u8>) -> Option<Seq<char>> {
        if valid_utf8(frame) {
            Some(decode_utf8(frame))
        } else {
            None
        }
    }

    open spec fn sealed(m: Seq<char>) -> Seq<char> {
        m
    }

    proof fn lemma_parse_wire(m: Seq<char>) {
        encode_utf8_valid_utf8(m);
        encode_utf8_decode_utf8(m);
    }

    proof fn lemma_wire_parse(frame: Seq<u8>) {
        decode_utf8_encode_utf8(frame);
    }

    proof fn lemma_sealed_twice(m: Seq<char>) {
    }

    fn encode(&self) -> (r: Vec<u8>) {
        self.as_str().as_bytes_vec()
    }

    fn encode_sealed(&self) -> (r: Vec<u8>) {
        self.as_str().as_bytes_vec()
    }

    fn decode(frame: &[u8]) -> (r: Result<Self, SdkError>) {
        let bytes: Vec<u8> = copy_of(frame, 0, frame.len());
        assert(bytes@ =~= frame@);
        match string_from_utf8(bytes) {
            Some(text) => {
                proof {
                    encode_utf8_decode_utf8(text@);
                }
                Ok(text)
            },
            None => Err(malformed_message()),
        }
    }

    fn is_intact(&self) -> (r: bool) {
        true
    }
}

} // verus!
