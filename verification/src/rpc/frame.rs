//! The two frames of a call.
//!
//! Both frames are little-endian and end in the checksum of all the bytes
//! before it. A request is the sequence number (8 bytes), the number of the
//! method (4 bytes) and the parameter; a response is the sequence number
//! (8 bytes), the result code (4 bytes) and the result data. Parameter and
//! data take what room the frame leaves.

use vstd::prelude::*;
use crate::error::SdkError;
use crate::wire::bytes::{
    close, closed, copy_of, lemma_closed_opened, lemma_opened_closed, open, opened, put_bytes,
};
use crate::wire::message::{malformed_message, Message};
use crate::wire::{field, Layout};

verus! {

/// The call of one method of a service.
#[derive(Debug, PartialEq, Eq)]
pub struct Request {
    /// The number of the method.
    pub api_id: i32,
    /// The number that the reply will carry.
    pub sequence_id: u64,
    /// The arguments of the call, encoded as the method asks.
    pub parameter: Vec<u8>,
}

/// A request, as the contracts speak of it.
#[verifier::ext_equal]
pub struct RequestModel {
    /// The number of the method.
    pub api_id: i32,
    /// The number that the reply will carry.
    pub sequence_id: u64,
    /// The arguments of the call.
    pub parameter: Seq<u8>,
}

/// The reply to one call.
#[derive(Debug, PartialEq, Eq)]
pub struct Response {
    /// The number of the request that this answers.
    pub sequence_id: u64,
    /// Zero for success, or the code with which the service refused.
    pub code: i32,
    /// The result of the call, encoded as the method says.
    pub data: Vec<u8>,
}

/// A response, as the contracts speak of it.
#[verifier::ext_equal]
pub struct ResponseModel {
    /// The number of the request that this answers.
    pub sequence_id: u64,
    /// Zero for success, or the code with which the service refused.
    pub code: i32,
    /// The result of the call.
    pub data: Seq<u8>,
}

/// The body of a frame of either kind: a sequence number, a 32-bit number
/// and the rest.
pub open spec fn body_of(sequence_id: u64, number: i32, rest: Seq<u8>) -> Seq<u8> {
    sequence_id.layout() + number.layout() + rest
}

proof fn lemma_body_parts(sequence_id: u64, number: i32, rest: Seq<u8>)
    ensures
        body_of(sequence_id, number, rest).len() == 12 + rest.len(),
        u64::read(field(body_of(sequence_id, number, rest), 0, 8)) == sequence_id,
        i32::read(field(body_of(sequence_id, number, rest), 8, 4)) == number,
        body_of(sequence_id, number, rest).subrange(12, 12 + rest.len() as int) == rest,
{
    let body = body_of(sequence_id, number, rest);
    sequence_id.lemma_layout_len();
    number.lemma_layout_len();
    assert(field(body, 0, 8) =~= sequence_id.layout());
    assert(field(body, 8, 4) =~= number.layout());
    assert(body.subrange(12, 12 + rest.len() as int) =~= rest);
    sequence_id.lemma_read_layout();
    number.lemma_read_layout();
}

proof fn lemma_body_whole(body: Seq<u8>)
    requires
        body.len() >= 12,
    ensures
        body_of(
            u64::read(field(body, 0, 8)),
            i32::read(field(body, 8, 4)),
            body.subrange(12, body.len() as int),
        ) == body,
{
    u64::lemma_layout_read(field(body, 0, 8));
    i32::lemma_layout_read(field(body, 8, 4));
    assert(field(body, 0, 8) + field(body, 8, 4) + body.subrange(12, body.len() as int) =~= body);
}

/// Builds the frame of a body.
fn encode_frame(sequence_id: u64, number: i32, rest: &[u8]) -> (r: Vec<u8>)
    ensures
        r@ == closed(body_of(sequence_id, number, rest@)),
{
    let mut r: Vec<u8> = Vec::new();
    sequence_id.put(&mut r);
    number.put(&mut r);
    put_bytes(&mut r, rest);
    assert(r@ =~= body_of(sequence_id, number, rest@));
    close(&mut r);
    r
}

/// Takes a frame apart: the sequence number, the 32-bit number and the rest,
/// or `None` where the checksum is wrong or the frame too short.
fn decode_frame(frame: &[u8]) -> (r: Option<(u64, i32, Vec<u8>)>)
    ensures
        match r {
            Some((sequence_id, number, rest)) => {
                &&& opened(frame@) matches Some(body)
                &&& body.len() >= 12
                &&& sequence_id == u64::read(field(body, 0, 8))
                &&& number == i32::read(field(body, 8, 4))
                &&& rest@ == body.subrange(12, body.len() as int)
            },
            None => !(opened(frame@) matches Some(body) && body.len() >= 12),
        },
{
    let len: usize = match open(frame) {
        Some(len) => len,
        None => {
            return None;
        },
    };
    if len < 12 {
        return None;
    }
    let ghost body = frame@.subrange(0, len as int);
    let mut pos: usize = 0;
    let sequence_id: u64 = u64::take(frame, &mut pos).unwrap();
    let number: i32 = i32::take(frame, &mut pos).unwrap();
    let rest: Vec<u8> = copy_of(frame, 12, len);
    proof {
        assert(field(body, 0, 8) =~= field(frame@, 0, 8));
        assert(field(body, 8, 4) =~= field(frame@, 8, 4));
        assert(body.subrange(12, body.len() as int) =~= frame@.subrange(12, len as int));
    }
    Some((sequence_id, number, rest))
}

impl View for Request {
    type V = RequestModel;

    open spec fn view(&self) -> RequestModel {
        RequestModel {
            api_id: self.api_id,
            sequence_id: self.sequence_id,
            parameter: self.parameter@,
        }
    }
}

impl View for Response {
    type V = ResponseModel;

    open spec fn view(&self) -> ResponseModel {
        ResponseModel { sequence_id: self.sequence_id, code: self.code, data: self.data@ }
    }
}

impl Message for Request {
    type Model = RequestModel;

    open spec fn model(&self) -> RequestModel {
        self@
    }

    open spec fn wire(m: RequestModel) -> Seq<u8> {
        closed(body_of(m.sequence_id, m.api_id, m.parameter))
    }

    open spec fn parse(frame: Seq<u8>) -> Option<RequestModel> {
        match opened(frame) {
            Some(body) => if body.len() >= 12 {
                Some(
                    RequestModel {
                        api_id: i32::read(field(body, 8, 4)),
                        sequence_id: u64::read(field(body, 0, 8)),
                        parameter: body.subrange(12, body.len() as int),
                    },
                )
            } else {
                None
            },
            None => None,
        }
    }

    open spec fn sealed(m: RequestModel) -> RequestModel {
        m
    }

    proof fn lemma_parse_wire(m: RequestModel) {
        lemma_opened_closed(body_of(m.sequence_id, m.api_id, m.parameter));
        lemma_body_parts(m.sequence_id, m.api_id, m.parameter);
        assert(Self::parse(Self::wire(m)).unwrap() =~= m);
    }

    proof fn lemma_wire_parse(frame: Seq<u8>) {
        lemma_closed_opened(frame);
        lemma_body_whole(opened(frame).unwrap());
    }

    proof fn lemma_sealed_twice(m: RequestModel) {
    }

    fn encode(&self) -> (r: Vec<u8>) {
        encode_frame(self.sequence_id, self.api_id, self.parameter.as_slice())
    }

    fn encode_sealed(&self) -> (r: Vec<u8>) {
        self.encode()
    }

    fn decode(frame: &[u8]) -> (r: Result<Self, SdkError>) {
        match decode_frame(frame) {
            Some((sequence_id, api_id, parameter)) => {
                let r = Request { api_id, sequence_id, parameter };
                assert(Self::parse(frame@).unwrap() =~= r@);
                Ok(r)
            },
            None => Err(malformed_message()),
        }
    }

    fn is_intact(&self) -> (r: bool) {
        true
    }
}

impl Message for Response {
    type Model = ResponseModel;

    open spec fn model(&self) -> ResponseModel {
        self@
    }

    open spec fn wire(m: ResponseModel) -> Seq<u8> {
        closed(body_of(m.sequence_id, m.code, m.data))
    }

    open spec fn parse(frame: Seq<u8>) -> Option<ResponseModel> {
        match opened(frame) {
            Some(body) => if body.len() >= 12 {
                Some(
                    ResponseModel {
                        sequence_id: u64::read(field(body, 0, 8)),
                        code: i32::read(field(body, 8, 4)),
                        data: body.subrange(12, body.len() as int),
                    },
                )
            } else {
                None
            },
            None => None,
        }
    }

    open spec fn sealed(m: ResponseModel) -> ResponseModel {
        m
    }

    proof fn lemma_parse_wire(m: ResponseModel) {
        lemma_opened_closed(body_of(m.sequence_id, m.code, m.data));
        lemma_body_parts(m.sequence_id, m.code, m.data);
        assert(Self::parse(Self::wire(m)).unwrap() =~= m);
    }

    proof fn lemma_wire_parse(frame: Seq<u8>) {
        lemma_closed_opened(frame);
        lemma_body_whole(opened(frame).unwrap());
    }

    proof fn lemma_sealed_twice(m: ResponseModel) {
    }

    fn encode(&self) -> (r: Vec<u8>) {
        encode_frame(self.sequence_id, self.code, self.data.as_slice())
    }

    fn encode_sealed(&self) -> (r: Vec<u8>) {
        self.encode()
    }

    fn decode(frame: &[u8]) -> (r: Result<Self, SdkError>) {
        match decode_frame(frame) {
            Some((sequence_id, code, data)) => {
                let r = Response { sequence_id, code, data };
                assert(Self::parse(frame@).unwrap() =~= r@);
                Ok(r)
            },
            None => Err(malformed_message()),
        }
    }

    fn is_intact(&self) -> (r: bool) {
        true
    }
}

} // verus!
