//! The list of services, as the robot state service writes it.
//!
//! The list is a JSON array with one object for each service. The object
//! holds the three members `name`, `status` and `protect`, in this order: a
//! string without escapes and two whole numbers.
//!
//! ```text
//! [{"name":"sport_mode","status":1,"protect":0}]
//! ```

use vstd::prelude::*;
use crate::error::SdkError;
use crate::json::read::{
    brace_close, brace_open, colon, ends_at, number_value, read_number, read_string, skip_spaces,
    skip_token, string_text, then_key, then_number, then_string, then_token, token_end, unexpected,
    unexpected_result,
};
use crate::robot::go2::robot_state::robot_state_client::{ServiceModel, ServiceState};

verus! {

/// The bytes of `[`.
pub open spec fn bracket_open() -> Seq<u8> {
    seq![0x5Bu8]
}

/// The bytes of `]`.
pub open spec fn bracket_close() -> Seq<u8> {
    seq![0x5Du8]
}

/// The bytes of `,`.
pub open spec fn comma() -> Seq<u8> {
    seq![0x2Cu8]
}

/// The bytes of `"name"`.
pub open spec fn key_name() -> Seq<u8> {
    seq![0x22u8, 0x6Eu8, 0x61u8, 0x6Du8, 0x65u8, 0x22u8]
}

/// The bytes of `"status"`.
pub open spec fn key_status() -> Seq<u8> {
    seq![0x22u8, 0x73u8, 0x74u8, 0x61u8, 0x74u8, 0x75u8, 0x73u8, 0x22u8]
}

/// The bytes of `"protect"`.
pub open spec fn key_protect() -> Seq<u8> {
    seq![0x22u8, 0x70u8, 0x72u8, 0x6Fu8, 0x74u8, 0x65u8, 0x63u8, 0x74u8, 0x22u8]
}

/// The service whose object stands at index `i` of `s`, and the index
/// behind that object.
pub open spec fn service_at(s: Seq<u8>, i: int) -> Option<(ServiceModel, int)> {
    let name_at = then_key(s, token_end(s, i, brace_open()), key_name());
    let name_end = then_string(s, name_at);
    let status_at = then_key(s, then_token(s, name_end, comma()), key_status());
    let status_end = then_number(s, status_at);
    let protect_at = then_key(s, then_token(s, status_end, comma()), key_protect());
    let protect_end = then_number(s, protect_at);
    match then_token(s, protect_end, brace_close()) {
        Some(end) => Some(
            (
                ServiceModel {
                    name: string_text(s, name_at.unwrap()),
                    status: number_value(s, status_at.unwrap()) as i32,
                    protect: number_value(s, protect_at.unwrap()) as i32,
                },
                end,
            ),
        ),
        None => None,
    }
}

/// The services of the list whose next object stands at index `i` of `s`,
/// behind the services `found` that stand before it.
pub open spec fn services_from(s: Seq<u8>, i: int, found: Seq<ServiceModel>) -> Option<
    Seq<ServiceModel>,
>
    decreases s.len() - i,
{
    match service_at(s, i) {
        Some((service, end)) => match token_end(s, end, comma()) {
            Some(next) => if i < next {
                services_from(s, next, found.push(service))
            } else {
                None
            },
            None => match token_end(s, end, bracket_close()) {
                Some(last) => if ends_at(s, last) {
                    Some(found.push(service))
                } else {
                    None
                },
                None => None,
            },
        },
        None => None,
    }
}

/// The services that `payload` lists, in the order of the list.
pub open spec fn services_of(payload: Seq<u8>) -> Option<Seq<ServiceModel>> {
    match token_end(payload, 0, bracket_open()) {
        Some(first) => match token_end(payload, first, bracket_close()) {
            Some(last) => if ends_at(payload, last) {
                Some(Seq::empty())
            } else {
                None
            },
            None => services_from(payload, first, Seq::empty()),
        },
        None => None,
    }
}

/// The services of `list`, as the contracts speak of them.
pub open spec fn models(list: Seq<ServiceState>) -> Seq<ServiceModel> {
    Seq::new(list.len(), |k: int| list[k]@)
}

/// The index behind the key `key` and the colon after it.
fn skip_key(s: &[u8], i: usize, key: &[u8]) -> (r: Option<usize>)
    ensures
        r is Some <==> then_key(s@, Some(i as int), key@) is Some,
        r matches Some(end) ==> end == then_key(s@, Some(i as int), key@).unwrap() && i <= end
            <= s.len(),
{
    let colon: [u8; 1] = [0x3A];
    assert(colon@ =~= self::colon());
    match skip_token(s, i, key) {
        Some(j) => skip_token(s, j, colon.as_slice()),
        None => None,
    }
}

/// The service whose object stands at index `i` of `s`, and the index
/// behind that object.
fn read_service(s: &[u8], i: usize) -> (r: Option<(ServiceState, usize)>)
    ensures
        match r {
            Some((service, end)) => service_at(s@, i as int) == Some((service@, end as int)) && i
                < end <= s.len(),
            None => service_at(s@, i as int) is None,
        },
{
    let open: [u8; 1] = [0x7B];
    let close: [u8; 1] = [0x7D];
    let comma: [u8; 1] = [0x2C];
    let name_key: [u8; 6] = [0x22, 0x6E, 0x61, 0x6D, 0x65, 0x22];
    let status_key: [u8; 8] = [0x22, 0x73, 0x74, 0x61, 0x74, 0x75, 0x73, 0x22];
    let protect_key: [u8; 9] = [0x22, 0x70, 0x72, 0x6F, 0x74, 0x65, 0x63, 0x74, 0x22];
    proof {
        assert(open@ =~= brace_open());
        assert(close@ =~= brace_close());
        assert(comma@ =~= self::comma());
        assert(name_key@ =~= key_name());
        assert(status_key@ =~= key_status());
        assert(protect_key@ =~= key_protect());
    }
    let a: usize = match skip_token(s, i, open.as_slice()) {
        Some(a) => a,
        None => {
            return None;
        },
    };
    let name_at: usize = match skip_key(s, a, name_key.as_slice()) {
        Some(at) => at,
        None => {
            return None;
        },
    };
    let (name, name_end): (String, usize) = match read_string(s, name_at) {
        Some(found) => found,
        None => {
            return None;
        },
    };
    let b: usize = match skip_token(s, name_end, comma.as_slice()) {
        Some(b) => b,
        None => {
            return None;
        },
    };
    let status_at: usize = match skip_key(s, b, status_key.as_slice()) {
        Some(at) => at,
        None => {
            return None;
        },
    };
    let (status, status_end): (i32, usize) = match read_number(s, status_at) {
        Some(found) => found,
        None => {
            return None;
        },
    };
    let c: usize = match skip_token(s, status_end, comma.as_slice()) {
        Some(c) => c,
        None => {
            return None;
        },
    };
    let protect_at: usize = match skip_key(s, c, protect_key.as_slice()) {
        Some(at) => at,
        None => {
            return None;
        },
    };
    let (protect, protect_end): (i32, usize) = match read_number(s, protect_at) {
        Some(found) => found,
        None => {
            return None;
        },
    };
    let end: usize = match skip_token(s, protect_end, close.as_slice()) {
        Some(end) => end,
        None => {
            return None;
        },
    };
    let service = ServiceState { name, status, protect };
    assert(service_at(s@, i as int).unwrap().0 =~= service@);
    Some((service, end))
}

/// Reads the services that `payload` lists.
///
/// Fails with `Serialization` where `payload` is no list of services.
pub fn read_services(payload: &[u8]) -> (r: Result<Vec<ServiceState>, SdkError>)
    ensures
        match r {
            Ok(list) => services_of(payload@) == Some(models(list@)),
            Err(e) => services_of(payload@) is None && e is Serialization && e.detail()
                == unexpected(),
        },
{
    let open: [u8; 1] = [0x5B];
    let close: [u8; 1] = [0x5D];
    let comma: [u8; 1] = [0x2C];
    proof {
        assert(open@ =~= bracket_open());
        assert(close@ =~= bracket_close());
        assert(comma@ =~= self::comma());
    }
    let mut list: Vec<ServiceState> = Vec::new();
    let first: usize = match skip_token(payload, 0, open.as_slice()) {
        Some(first) => first,
        None => {
            return Err(unexpected_result());
        },
    };
    match skip_token(payload, first, close.as_slice()) {
        Some(last) => {
            if skip_spaces(payload, last) == payload.len() {
                assert(models(list@) =~= Seq::<ServiceModel>::empty());
                return Ok(list);
            } else {
                return Err(unexpected_result());
            }
        },
        None => {},
    }
    let mut i: usize = first;
    assert(models(list@) =~= Seq::<ServiceModel>::empty());
    loop
        invariant
            i <= payload.len(),
            comma@ == self::comma(),
            close@ == bracket_close(),
            services_of(payload@) == services_from(payload@, i as int, models(list@)),
        decreases payload.len() - i,
    {
        let (service, end): (ServiceState, usize) = match read_service(payload, i) {
            Some(found) => found,
            None => {
                return Err(unexpected_result());
            },
        };
        let ghost before = models(list@);
        let ghost model = service@;
        list.push(service);
        assert(models(list@) =~= before.push(model));
        match skip_token(payload, end, comma.as_slice()) {
            Some(next) => {
                i = next;
            },
            None => {
                match skip_token(payload, end, close.as_slice()) {
                    Some(last) => {
                        if skip_spaces(payload, last) == payload.len() {
                            return Ok(list);
                        } else {
                            return Err(unexpected_result());
                        }
                    },
                    None => {
                        return Err(unexpected_result());
                    },
                }
            },
        }
    }
}

} // verus!
