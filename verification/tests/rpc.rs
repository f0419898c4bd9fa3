use unitree_sdk2_rust::channel::ChannelFactory;
use unitree_sdk2_rust::error::SdkError;
use unitree_sdk2_rust::rpc::client::DEFAULT_TIMEOUT;
use unitree_sdk2_rust::rpc::{CallStatus, Received, Request, Response, RpcClient};
use unitree_sdk2_rust::wire::message::Message;

fn reply(sequence_id: u64, code: i32, data: &[u8]) -> Vec<u8> {
    Response { sequence_id, code, data: data.to_vec() }.encode()
}

fn ready_client() -> RpcClient {
    let mut client = RpcClient::new("sport");
    client.init().unwrap();
    client
}

#[test]
fn request_frame_bytes() {
    let request = Request { api_id: 1004, sequence_id: 7, parameter: b"{}".to_vec() };
    let frame = request.encode();
    let mut body = vec![7u8, 0, 0, 0, 0, 0, 0, 0, 0xEC, 0x03, 0, 0, b'{', b'}'];
    let sum = unitree_sdk2_rust::wire::crc::checksum(&body);
    body.extend_from_slice(&sum.to_le_bytes());
    assert_eq!(frame, body);
    assert_eq!(request.encode_sealed(), body);
    assert_eq!(Request::decode(&frame), Ok(request));
}

#[test]
fn response_frame_bytes() {
    let response = Response { sequence_id: u64::MAX, code: -1, data: vec![1, 2, 3] };
    let frame = response.encode();
    assert_eq!(frame.len(), 8 + 4 + 3 + 4);
    assert_eq!(&frame[..8], &[0xFF; 8]);
    assert_eq!(&frame[8..12], &[0xFF; 4]);
    assert_eq!(&frame[12..15], &[1, 2, 3]);
    assert_eq!(Response::decode(&frame), Ok(response));
}

#[test]
fn frames_round_trip_with_any_payload() {
    for len in [0usize, 1, 2, 255, 256, 1000] {
        let data: Vec<u8> = (0..len).map(|i| (i * 31 + 7) as u8).collect();
        let request = Request { api_id: i32::MIN, sequence_id: 0, parameter: data.clone() };
        assert_eq!(Request::decode(&request.encode()), Ok(request));
        let response = Response { sequence_id: 1 << 40, code: i32::MAX, data };
        assert_eq!(Response::decode(&response.encode()), Ok(response));
    }
}

#[test]
fn damaged_frames_are_refused() {
    let malformed = || Err(SdkError::Serialization("malformed message".to_string()));
    let frame = reply(3, 0, b"{\"data\":true}");
    for at in 0..frame.len() {
        let mut damaged = frame.clone();
        damaged[at] ^= 0x40;
        assert_eq!(Response::decode(&damaged), malformed());
    }
    assert_eq!(Response::decode(&frame[..frame.len() - 1]), malformed());
    assert_eq!(Response::decode(&[]), malformed());
    // A checksum that is right over a body that is too short.
    let mut short = vec![1u8, 2, 3];
    unitree_sdk2_rust::wire::bytes::close(&mut short);
    assert_eq!(Response::decode(&short), malformed());
    assert_eq!(Request::decode(&short), Err(SdkError::Serialization("malformed message".to_string())));
}

#[test]
fn new_client_is_idle() {
    let mut client = RpcClient::new("sport");
    assert_eq!(client.get_timeout(), 10);
    assert_eq!(DEFAULT_TIMEOUT, 10);
    assert!(!client.is_running());
    assert_eq!(client.outstanding(), 0);
    assert_eq!(client.dropped_frames(), 0);
    assert!(client.take_outbox().is_empty());
}

#[test]
fn call_before_init_fails() {
    let mut client = RpcClient::new("sport");
    assert_eq!(client.call(1004, "{}", 0), Err(SdkError::NotInitialized));
    assert_eq!(client.outstanding(), 0);
    assert!(client.take_outbox().is_empty());
    assert_eq!(client.poll(0, 100), CallStatus::Unknown);
}

#[test]
fn call_after_close_fails() {
    let mut client = ready_client();
    client.close();
    assert!(!client.is_running());
    assert_eq!(client.call(1004, "{}", 0), Err(SdkError::NotInitialized));
    assert_eq!(client.init(), Ok(()));
    assert_eq!(client.call(1004, "{}", 0), Ok(0));
}

#[test]
fn client_init_twice_fails() {
    let mut client = ready_client();
    assert_eq!(client.call(1, "{}", 0), Ok(0));
    assert_eq!(
        client.init(),
        Err(SdkError::Init("Channel already initialized".to_string()))
    );
    assert!(client.is_running());
    assert_eq!(client.outstanding(), 1);
    assert_eq!(client.take_outbox().len(), 1);
}

#[test]
fn call_queues_one_request() {
    let mut client = ready_client();
    assert_eq!(client.call(1008, "{\"x\":0.5,\"y\":0,\"z\":0}", 100), Ok(0));
    assert_eq!(client.call(1003, "{}", 101), Ok(1));
    assert_eq!(client.outstanding(), 2);
    let frames = client.take_outbox();
    assert_eq!(frames.len(), 2);
    assert_eq!(
        Request::decode(&frames[0]),
        Ok(Request {
            api_id: 1008,
            sequence_id: 0,
            parameter: b"{\"x\":0.5,\"y\":0,\"z\":0}".to_vec()
        })
    );
    assert_eq!(
        Request::decode(&frames[1]),
        Ok(Request { api_id: 1003, sequence_id: 1, parameter: b"{}".to_vec() })
    );
    assert!(client.take_outbox().is_empty());
    assert_eq!(client.outstanding(), 2);
}

#[test]
fn call_times_out_without_a_reply() {
    let mut client = ready_client();
    let id = client.call(1004, "{}", 100).unwrap();
    assert_eq!(client.poll(id, 100), CallStatus::Pending);
    assert_eq!(client.poll(id, 109), CallStatus::Pending);
    assert_eq!(client.outstanding(), 1);
    assert_eq!(client.poll(id, 110), CallStatus::Finished(Err(SdkError::Timeout)));
    assert_eq!(client.outstanding(), 0);
    assert_eq!(client.poll(id, 110), CallStatus::Unknown);
}

#[test]
fn call_with_no_time_times_out_at_once() {
    let mut client = ready_client();
    client.set_timeout(0);
    assert_eq!(client.get_timeout(), 0);
    let id = client.call(1004, "{}", 5).unwrap();
    assert_eq!(client.poll(id, 5), CallStatus::Finished(Err(SdkError::Timeout)));
    assert_eq!(client.poll(id, 5), CallStatus::Unknown);
}

#[test]
fn replies_to_other_calls_do_not_stop_the_timeout() {
    let mut client = ready_client();
    client.set_timeout(3);
    let id = client.call(1004, "{}", 10).unwrap();
    assert_eq!(client.receive(&reply(id + 1, 0, b"other"), 11), Received::Stale);
    assert_eq!(client.receive(&reply(77, 0, b"other"), 12), Received::Stale);
    assert_eq!(client.receive(b"rubbish", 12), Received::Rejected);
    assert_eq!(client.dropped_frames(), 1);
    assert_eq!(client.poll(id, 12), CallStatus::Pending);
    assert_eq!(client.poll(id, 13), CallStatus::Finished(Err(SdkError::Timeout)));
}

#[test]
fn late_reply_is_stale() {
    let mut client = ready_client();
    client.set_timeout(3);
    let id = client.call(1004, "{}", 10).unwrap();
    assert_eq!(client.receive(&reply(id, 0, b"late"), 14), Received::Stale);
    assert_eq!(client.poll(id, 14), CallStatus::Finished(Err(SdkError::Timeout)));
    let id = client.call(1004, "{}", 20).unwrap();
    assert_eq!(client.receive(&reply(id, 0, b"just in time"), 23), Received::Answer(id));
    assert_eq!(client.poll(id, 99), CallStatus::Finished(Ok(b"just in time".to_vec())));
}

#[test]
fn deadline_stops_at_the_largest_time() {
    let mut client = ready_client();
    client.set_timeout(u64::MAX);
    let id = client.call(1004, "{}", 5).unwrap();
    assert_eq!(client.poll(id, u64::MAX - 1), CallStatus::Pending);
    assert_eq!(client.receive(&reply(id, 0, b"ok"), u64::MAX), Received::Answer(id));
    assert_eq!(client.poll(id, 0), CallStatus::Finished(Ok(b"ok".to_vec())));
}

#[test]
fn reply_is_given_once() {
    let mut client = ready_client();
    let id = client.call(2055, "{}", 0).unwrap();
    assert_eq!(client.receive(&reply(id, 0, b"{\"data\":true}"), 1), Received::Answer(id));
    assert_eq!(client.receive(&reply(id, 0, b"again"), 1), Received::Stale);
    assert_eq!(client.poll(id, 2), CallStatus::Finished(Ok(b"{\"data\":true}".to_vec())));
    assert_eq!(client.poll(id, 2), CallStatus::Unknown);
    assert_eq!(client.receive(&reply(id, 0, b"again"), 3), Received::Stale);
    assert_eq!(client.poll(id, 3), CallStatus::Unknown);
}

#[test]
fn refusal_passes_the_code_on() {
    let mut client = ready_client();
    let id = client.call(1030, "{}", 0).unwrap();
    assert_eq!(client.receive(&reply(id, 3203, b"ignored"), 1), Received::Answer(id));
    assert_eq!(client.poll(id, 1), CallStatus::Finished(Err(SdkError::ApiError(3203))));
    let id = client.call(1030, "{}", 0).unwrap();
    assert_eq!(client.receive(&reply(id, -5, b""), 1), Received::Answer(id));
    assert_eq!(client.poll(id, 1000), CallStatus::Finished(Err(SdkError::ApiError(-5))));
}

#[test]
fn interleaved_replies_reach_their_calls() {
    let mut client = ready_client();
    let n = 25u64;
    let ids: Vec<u64> = (0..n).map(|k| client.call(1000 + k as i32, "{}", k).unwrap()).collect();
    for a in 0..ids.len() {
        for b in 0..a {
            assert_ne!(ids[a], ids[b]);
        }
    }
    assert_eq!(client.outstanding(), n as usize);
    // The replies arrive in another order, with strangers and repeats between.
    let mut order: Vec<u64> = ids.clone();
    order.reverse();
    order.rotate_left(7);
    for (k, id) in order.iter().enumerate() {
        let data = format!("reply to {}", id);
        assert_eq!(client.receive(&reply(*id, 0, data.as_bytes()), 5), Received::Answer(*id));
        assert_eq!(client.receive(&reply(1000 + k as u64, 0, b"stranger"), 5), Received::Stale);
        assert_eq!(client.receive(&reply(*id, 0, b"repeat"), 5), Received::Stale);
    }
    for id in ids.iter() {
        let expected = format!("reply to {}", id);
        assert_eq!(client.poll(*id, 6), CallStatus::Finished(Ok(expected.into_bytes())));
    }
    for id in ids.iter() {
        assert_eq!(client.poll(*id, 6), CallStatus::Unknown);
    }
    assert_eq!(client.outstanding(), 0);
}

#[test]
fn answered_and_unanswered_calls_apart() {
    let mut client = ready_client();
    client.set_timeout(4);
    let first = client.call(1, "{}", 0).unwrap();
    let second = client.call(2, "{}", 0).unwrap();
    let third = client.call(3, "{}", 0).unwrap();
    assert_eq!(client.receive(&reply(second, 0, b"two"), 1), Received::Answer(second));
    assert_eq!(client.poll(first, 2), CallStatus::Pending);
    assert_eq!(client.poll(second, 2), CallStatus::Finished(Ok(b"two".to_vec())));
    assert_eq!(client.poll(third, 2), CallStatus::Pending);
    assert_eq!(client.receive(&reply(third, 9, b""), 3), Received::Answer(third));
    assert_eq!(client.poll(first, 4), CallStatus::Finished(Err(SdkError::Timeout)));
    assert_eq!(client.poll(third, 4), CallStatus::Finished(Err(SdkError::ApiError(9))));
}

#[test]
fn closed_client_accepts_no_reply() {
    let mut client = ready_client();
    let id = client.call(1, "{}", 0).unwrap();
    client.close();
    assert_eq!(client.receive(&reply(id, 0, b"ok"), 1), Received::Rejected);
    assert_eq!(client.dropped_frames(), 0);
    assert_eq!(client.poll(id, 1), CallStatus::Pending);
    assert_eq!(client.poll(id, 10), CallStatus::Finished(Err(SdkError::Timeout)));
}

#[test]
fn result_code_of_each_outcome() {
    assert_eq!(RpcClient::result_code(Ok(vec![])), Ok(0));
    assert_eq!(RpcClient::result_code(Ok(b"anything".to_vec())), Ok(0));
    assert_eq!(RpcClient::result_code(Err(SdkError::ApiError(3104))), Ok(3104));
    assert_eq!(RpcClient::result_code(Err(SdkError::ApiError(-1))), Ok(-1));
    assert_eq!(RpcClient::result_code(Err(SdkError::Timeout)), Err(SdkError::Timeout));
    assert_eq!(
        RpcClient::result_code(Err(SdkError::NotInitialized)),
        Err(SdkError::NotInitialized)
    );
    assert_eq!(
        RpcClient::result_code(Err(SdkError::Channel("down".to_string()))),
        Err(SdkError::Channel("down".to_string()))
    );
}

#[test]
fn sequence_numbers_run_out() {
    let mut client = RpcClient::starting_at(&ChannelFactory::instance(), "sport", u64::MAX - 1);
    client.init().unwrap();
    assert_eq!(client.call(1004, "{}", 0), Ok(u64::MAX - 1));
    assert_eq!(
        client.call(1004, "{}", 0),
        Err(SdkError::Channel("sequence numbers exhausted".to_string()))
    );
    assert_eq!(client.outstanding(), 1);
    assert_eq!(client.take_outbox().len(), 1);
    assert_eq!(
        client.call(1004, "{}", 0).map_err(|e| e.to_string()),
        Err("Channel error: sequence numbers exhausted".to_string())
    );
}

#[test]
fn sequence_numbers_start_where_asked() {
    let mut client = RpcClient::starting_at(&ChannelFactory::instance(), "robot_state", 1 << 32);
    assert_eq!(client.request_topic_name(), "rt/api/robot_state/request");
    assert_eq!(client.response_topic_name(), "rt/api/robot_state/response");
    client.init().unwrap();
    assert_eq!(client.call(1, "{}", 0), Ok(1 << 32));
    assert_eq!(client.call(1, "{}", 0), Ok((1 << 32) + 1));
    let frames = client.take_outbox();
    assert_eq!(Request::decode(&frames[1]).unwrap().sequence_id, (1 << 32) + 1);
}

#[test]
fn cancelled_call_is_forgotten() {
    let mut client = ready_client();
    let first = client.call(1, "{}", 0).unwrap();
    let second = client.call(2, "{}", 0).unwrap();
    assert!(client.cancel(first));
    assert!(!client.cancel(first));
    assert!(!client.cancel(99));
    assert_eq!(client.outstanding(), 1);
    assert_eq!(client.receive(&reply(first, 0, b"late"), 1), Received::Stale);
    assert_eq!(client.poll(first, 1), CallStatus::Unknown);
    assert_eq!(client.receive(&reply(second, 0, b"two"), 1), Received::Answer(second));
    assert!(client.cancel(second));
    assert_eq!(client.poll(second, 1), CallStatus::Unknown);
    assert_eq!(client.outstanding(), 0);
    // The requests were queued before the calls were given up.
    assert_eq!(client.take_outbox().len(), 2);
}

#[test]
fn full_outbox_fails_the_call() {
    let mut client = ready_client();
    assert_eq!(client.outbox_limit(), usize::MAX);
    client.set_outbox_limit(1);
    assert_eq!(client.outbox_limit(), 1);
    assert_eq!(client.call(1, "{}", 0), Ok(0));
    assert_eq!(client.call(2, "{}", 0), Err(SdkError::Channel("outbox full".to_string())));
    assert_eq!(client.outstanding(), 1);
    assert_eq!(client.take_outbox().len(), 1);
    // The sequence number of the failed call was not used.
    assert_eq!(client.call(2, "{}", 0), Ok(1));
    client.close();
    assert_eq!(client.call(3, "{}", 0), Err(SdkError::NotInitialized));
}

#[test]
fn client_takes_the_domain_of_its_factory() {
    let mut factory = ChannelFactory::instance();
    factory.init(5, "eth0");
    let client = RpcClient::with_factory(&factory, "sport");
    assert_eq!(client.domain_id(), 5);
    assert_eq!(client.request_topic_name(), "rt/api/sport/request");
    assert_eq!(client.response_topic_name(), "rt/api/sport/response");
    assert_eq!(client.get_timeout(), 10);
    assert!(!client.is_running());
    assert_eq!(RpcClient::new("sport").domain_id(), 0);
}
