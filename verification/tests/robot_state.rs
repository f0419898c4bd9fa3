use unitree_sdk2_rust::channel::ChannelFactory;
use unitree_sdk2_rust::error::SdkError;
use unitree_sdk2_rust::robot::go2::robot_state::robot_state_api::{
    ROBOT_STATE_API_ID_SERVICE_LIST, ROBOT_STATE_API_ID_SERVICE_SWITCH,
    ROBOT_STATE_API_ID_SET_REPORT_FREQ, ROBOT_STATE_API_VERSION, ROBOT_STATE_SERVICE_NAME,
};
use unitree_sdk2_rust::robot::go2::robot_state::service_list::read_services;
use unitree_sdk2_rust::robot::go2::robot_state::{RobotStateClient, ServiceState, ServiceStatus};
use unitree_sdk2_rust::rpc::{CallStatus, Received, Request, Response, RpcClient};
use unitree_sdk2_rust::wire::message::Message;

fn ready_client() -> RobotStateClient {
    let mut client = RobotStateClient::new();
    client.init().unwrap();
    client
}

fn sent(c: &mut RobotStateClient) -> (i32, String) {
    let frames = c.client_mut().take_outbox();
    assert_eq!(frames.len(), 1);
    let request = Request::decode(&frames[0]).unwrap();
    (request.api_id, String::from_utf8(request.parameter).unwrap())
}

fn answer(c: &mut RobotStateClient, id: u64, code: i32, data: &[u8]) -> Result<Vec<u8>, SdkError> {
    let frame = Response { sequence_id: id, code, data: data.to_vec() }.encode();
    assert_eq!(c.client_mut().receive(&frame, 0), Received::Answer(id));
    match c.client_mut().poll(id, 0) {
        CallStatus::Finished(result) => result,
        other => panic!("expected the call to be over, got {:?}", other),
    }
}

fn names(list: &[ServiceState]) -> Vec<(String, i32, i32)> {
    list.iter().map(|s| (s.name.clone(), s.status, s.protect)).collect()
}

#[test]
fn robot_state_api_service_constants() {
    assert_eq!(ROBOT_STATE_SERVICE_NAME, "robot_state");
    assert_eq!(ROBOT_STATE_API_VERSION, "1.0.0.1");
}

#[test]
fn robot_state_api_api_ids_are_unique() {
    let ids = [
        ROBOT_STATE_API_ID_SERVICE_LIST,
        ROBOT_STATE_API_ID_SERVICE_SWITCH,
        ROBOT_STATE_API_ID_SET_REPORT_FREQ,
    ];
    let mut sorted = ids.to_vec();
    sorted.sort();
    sorted.dedup();
    assert_eq!(ids.len(), sorted.len());
    assert_eq!(ids, [1, 2, 3]);
}

#[test]
fn new_and_default() {
    let a = RobotStateClient::new();
    let b = RobotStateClient::default();
    assert_eq!(a.timeout(), b.timeout());
    assert_eq!(a.timeout(), 10);
}

#[test]
fn init_does_not_panic() {
    let mut client = RobotStateClient::new();
    assert_eq!(client.init(), Ok(()));
    match client.init() {
        Err(SdkError::Init(_)) => {}
        other => panic!("expected Init error, got {:?}", other),
    }
}

#[test]
fn service_list_returns_empty() {
    let mut client = ready_client();
    let id = client.service_list(0).unwrap();
    assert_eq!(sent(&mut client), (1, "{}".to_string()));
    let result = answer(&mut client, id, 0, b"[]");
    let list = RobotStateClient::service_list_result(result).unwrap();
    assert!(list.is_empty());
}

#[test]
fn service_switch_returns_ok() {
    let mut client = ready_client();
    let id = client.service_switch("sport", 1, 0).unwrap();
    assert_eq!(sent(&mut client), (2, "{\"name\":\"sport\",\"switch\":1}".to_string()));
    assert_eq!(RpcClient::result_code(answer(&mut client, id, 0, b"")), Ok(0));
    let id = client.service_switch("sport", 0, 0).unwrap();
    assert_eq!(sent(&mut client), (2, "{\"name\":\"sport\",\"switch\":0}".to_string()));
    assert_eq!(RpcClient::result_code(answer(&mut client, id, 0, b"")), Ok(0));
}

#[test]
fn service_switch_refuses_names_with_escapes() {
    let mut client = ready_client();
    for name in ["a\"b", "back\\slash", "line\nbreak", "caf\u{e9}"] {
        assert_eq!(
            client.service_switch(name, 1, 0),
            Err(SdkError::Serialization("unsupported service name".to_string()))
        );
    }
    assert!(client.client_mut().take_outbox().is_empty());
    assert_eq!(client.service_switch("next", 1, 0), Ok(0));
}

#[test]
fn set_report_freq_returns_zero() {
    let mut client = ready_client();
    let id = client.set_report_freq(100, 5000, 0).unwrap();
    assert_eq!(sent(&mut client), (3, "{\"interval\":100,\"duration\":5000}".to_string()));
    assert_eq!(RpcClient::result_code(answer(&mut client, id, 0, b"")), Ok(0));
}

#[test]
fn calls_before_init_fail() {
    let mut client = RobotStateClient::new();
    assert_eq!(client.service_list(0), Err(SdkError::NotInitialized));
    assert_eq!(client.service_switch("sport", 1, 0), Err(SdkError::NotInitialized));
    assert_eq!(client.set_report_freq(1, 2, 0), Err(SdkError::NotInitialized));
    assert!(client.client_mut().take_outbox().is_empty());
}

#[test]
fn robot_state_timeout_is_set() {
    let mut client = ready_client();
    client.set_timeout(1);
    assert_eq!(client.timeout(), 1);
    let id = client.service_list(7).unwrap();
    assert_eq!(client.client_mut().poll(id, 7), CallStatus::Pending);
    assert_eq!(client.client_mut().poll(id, 8), CallStatus::Finished(Err(SdkError::Timeout)));
}

#[test]
fn service_state_debug_and_clone() {
    let state = ServiceState { name: "test_service".to_string(), status: 1, protect: 0 };
    let cloned = state.clone();
    assert_eq!(cloned.name, "test_service");
    assert_eq!(cloned.status, 1);
    assert_eq!(cloned.protect, 0);
    let debug = format!("{:?}", state);
    assert!(debug.contains("test_service"));
}

#[test]
fn service_state_status_and_protection() {
    let running = ServiceState { name: "sport_mode".to_string(), status: 1, protect: 1 };
    assert_eq!(running.status(), ServiceStatus::Running);
    assert!(running.protected());
    let stopped = ServiceState { name: "sport_mode".to_string(), status: 0, protect: 0 };
    assert_eq!(stopped.status(), ServiceStatus::Stopped);
    assert!(!stopped.protected());
}

#[test]
fn service_lists_read() {
    let list = read_services(b"[{\"name\":\"sport_mode\",\"status\":1,\"protect\":0}]").unwrap();
    assert_eq!(names(&list), vec![("sport_mode".to_string(), 1, 0)]);
    let list = read_services(
        b" [ {\"name\" : \"a\" , \"status\" : 0 , \"protect\" : 1 } ,\n\
          {\"name\":\"b c\",\"status\":-3,\"protect\":2147483647},\
          {\"name\":\"\",\"status\":1,\"protect\":0} ] \n",
    )
    .unwrap();
    assert_eq!(
        names(&list),
        vec![
            ("a".to_string(), 0, 1),
            ("b c".to_string(), -3, i32::MAX),
            (String::new(), 1, 0)
        ]
    );
    assert!(read_services(b"[]").unwrap().is_empty());
    assert!(read_services(b" [ ] ").unwrap().is_empty());
}

#[test]
fn service_lists_refused() {
    for payload in [
        &b""[..],
        b"[",
        b"]",
        b"{}",
        b"[] x",
        b"[,]",
        b"[{}]",
        b"[{\"name\":\"a\",\"status\":1,\"protect\":0},]",
        b"[{\"name\":\"a\",\"status\":1,\"protect\":0}",
        b"[{\"name\":\"a\",\"status\":1,\"protect\":0}]]",
        b"[{\"name\":\"a\",\"status\":1,\"protect\":0} {\"name\":\"b\",\"status\":1,\"protect\":0}]",
        b"[{\"status\":1,\"name\":\"a\",\"protect\":0}]",
        b"[{\"name\":\"a\",\"status\":1}]",
        b"[{\"name\":\"a\",\"status\":1,\"protect\":0,\"more\":1}]",
        b"[{\"name\":a,\"status\":1,\"protect\":0}]",
        b"[{\"name\":\"a\\\"b\",\"status\":1,\"protect\":0}]",
        b"[{\"name\":\"a\",\"status\":\"1\",\"protect\":0}]",
        b"[{\"name\":\"a\",\"status\":1.5,\"protect\":0}]",
        b"[{\"name\":\"a\",\"status\":2147483648,\"protect\":0}]",
        b"[{\"name\":\"a\",\"status\":1,\"protect\":-2147483649}]",
        b"[{\"name\":\"\xc3\xa9\",\"status\":1,\"protect\":0}]",
    ] {
        assert_eq!(
            read_services(payload).map(|list| names(&list)),
            Err(SdkError::Serialization("unexpected result".to_string())),
            "{:?}",
            String::from_utf8_lossy(payload)
        );
    }
}

#[test]
fn service_list_result_of_each_outcome() {
    let list = RobotStateClient::service_list_result(Ok(
        b"[{\"name\":\"sport_mode\",\"status\":1,\"protect\":1}]".to_vec(),
    ))
    .unwrap();
    assert_eq!(names(&list), vec![("sport_mode".to_string(), 1, 1)]);
    assert_eq!(
        RobotStateClient::service_list_result(Err(SdkError::ApiError(7))).map(|l| names(&l)),
        Err(SdkError::ApiError(7))
    );
    assert_eq!(
        RobotStateClient::service_list_result(Err(SdkError::Timeout)).map(|l| names(&l)),
        Err(SdkError::Timeout)
    );
    assert_eq!(
        RobotStateClient::service_list_result(Ok(b"nothing".to_vec())).map(|l| names(&l)),
        Err(SdkError::Serialization("unexpected result".to_string()))
    );
}

#[test]
fn robot_state_client_closes_and_cancels() {
    let mut client = ready_client();
    let id = client.service_list(0).unwrap();
    assert!(client.client_mut().cancel(id));
    assert_eq!(client.client_mut().poll(id, 0), CallStatus::Unknown);
    client.client_mut().close();
    assert_eq!(client.service_list(0), Err(SdkError::NotInitialized));
    assert_eq!(client.client().request_topic_name(), "rt/api/robot_state/request");
}

#[test]
fn robot_state_client_with_a_full_outbox() {
    let mut client = ready_client();
    client.client_mut().set_outbox_limit(0);
    assert_eq!(client.service_list(0), Err(SdkError::Channel("outbox full".to_string())));
    client.client_mut().set_outbox_limit(1);
    assert_eq!(client.service_list(0), Ok(0));
}

#[test]
fn robot_state_client_takes_the_domain_of_its_factory() {
    let mut factory = ChannelFactory::instance();
    factory.init(9, "wlan0");
    let client = RobotStateClient::with_factory(&factory);
    assert_eq!(client.client().domain_id(), 9);
    assert_eq!(client.client().response_topic_name(), "rt/api/robot_state/response");
}
