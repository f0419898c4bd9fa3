use unitree_sdk2_rust::channel::ChannelFactory;
use unitree_sdk2_rust::error::SdkError;
use unitree_sdk2_rust::json::JsonNumber;
use unitree_sdk2_rust::robot::go2::sport::sport_api::{
    ROBOT_SPORT_API_ID_AUTORECOVERY_GET, ROBOT_SPORT_API_ID_AUTORECOVERY_SET,
    ROBOT_SPORT_API_ID_BACKFLIP, ROBOT_SPORT_API_ID_BALANCESTAND, ROBOT_SPORT_API_ID_CLASSICWALK,
    ROBOT_SPORT_API_ID_CONTENT, ROBOT_SPORT_API_ID_CROSSSTEP, ROBOT_SPORT_API_ID_DAMP,
    ROBOT_SPORT_API_ID_DANCE1, ROBOT_SPORT_API_ID_DANCE2, ROBOT_SPORT_API_ID_ECONOMICGAIT,
    ROBOT_SPORT_API_ID_EULER, ROBOT_SPORT_API_ID_FREEAVOID, ROBOT_SPORT_API_ID_FREEBOUND,
    ROBOT_SPORT_API_ID_FREEJUMP, ROBOT_SPORT_API_ID_FREEWALK, ROBOT_SPORT_API_ID_FRONTFLIP,
    ROBOT_SPORT_API_ID_FRONTJUMP, ROBOT_SPORT_API_ID_FRONTPOUNCE, ROBOT_SPORT_API_ID_HANDSTAND,
    ROBOT_SPORT_API_ID_HEART, ROBOT_SPORT_API_ID_HELLO, ROBOT_SPORT_API_ID_LEFTFLIP,
    ROBOT_SPORT_API_ID_MOVE, ROBOT_SPORT_API_ID_POSE, ROBOT_SPORT_API_ID_RECOVERYSTAND,
    ROBOT_SPORT_API_ID_RISESIT, ROBOT_SPORT_API_ID_SCRAPE, ROBOT_SPORT_API_ID_SIT,
    ROBOT_SPORT_API_ID_SPEEDLEVEL, ROBOT_SPORT_API_ID_STANDDOWN, ROBOT_SPORT_API_ID_STANDUP,
    ROBOT_SPORT_API_ID_STATICWALK, ROBOT_SPORT_API_ID_STOPMOVE, ROBOT_SPORT_API_ID_STRETCH,
    ROBOT_SPORT_API_ID_SWITCHAVOIDMODE, ROBOT_SPORT_API_ID_SWITCHJOYSTICK,
    ROBOT_SPORT_API_ID_TROTRUN, ROBOT_SPORT_API_ID_WALKUPRIGHT, ROBOT_SPORT_API_VERSION,
    ROBOT_SPORT_SERVICE_NAME,
};
use unitree_sdk2_rust::robot::go2::sport::SportClient;
use unitree_sdk2_rust::rpc::{CallStatus, Received, Request, Response, RpcClient};
use unitree_sdk2_rust::wire::message::Message;

fn make_client() -> SportClient {
    let mut c = SportClient::new(false);
    c.init().unwrap();
    c
}

fn num(x: f32) -> JsonNumber {
    JsonNumber::parse(&format!("{:?}", x)).unwrap()
}

/// Answers the call with the code 0 and gives the result code of the command.
fn finish(c: &mut SportClient, id: Result<u64, SdkError>) -> i32 {
    let id = id.unwrap();
    let frame = Response { sequence_id: id, code: 0, data: Vec::new() }.encode();
    assert_eq!(c.client_mut().receive(&frame, 0), Received::Answer(id));
    match c.client_mut().poll(id, 0) {
        CallStatus::Finished(result) => RpcClient::result_code(result).unwrap(),
        other => panic!("expected the call to be over, got {:?}", other),
    }
}

/// The one request that waits in the outbox.
fn sent(c: &mut SportClient) -> (i32, String) {
    let frames = c.client_mut().take_outbox();
    assert_eq!(frames.len(), 1);
    let request = Request::decode(&frames[0]).unwrap();
    (request.api_id, String::from_utf8(request.parameter).unwrap())
}

#[test]
fn sport_api_service_constants() {
    assert_eq!(ROBOT_SPORT_SERVICE_NAME, "sport");
    assert_eq!(ROBOT_SPORT_API_VERSION, "1.0.0.1");
}

#[test]
fn sport_api_api_ids_are_unique() {
    let ids = [
        ROBOT_SPORT_API_ID_DAMP,
        ROBOT_SPORT_API_ID_BALANCESTAND,
        ROBOT_SPORT_API_ID_STOPMOVE,
        ROBOT_SPORT_API_ID_STANDUP,
        ROBOT_SPORT_API_ID_STANDDOWN,
        ROBOT_SPORT_API_ID_RECOVERYSTAND,
        ROBOT_SPORT_API_ID_EULER,
        ROBOT_SPORT_API_ID_MOVE,
        ROBOT_SPORT_API_ID_SIT,
        ROBOT_SPORT_API_ID_RISESIT,
        ROBOT_SPORT_API_ID_SPEEDLEVEL,
        ROBOT_SPORT_API_ID_HELLO,
        ROBOT_SPORT_API_ID_STRETCH,
        ROBOT_SPORT_API_ID_CONTENT,
        ROBOT_SPORT_API_ID_DANCE1,
        ROBOT_SPORT_API_ID_DANCE2,
        ROBOT_SPORT_API_ID_SWITCHJOYSTICK,
        ROBOT_SPORT_API_ID_POSE,
        ROBOT_SPORT_API_ID_SCRAPE,
        ROBOT_SPORT_API_ID_FRONTFLIP,
        ROBOT_SPORT_API_ID_FRONTJUMP,
        ROBOT_SPORT_API_ID_FRONTPOUNCE,
        ROBOT_SPORT_API_ID_HEART,
        ROBOT_SPORT_API_ID_STATICWALK,
        ROBOT_SPORT_API_ID_TROTRUN,
        ROBOT_SPORT_API_ID_ECONOMICGAIT,
        ROBOT_SPORT_API_ID_LEFTFLIP,
        ROBOT_SPORT_API_ID_BACKFLIP,
        ROBOT_SPORT_API_ID_HANDSTAND,
        ROBOT_SPORT_API_ID_FREEWALK,
        ROBOT_SPORT_API_ID_FREEBOUND,
        ROBOT_SPORT_API_ID_FREEJUMP,
        ROBOT_SPORT_API_ID_FREEAVOID,
        ROBOT_SPORT_API_ID_CLASSICWALK,
        ROBOT_SPORT_API_ID_WALKUPRIGHT,
        ROBOT_SPORT_API_ID_CROSSSTEP,
        ROBOT_SPORT_API_ID_AUTORECOVERY_SET,
        ROBOT_SPORT_API_ID_AUTORECOVERY_GET,
        ROBOT_SPORT_API_ID_SWITCHAVOIDMODE,
    ];
    let mut sorted = ids.to_vec();
    sorted.sort();
    sorted.dedup();
    assert_eq!(ids.len(), sorted.len(), "API IDs must be unique");
}

#[test]
fn sport_api_ids_have_their_numbers() {
    assert_eq!(ROBOT_SPORT_API_ID_DAMP, 1001);
    assert_eq!(ROBOT_SPORT_API_ID_STANDUP, 1004);
    assert_eq!(ROBOT_SPORT_API_ID_MOVE, 1008);
    assert_eq!(ROBOT_SPORT_API_ID_ECONOMICGAIT, 1063);
    assert_eq!(ROBOT_SPORT_API_ID_LEFTFLIP, 2041);
    assert_eq!(ROBOT_SPORT_API_ID_AUTORECOVERY_GET, 2055);
    assert_eq!(ROBOT_SPORT_API_ID_SWITCHAVOIDMODE, 2058);
}

#[test]
fn new_sets_defaults() {
    let client = SportClient::new(false);
    assert!(!client.enable_lease());
    assert_eq!(client.timeout(), 10);
}

#[test]
fn new_with_lease() {
    let client = SportClient::new(true);
    assert!(client.enable_lease());
}

#[test]
fn set_timeout() {
    let mut client = SportClient::new(false);
    client.set_timeout(5);
    assert_eq!(client.timeout(), 5);
}

#[test]
fn commands_before_init_fail() {
    let mut client = SportClient::new(false);
    assert_eq!(client.stand_up(0), Err(SdkError::NotInitialized));
    assert_eq!(client.move_cmd(&num(0.5), &num(0.0), &num(0.0), 0), Err(SdkError::NotInitialized));
    assert_eq!(client.auto_recover_get(0), Err(SdkError::NotInitialized));
    assert!(client.client_mut().take_outbox().is_empty());
}

#[test]
fn sport_client_init_twice_fails() {
    let mut client = SportClient::new(true);
    assert_eq!(client.init(), Ok(()));
    match client.init() {
        Err(SdkError::Init(_)) => {}
        other => panic!("expected Init error, got {:?}", other),
    }
    assert!(client.enable_lease());
    assert_eq!(client.stand_up(0), Ok(0));
}

#[test]
fn basic_commands_return_zero() {
    let mut c = make_client();
    let id = c.damp(0);
    assert_eq!(finish(&mut c, id), 0);
    let id = c.balance_stand(0);
    assert_eq!(finish(&mut c, id), 0);
    let id = c.stop_move(0);
    assert_eq!(finish(&mut c, id), 0);
    let id = c.stand_up(0);
    assert_eq!(finish(&mut c, id), 0);
    let id = c.stand_down(0);
    assert_eq!(finish(&mut c, id), 0);
    let id = c.recovery_stand(0);
    assert_eq!(finish(&mut c, id), 0);
    let id = c.sit(0);
    assert_eq!(finish(&mut c, id), 0);
    let id = c.rise_sit(0);
    assert_eq!(finish(&mut c, id), 0);
    let id = c.hello(0);
    assert_eq!(finish(&mut c, id), 0);
    let id = c.stretch(0);
    assert_eq!(finish(&mut c, id), 0);
    let id = c.content(0);
    assert_eq!(finish(&mut c, id), 0);
    let id = c.heart(0);
    assert_eq!(finish(&mut c, id), 0);
    let id = c.scrape(0);
    assert_eq!(finish(&mut c, id), 0);
}

#[test]
fn parameterized_commands_return_zero() {
    let mut c = make_client();
    let id = c.euler(&num(0.1), &num(0.2), &num(0.3), 0);
    assert_eq!(finish(&mut c, id), 0);
    let id = c.move_cmd(&num(1.0), &num(0.0), &num(0.5), 0);
    assert_eq!(finish(&mut c, id), 0);
    let id = c.speed_level(2, 0);
    assert_eq!(finish(&mut c, id), 0);
    let id = c.switch_joystick(true, 0);
    assert_eq!(finish(&mut c, id), 0);
    let id = c.pose(true, 0);
    assert_eq!(finish(&mut c, id), 0);
    let id = c.hand_stand(false, 0);
    assert_eq!(finish(&mut c, id), 0);
}

#[test]
fn trick_commands_return_zero() {
    let mut c = make_client();
    let id = c.front_flip(0);
    assert_eq!(finish(&mut c, id), 0);
    let id = c.front_jump(0);
    assert_eq!(finish(&mut c, id), 0);
    let id = c.front_pounce(0);
    assert_eq!(finish(&mut c, id), 0);
    let id = c.dance1(0);
    assert_eq!(finish(&mut c, id), 0);
    let id = c.dance2(0);
    assert_eq!(finish(&mut c, id), 0);
    let id = c.left_flip(0);
    assert_eq!(finish(&mut c, id), 0);
    let id = c.back_flip(0);
    assert_eq!(finish(&mut c, id), 0);
}

#[test]
fn gait_commands_return_zero() {
    let mut c = make_client();
    let id = c.free_walk(0);
    assert_eq!(finish(&mut c, id), 0);
    let id = c.free_bound(true, 0);
    assert_eq!(finish(&mut c, id), 0);
    let id = c.free_jump(true, 0);
    assert_eq!(finish(&mut c, id), 0);
    let id = c.free_avoid(true, 0);
    assert_eq!(finish(&mut c, id), 0);
    let id = c.classic_walk(true, 0);
    assert_eq!(finish(&mut c, id), 0);
    let id = c.walk_upright(true, 0);
    assert_eq!(finish(&mut c, id), 0);
    let id = c.cross_step(true, 0);
    assert_eq!(finish(&mut c, id), 0);
    let id = c.static_walk(0);
    assert_eq!(finish(&mut c, id), 0);
    let id = c.trot_run(0);
    assert_eq!(finish(&mut c, id), 0);
    let id = c.economic_gait(0);
    assert_eq!(finish(&mut c, id), 0);
    let id = c.switch_avoid_mode(0);
    assert_eq!(finish(&mut c, id), 0);
}

#[test]
fn auto_recover() {
    let mut c = make_client();
    let id = c.auto_recover_set(true, 0);
    assert_eq!(finish(&mut c, id), 0);
    let id = c.auto_recover_get(0).unwrap();
    let frame = Response { sequence_id: id, code: 0, data: b"{\"data\":false}".to_vec() }.encode();
    assert_eq!(c.client_mut().receive(&frame, 0), Received::Answer(id));
    match c.client_mut().poll(id, 0) {
        CallStatus::Finished(result) => assert_eq!(SportClient::auto_recover_flag(result), Ok(false)),
        other => panic!("expected the call to be over, got {:?}", other),
    }
}

#[test]
fn stand_up_issues_one_call() {
    let mut c = make_client();
    assert_eq!(c.stand_up(0), Ok(0));
    let frames = c.client_mut().take_outbox();
    assert_eq!(frames.len(), 1);
    let request = Request::decode(&frames[0]).unwrap();
    assert_eq!(request.api_id, 1004);
    assert_eq!(request.parameter, b"{}".to_vec());
    assert_eq!(request.sequence_id, 0);
    assert!(c.client_mut().take_outbox().is_empty());
}

#[test]
fn move_cmd_issues_one_call() {
    let mut c = make_client();
    assert_eq!(c.move_cmd(&num(0.5), &num(0.0), &num(0.0), 0), Ok(0));
    let frames = c.client_mut().take_outbox();
    assert_eq!(frames.len(), 1);
    let request = Request::decode(&frames[0]).unwrap();
    assert_eq!(request.api_id, 1008);
    assert_eq!(request.parameter, b"{\"x\":0.5,\"y\":0.0,\"z\":0.0}".to_vec());
}

#[test]
fn every_command_has_its_number_and_arguments() {
    let mut c = make_client();
    let empty = "{}".to_string();
    c.damp(0).unwrap();
    assert_eq!(sent(&mut c), (1001, empty.clone()));
    c.balance_stand(0).unwrap();
    assert_eq!(sent(&mut c), (1002, empty.clone()));
    c.stop_move(0).unwrap();
    assert_eq!(sent(&mut c), (1003, empty.clone()));
    c.stand_up(0).unwrap();
    assert_eq!(sent(&mut c), (1004, empty.clone()));
    c.stand_down(0).unwrap();
    assert_eq!(sent(&mut c), (1005, empty.clone()));
    c.recovery_stand(0).unwrap();
    assert_eq!(sent(&mut c), (1006, empty.clone()));
    c.euler(&num(0.1), &num(-0.2), &num(0.3), 0).unwrap();
    assert_eq!(sent(&mut c), (1007, "{\"x\":0.1,\"y\":-0.2,\"z\":0.3}".to_string()));
    c.move_cmd(&num(1.0), &num(0.0), &num(0.5), 0).unwrap();
    assert_eq!(sent(&mut c), (1008, "{\"x\":1.0,\"y\":0.0,\"z\":0.5}".to_string()));
    c.sit(0).unwrap();
    assert_eq!(sent(&mut c), (1009, empty.clone()));
    c.rise_sit(0).unwrap();
    assert_eq!(sent(&mut c), (1010, empty.clone()));
    c.speed_level(2, 0).unwrap();
    assert_eq!(sent(&mut c), (1015, "{\"value\":2}".to_string()));
    c.speed_level(-1, 0).unwrap();
    assert_eq!(sent(&mut c), (1015, "{\"value\":-1}".to_string()));
    c.hello(0).unwrap();
    assert_eq!(sent(&mut c), (1016, empty.clone()));
    c.stretch(0).unwrap();
    assert_eq!(sent(&mut c), (1017, empty.clone()));
    c.content(0).unwrap();
    assert_eq!(sent(&mut c), (1020, empty.clone()));
    c.dance1(0).unwrap();
    assert_eq!(sent(&mut c), (1022, empty.clone()));
    c.dance2(0).unwrap();
    assert_eq!(sent(&mut c), (1023, empty.clone()));
    c.switch_joystick(true, 0).unwrap();
    assert_eq!(sent(&mut c), (1027, "{\"value\":1}".to_string()));
    c.pose(false, 0).unwrap();
    assert_eq!(sent(&mut c), (1028, "{\"value\":0}".to_string()));
    c.scrape(0).unwrap();
    assert_eq!(sent(&mut c), (1029, empty.clone()));
    c.front_flip(0).unwrap();
    assert_eq!(sent(&mut c), (1030, empty.clone()));
    c.front_jump(0).unwrap();
    assert_eq!(sent(&mut c), (1031, empty.clone()));
    c.front_pounce(0).unwrap();
    assert_eq!(sent(&mut c), (1032, empty.clone()));
    c.heart(0).unwrap();
    assert_eq!(sent(&mut c), (1036, empty.clone()));
    c.static_walk(0).unwrap();
    assert_eq!(sent(&mut c), (1061, empty.clone()));
    c.trot_run(0).unwrap();
    assert_eq!(sent(&mut c), (1062, empty.clone()));
    c.economic_gait(0).unwrap();
    assert_eq!(sent(&mut c), (1063, empty.clone()));
    c.left_flip(0).unwrap();
    assert_eq!(sent(&mut c), (2041, empty.clone()));
    c.back_flip(0).unwrap();
    assert_eq!(sent(&mut c), (2043, empty.clone()));
    c.hand_stand(true, 0).unwrap();
    assert_eq!(sent(&mut c), (2044, "{\"value\":1}".to_string()));
    c.free_walk(0).unwrap();
    assert_eq!(sent(&mut c), (2045, empty.clone()));
    c.free_bound(false, 0).unwrap();
    assert_eq!(sent(&mut c), (2046, "{\"value\":0}".to_string()));
    c.free_jump(true, 0).unwrap();
    assert_eq!(sent(&mut c), (2047, "{\"value\":1}".to_string()));
    c.free_avoid(true, 0).unwrap();
    assert_eq!(sent(&mut c), (2048, "{\"value\":1}".to_string()));
    c.classic_walk(true, 0).unwrap();
    assert_eq!(sent(&mut c), (2049, "{\"value\":1}".to_string()));
    c.walk_upright(false, 0).unwrap();
    assert_eq!(sent(&mut c), (2050, "{\"value\":0}".to_string()));
    c.cross_step(true, 0).unwrap();
    assert_eq!(sent(&mut c), (2051, "{\"value\":1}".to_string()));
    c.auto_recover_set(false, 0).unwrap();
    assert_eq!(sent(&mut c), (2054, "{\"value\":0}".to_string()));
    c.auto_recover_get(0).unwrap();
    assert_eq!(sent(&mut c), (2055, empty.clone()));
    c.switch_avoid_mode(0).unwrap();
    assert_eq!(sent(&mut c), (2058, empty));
}

#[test]
fn auto_recover_flag_of_each_outcome() {
    assert_eq!(SportClient::auto_recover_flag(Ok(b"{\"data\":true}".to_vec())), Ok(true));
    assert_eq!(SportClient::auto_recover_flag(Ok(b"{ \"data\" : false }".to_vec())), Ok(false));
    assert_eq!(
        SportClient::auto_recover_flag(Err(SdkError::ApiError(3203))),
        Err(SdkError::ApiError(3203))
    );
    assert_eq!(SportClient::auto_recover_flag(Err(SdkError::Timeout)), Err(SdkError::Timeout));
    for payload in [&b""[..], b"{}", b"garbage", b"{\"data\":2}", b"\xff\xff\xff"] {
        assert_eq!(
            SportClient::auto_recover_flag(Ok(payload.to_vec())),
            Err(SdkError::Serialization("unexpected result".to_string()))
        );
    }
}

#[test]
fn refused_command_gives_the_code() {
    let mut c = make_client();
    let id = c.front_flip(0).unwrap();
    let frame = Response { sequence_id: id, code: 3203, data: Vec::new() }.encode();
    assert_eq!(c.client_mut().receive(&frame, 1), Received::Answer(id));
    match c.client_mut().poll(id, 1) {
        CallStatus::Finished(result) => assert_eq!(RpcClient::result_code(result), Ok(3203)),
        other => panic!("expected the call to be over, got {:?}", other),
    }
}

#[test]
fn unanswered_command_times_out() {
    let mut c = make_client();
    c.set_timeout(2);
    let id = c.stand_down(10).unwrap();
    assert_eq!(c.client_mut().poll(id, 11), CallStatus::Pending);
    match c.client_mut().poll(id, 12) {
        CallStatus::Finished(result) => {
            assert_eq!(RpcClient::result_code(result), Err(SdkError::Timeout))
        }
        other => panic!("expected the call to be over, got {:?}", other),
    }
}

#[test]
fn closed_sport_client_makes_no_call() {
    let mut c = make_client();
    let id = c.stand_up(0).unwrap();
    c.client_mut().close();
    assert_eq!(c.damp(0), Err(SdkError::NotInitialized));
    assert!(c.client_mut().cancel(id));
    assert_eq!(c.init(), Ok(()));
    assert_eq!(c.damp(0), Ok(1));
    assert_eq!(c.client().outstanding(), 1);
}

#[test]
fn sport_client_with_a_full_outbox() {
    let mut c = make_client();
    c.client_mut().set_outbox_limit(1);
    assert_eq!(c.stand_up(0), Ok(0));
    assert_eq!(c.damp(0), Err(SdkError::Channel("outbox full".to_string())));
    assert_eq!(sent(&mut c), (1004, "{}".to_string()));
    assert_eq!(c.damp(0), Ok(1));
}

#[test]
fn sport_client_takes_the_domain_of_its_factory() {
    let mut factory = ChannelFactory::instance();
    factory.init(2, "eth0");
    let client = SportClient::with_factory(&factory, true);
    assert!(client.enable_lease());
    assert_eq!(client.client().domain_id(), 2);
    assert_eq!(client.client().request_topic_name(), "rt/api/sport/request");
    assert_eq!(SportClient::new(false).client().domain_id(), 0);
}
