use unitree_sdk2_rust::error::SdkError;
use unitree_sdk2_rust::idl::go2::{
    BmsCmd, BmsState, IMUState, LowCmd, LowState, MotorCmd, MotorState, PathPoint, SportModeState,
    TimeSpec, WirelessController,
};
use unitree_sdk2_rust::wire::float::Float32;
use unitree_sdk2_rust::wire::message::Message;
use unitree_sdk2_rust::wire::Layout;

fn f(x: f32) -> Float32 {
    Float32::from_bits(x.to_bits())
}

fn zero3() -> [Float32; 3] {
    [f(0.0); 3]
}

#[test]
fn bms_cmd_default_values() {
    let cmd = BmsCmd::default();
    assert_eq!(cmd.off, 0);
    assert_eq!(cmd.reserve, [0, 0, 0]);
}

#[test]
fn bms_cmd_serde_roundtrip() {
    let cmd = BmsCmd { off: 1, reserve: [2, 3, 4] };
    let bytes = cmd.encode();
    let decoded = BmsCmd::decode(&bytes).unwrap();
    assert_eq!(cmd, decoded);
}

#[test]
fn bms_cmd_wire_bytes() {
    let cmd = BmsCmd { off: 1, reserve: [2, 3, 4] };
    assert_eq!(cmd.encode(), vec![1u8, 2, 3, 4]);
    assert_eq!(BmsCmd::decode(&[9, 8, 7, 6]), Ok(BmsCmd { off: 9, reserve: [8, 7, 6] }));
}

#[test]
fn bms_cmd_clone_and_eq() {
    let cmd = BmsCmd { off: 5, reserve: [10, 20, 30] };
    let cloned = cmd.clone();
    assert_eq!(cmd, cloned);
}

#[test]
fn bms_cmd_debug_format() {
    let cmd = BmsCmd::default();
    let debug = format!("{:?}", cmd);
    assert!(debug.contains("BmsCmd"));
}

#[test]
fn bms_state_default_values() {
    let state = BmsState::default();
    assert_eq!(state.version_high, 0);
    assert_eq!(state.version_low, 0);
    assert_eq!(state.status, 0);
    assert_eq!(state.soc, 0);
    assert_eq!(state.current, 0);
    assert_eq!(state.cycle, 0);
    assert_eq!(state.bq_ntc, [0, 0]);
    assert_eq!(state.mcu_ntc, [0, 0]);
    assert_eq!(state.cell_vol, [0u16; 15]);
}

#[test]
fn bms_state_serde_roundtrip() {
    let state = BmsState {
        version_high: 1,
        version_low: 2,
        status: 3,
        soc: 80,
        current: -1500,
        cycle: 42,
        bq_ntc: [25, 26],
        mcu_ntc: [30, 31],
        cell_vol: [4200; 15],
    };
    let bytes = state.encode();
    let decoded = BmsState::decode(&bytes).unwrap();
    assert_eq!(state, decoded);
}

#[test]
fn bms_state_wire_bytes() {
    let state = BmsState {
        version_high: 1,
        version_low: 2,
        status: 3,
        soc: 80,
        current: -1500,
        cycle: 42,
        bq_ntc: [25, 26],
        mcu_ntc: [30, 31],
        cell_vol: [4200; 15],
    };
    let mut expected: Vec<u8> = vec![1, 2, 3, 80];
    expected.extend_from_slice(&(-1500i32).to_le_bytes());
    expected.extend_from_slice(&42u16.to_le_bytes());
    expected.extend_from_slice(&[25, 26, 30, 31]);
    for _ in 0..15 {
        expected.extend_from_slice(&[0x68, 0x10]);
    }
    assert_eq!(expected.len(), 44);
    assert_eq!(state.encode(), expected);
}

#[test]
fn bms_state_clone_and_eq() {
    let state = BmsState { soc: 95, current: -500, ..Default::default() };
    assert_eq!(state, state.clone());
}

#[test]
fn bms_state_negative_currents() {
    for current in [i32::MIN, -1, 0, 1, i32::MAX] {
        let state = BmsState { current, ..Default::default() };
        let bytes = state.encode();
        assert_eq!(&bytes[4..8], &current.to_le_bytes());
        assert_eq!(BmsState::decode(&bytes), Ok(state));
    }
}

#[test]
fn imu_state_default_values() {
    let imu = IMUState::default();
    assert_eq!(imu.quaternion, [f(0.0); 4]);
    assert_eq!(imu.gyroscope, [f(0.0); 3]);
    assert_eq!(imu.accelerometer, [f(0.0); 3]);
    assert_eq!(imu.rpy, [f(0.0); 3]);
    assert_eq!(imu.temperature, 0);
}

#[test]
fn imu_state_serde_roundtrip() {
    let imu = IMUState {
        quaternion: [f(1.0), f(0.0), f(0.0), f(0.0)],
        gyroscope: [f(0.1), f(0.2), f(0.3)],
        accelerometer: [f(0.0), f(0.0), f(9.81)],
        rpy: [f(0.01), f(0.02), f(0.03)],
        temperature: 35,
    };
    let bytes = imu.encode();
    assert_eq!(bytes.len(), 53);
    assert_eq!(&bytes[0..4], &1.0f32.to_le_bytes());
    assert_eq!(&bytes[36..40], &9.81f32.to_le_bytes());
    assert_eq!(bytes[52], 35);
    let decoded = IMUState::decode(&bytes).unwrap();
    assert_eq!(imu, decoded);
    assert_eq!(f32::from_bits(decoded.accelerometer[2].to_bits()), 9.81);
}

#[test]
fn imu_state_clone_and_eq() {
    let imu = IMUState { quaternion: [f(1.0), f(0.0), f(0.0), f(0.0)], ..Default::default() };
    assert_eq!(imu, imu.clone());
}

#[test]
fn low_cmd_default_values() {
    let cmd = LowCmd::default();
    assert_eq!(cmd.head, [0, 0]);
    assert_eq!(cmd.level_flag, 0);
    assert_eq!(cmd.motor_cmd.len(), 20);
    assert_eq!(cmd.wireless_remote, [0u8; 40]);
    assert_eq!(cmd.crc, 0);
    for mc in &cmd.motor_cmd {
        assert_eq!(*mc, MotorCmd::default());
    }
}

#[test]
fn low_cmd_serde_roundtrip() {
    let mut cmd = LowCmd::default();
    cmd.head = [0xFE, 0xEF];
    cmd.level_flag = 0xFF;
    cmd.motor_cmd[0].mode = 1;
    cmd.motor_cmd[0].q = f(0.5);
    cmd.crc = 12345;
    let bytes = cmd.encode();
    let decoded: LowCmd = LowCmd::decode(&bytes).unwrap();
    assert_eq!(cmd, decoded);
}

#[test]
fn low_cmd_layout() {
    let mut cmd = LowCmd::default();
    cmd.head = [0xFE, 0xEF];
    cmd.level_flag = 0xFF;
    cmd.sn = [1, 2];
    cmd.bandwidth = 0x1234;
    cmd.motor_cmd[0].mode = 1;
    cmd.motor_cmd[0].q = f(0.5);
    cmd.motor_cmd[19].reserve = [0, 0, 0xAABBCCDD];
    cmd.bms_cmd.off = 7;
    cmd.wireless_remote[39] = 9;
    cmd.led[0] = 3;
    cmd.fan = [4, 5];
    cmd.gpio = 6;
    cmd.reserve = 0x0102_0304;
    cmd.crc = 12345;
    let bytes = cmd.encode();
    assert_eq!(bytes.len(), 749);
    assert_eq!(&bytes[0..4], &[0xFE, 0xEF, 0xFF, 0]);
    assert_eq!(&bytes[4..12], &[1, 0, 0, 0, 2, 0, 0, 0]);
    assert_eq!(&bytes[20..22], &[0x34, 0x12]);
    assert_eq!(bytes[22], 1);
    assert_eq!(&bytes[23..27], &0.5f32.to_le_bytes());
    assert_eq!(&bytes[678..682], &[0xDD, 0xCC, 0xBB, 0xAA]);
    assert_eq!(bytes[682], 7);
    assert_eq!(bytes[725], 9);
    assert_eq!(bytes[726], 3);
    assert_eq!(&bytes[738..741], &[4, 5, 6]);
    assert_eq!(&bytes[741..745], &[4, 3, 2, 1]);
    assert_eq!(&bytes[745..749], &12345u32.to_le_bytes());
}

#[test]
fn clone_preserves_motor_cmds() {
    let mut cmd = LowCmd::default();
    cmd.motor_cmd[5].kp = f(42.0);
    let cloned = cmd.clone();
    assert_eq!(f32::from_bits(cloned.motor_cmd[5].kp.to_bits()), 42.0);
}

#[test]
fn low_cmd_checksum_follows_mutation() {
    let mut cmd = LowCmd::default();
    assert!(!cmd.is_intact());
    cmd = cmd.seal();
    assert!(cmd.is_intact());
    assert_eq!(cmd.crc, cmd.compute_checksum());
    let sealed_before = cmd.crc;
    cmd.motor_cmd[7].tau = f(-1.5);
    assert!(!cmd.is_intact());
    assert_eq!(cmd.crc, sealed_before);
    cmd = cmd.seal();
    assert!(cmd.is_intact());
    assert_ne!(cmd.crc, sealed_before);
    assert_eq!(cmd.seal(), cmd);
    assert_eq!(LowCmd::decode(&cmd.encode()), Ok(cmd));
    assert_eq!(cmd.encode_sealed(), cmd.encode());
}

#[test]
fn low_cmd_checksum_covers_all_but_itself() {
    let mut cmd = LowCmd::default();
    cmd.head = [0xFE, 0xEF];
    let bytes = cmd.encode();
    let expected = unitree_sdk2_rust::wire::crc::checksum(&bytes[..745]);
    assert_eq!(cmd.compute_checksum(), expected);
    cmd.crc = 77;
    assert_eq!(cmd.compute_checksum(), expected);
    let sealed = cmd.encode_sealed();
    assert_eq!(&sealed[..745], &bytes[..745]);
    assert_eq!(&sealed[745..], &expected.to_le_bytes());
}

#[test]
fn low_state_default_values() {
    let state = LowState::default();
    assert_eq!(state.head, [0, 0]);
    assert_eq!(state.motor_state.len(), 20);
    assert_eq!(state.foot_force, [0; 4]);
    assert_eq!(state.foot_force_est, [0; 4]);
    assert_eq!(state.tick, 0);
    assert_eq!(state.crc, 0);
}

#[test]
fn low_state_serde_roundtrip() {
    let mut state = LowState::default();
    state.head = [0xFE, 0xEF];
    state.tick = 999;
    state.imu_state.temperature = 30;
    state.motor_state[0].q = f(1.5);
    state.bms_state.soc = 85;
    let bytes = state.encode();
    assert_eq!(bytes.len(), 1064);
    let decoded: LowState = LowState::decode(&bytes).unwrap();
    assert_eq!(state, decoded);
}

#[test]
fn low_state_layout() {
    let mut state = LowState::default();
    state.imu_state.temperature = 30;
    state.motor_state[0].mode = 1;
    state.motor_state[19].reserve = [0, 5];
    state.bms_state.soc = 85;
    state.foot_force = [-1, 2, -3, 4];
    state.tick = 999;
    state.wireless_remote2[0] = 8;
    state.reserve = 9;
    let bytes = state.encode();
    assert_eq!(bytes[74], 30);
    assert_eq!(bytes[75], 1);
    assert_eq!(&bytes[911..915], &[5, 0, 0, 0]);
    assert_eq!(bytes[918], 85);
    assert_eq!(&bytes[999..1007], &[0xFF, 0xFF, 2, 0, 0xFD, 0xFF, 4, 0]);
    assert_eq!(&bytes[1015..1019], &999u32.to_le_bytes());
    assert_eq!(bytes[1019], 8);
    assert_eq!(bytes[1059], 9);
}

#[test]
fn clone_preserves_nested() {
    let mut state = LowState::default();
    state.bms_state.soc = 50;
    state.motor_state[10].temperature = 60;
    let cloned = state.clone();
    assert_eq!(cloned.bms_state.soc, 50);
    assert_eq!(cloned.motor_state[10].temperature, 60);
}

#[test]
fn motor_cmd_default_values() {
    let cmd = MotorCmd::default();
    assert_eq!(cmd.mode, 0);
    assert_eq!(f32::from_bits(cmd.q.to_bits()), 0.0);
    assert_eq!(f32::from_bits(cmd.dq.to_bits()), 0.0);
    assert_eq!(f32::from_bits(cmd.tau.to_bits()), 0.0);
    assert_eq!(f32::from_bits(cmd.kp.to_bits()), 0.0);
    assert_eq!(f32::from_bits(cmd.kd.to_bits()), 0.0);
    assert_eq!(cmd.reserve, [0; 3]);
}

#[test]
fn motor_cmd_serde_roundtrip() {
    let cmd = MotorCmd {
        mode: 1,
        q: f(1.57),
        dq: f(0.5),
        tau: f(2.0),
        kp: f(20.0),
        kd: f(0.5),
        reserve: [1, 2, 3],
    };
    let bytes = cmd.encode();
    assert_eq!(bytes.len(), 33);
    let decoded = MotorCmd::decode(&bytes).unwrap();
    assert_eq!(cmd, decoded);
}

#[test]
fn motor_state_default_values() {
    let state = MotorState::default();
    assert_eq!(state.mode, 0);
    assert_eq!(f32::from_bits(state.q.to_bits()), 0.0);
    assert_eq!(f32::from_bits(state.tau_est.to_bits()), 0.0);
    assert_eq!(state.temperature, 0);
    assert_eq!(state.lost, 0);
}

#[test]
fn motor_state_serde_roundtrip() {
    let state = MotorState {
        mode: 1,
        q: f(1.0),
        dq: f(0.5),
        ddq: f(0.1),
        tau_est: f(3.0),
        q_raw: f(1.01),
        dq_raw: f(0.51),
        ddq_raw: f(0.11),
        temperature: 45,
        lost: 2,
        reserve: [0, 0],
    };
    let bytes = state.encode();
    assert_eq!(bytes.len(), 42);
    let decoded = MotorState::decode(&bytes).unwrap();
    assert_eq!(state, decoded);
}

#[test]
fn path_point_default_values() {
    let p = PathPoint::default();
    assert_eq!(f32::from_bits(p.t_from_start.to_bits()), 0.0);
    assert_eq!(f32::from_bits(p.x.to_bits()), 0.0);
    assert_eq!(f32::from_bits(p.y.to_bits()), 0.0);
    assert_eq!(f32::from_bits(p.yaw.to_bits()), 0.0);
    assert_eq!(f32::from_bits(p.vx.to_bits()), 0.0);
    assert_eq!(f32::from_bits(p.vy.to_bits()), 0.0);
    assert_eq!(f32::from_bits(p.vyaw.to_bits()), 0.0);
}

#[test]
fn path_point_serde_roundtrip() {
    let p = PathPoint {
        t_from_start: f(0.5),
        x: f(1.0),
        y: f(2.0),
        yaw: f(0.3),
        vx: f(0.5),
        vy: f(0.1),
        vyaw: f(0.05),
    };
    let bytes = p.encode();
    assert_eq!(bytes.len(), 28);
    let decoded = PathPoint::decode(&bytes).unwrap();
    assert_eq!(p, decoded);
}

#[test]
fn sport_mode_state_default_values() {
    let state = SportModeState::default();
    assert_eq!(state.mode, 0);
    assert_eq!(state.error_code, 0);
    assert_eq!(state.position, zero3());
    assert_eq!(state.velocity, zero3());
    assert_eq!(state.foot_force, [0; 4]);
    assert_eq!(state.path_point.len(), 10);
}

#[test]
fn sport_mode_state_serde_roundtrip() {
    let state = SportModeState {
        stamp: TimeSpec { sec: 10, nanosec: 100 },
        mode: 2,
        position: [f(1.0), f(2.0), f(0.3)],
        velocity: [f(0.5), f(0.0), f(0.0)],
        body_height: f(0.32),
        ..Default::default()
    };
    let bytes = state.encode();
    assert_eq!(bytes.len(), 507);
    let decoded = SportModeState::decode(&bytes).unwrap();
    assert_eq!(state, decoded);
}

#[test]
fn sport_mode_state_layout() {
    let mut state = SportModeState::default();
    state.stamp = TimeSpec { sec: 10, nanosec: 100 };
    state.error_code = 0xCAFE;
    state.mode = 2;
    state.gait_type = 3;
    state.foot_force = [1, -1, 2, -2];
    state.path_point[9].vyaw = f(1.0);
    let bytes = state.encode();
    assert_eq!(&bytes[0..8], &[10, 0, 0, 0, 100, 0, 0, 0]);
    assert_eq!(&bytes[8..12], &[0xFE, 0xCA, 0, 0]);
    assert_eq!(bytes[65], 2);
    assert_eq!(bytes[70], 3);
    assert_eq!(&bytes[123..131], &[1, 0, 0xFF, 0xFF, 2, 0, 0xFE, 0xFF]);
    assert_eq!(&bytes[503..507], &1.0f32.to_le_bytes());
}

#[test]
fn time_spec_default_values() {
    let ts = TimeSpec::default();
    assert_eq!(ts.sec, 0);
    assert_eq!(ts.nanosec, 0);
}

#[test]
fn time_spec_serde_roundtrip() {
    let ts = TimeSpec { sec: 1700000000, nanosec: 123456789 };
    let bytes = ts.encode();
    let decoded = TimeSpec::decode(&bytes).unwrap();
    assert_eq!(ts, decoded);
}

#[test]
fn time_spec_wire_bytes() {
    let ts = TimeSpec { sec: -2, nanosec: 0x0102_0304 };
    assert_eq!(ts.encode(), vec![0xFE, 0xFF, 0xFF, 0xFF, 4, 3, 2, 1]);
    let ts = TimeSpec { sec: 1700000000, nanosec: 123456789 };
    let mut expected = 1700000000i32.to_le_bytes().to_vec();
    expected.extend_from_slice(&123456789u32.to_le_bytes());
    assert_eq!(ts.encode(), expected);
}

#[test]
fn time_spec_extremes() {
    for sec in [i32::MIN, -1, 0, 1, i32::MAX] {
        for nanosec in [0, 1, 999_999_999, u32::MAX] {
            let ts = TimeSpec { sec, nanosec };
            assert_eq!(TimeSpec::decode(&ts.encode()), Ok(ts));
        }
    }
}

#[test]
fn wireless_controller_default_values() {
    let ctrl = WirelessController::default();
    assert_eq!(f32::from_bits(ctrl.lx.to_bits()), 0.0);
    assert_eq!(f32::from_bits(ctrl.ly.to_bits()), 0.0);
    assert_eq!(f32::from_bits(ctrl.rx.to_bits()), 0.0);
    assert_eq!(f32::from_bits(ctrl.ry.to_bits()), 0.0);
    assert_eq!(ctrl.keys, 0);
}

#[test]
fn wireless_controller_serde_roundtrip() {
    let ctrl = WirelessController {
        lx: f(-0.5),
        ly: f(0.8),
        rx: f(0.3),
        ry: f(-0.9),
        keys: 0b1010_0101,
    };
    let bytes = ctrl.encode();
    assert_eq!(bytes.len(), 18);
    assert_eq!(&bytes[16..18], &[0b1010_0101, 0]);
    let decoded = WirelessController::decode(&bytes).unwrap();
    assert_eq!(ctrl, decoded);
}

#[test]
fn floats_travel_bit_for_bit() {
    for bits in [0u32, 0x8000_0000, 0x7FC0_0001, 0xFFC0_0000, 0x7F80_0000, 0xFF80_0000, 1, u32::MAX] {
        let p = PathPoint { x: Float32::from_bits(bits), ..Default::default() };
        let bytes = p.encode();
        assert_eq!(&bytes[4..8], &bits.to_le_bytes());
        let decoded = PathPoint::decode(&bytes).unwrap();
        assert_eq!(decoded.x.to_bits(), bits);
        assert_eq!(decoded, p);
    }
    assert_eq!(Float32::default().to_bits(), 0);
    assert_eq!(Float32::zeroed().to_bits(), 0);
}

#[test]
fn decode_refuses_other_lengths() {
    let malformed = Err(SdkError::Serialization("malformed message".to_string()));
    assert_eq!(TimeSpec::decode(&[0u8; 7]), malformed);
    assert_eq!(TimeSpec::decode(&[0u8; 9]), Err(SdkError::Serialization("malformed message".to_string())));
    assert_eq!(TimeSpec::decode(&[]), Err(SdkError::Serialization("malformed message".to_string())));
    assert!(LowCmd::decode(&[0u8; 748]).is_err());
    assert!(LowCmd::decode(&[0u8; 750]).is_err());
    assert!(LowCmd::decode(&[0u8; 749]).is_ok());
    assert!(LowState::decode(&[0u8; 1063]).is_err());
    assert!(LowState::decode(&[0u8; 1064]).is_ok());
    assert!(SportModeState::decode(&[0u8; 507]).is_ok());
    assert!(SportModeState::decode(&[0u8; 506]).is_err());
}

#[test]
fn defaults_are_all_zero_bytes() {
    assert_eq!(BmsCmd::default().encode(), vec![0u8; 4]);
    assert_eq!(BmsState::default().encode(), vec![0u8; 44]);
    assert_eq!(IMUState::default().encode(), vec![0u8; 53]);
    assert_eq!(MotorCmd::default().encode(), vec![0u8; 33]);
    assert_eq!(MotorState::default().encode(), vec![0u8; 42]);
    assert_eq!(PathPoint::default().encode(), vec![0u8; 28]);
    assert_eq!(TimeSpec::default().encode(), vec![0u8; 8]);
    assert_eq!(WirelessController::default().encode(), vec![0u8; 18]);
    assert_eq!(SportModeState::default().encode(), vec![0u8; 507]);
    assert_eq!(LowCmd::default().encode(), vec![0u8; 749]);
    assert_eq!(LowState::default().encode(), vec![0u8; 1064]);
}

#[test]
fn every_frame_is_the_frame_of_its_message() {
    let mut frame = vec![0u8; 749];
    for (i, byte) in frame.iter_mut().enumerate() {
        *byte = (i * 7 + 3) as u8;
    }
    let cmd = LowCmd::decode(&frame).unwrap();
    assert_eq!(cmd.encode(), frame);
    let mut frame = vec![0u8; 1064];
    for (i, byte) in frame.iter_mut().enumerate() {
        *byte = (i * 13 + 1) as u8;
    }
    let state = LowState::decode(&frame).unwrap();
    assert_eq!(state.encode(), frame);
    let mut frame = vec![0u8; 507];
    for (i, byte) in frame.iter_mut().enumerate() {
        *byte = (255 - (i % 251)) as u8;
    }
    let state = SportModeState::decode(&frame).unwrap();
    assert_eq!(state.encode(), frame);
}

#[test]
fn take_reads_one_value_after_another() {
    let mut bytes = TimeSpec { sec: 1, nanosec: 2 }.encode();
    bytes.extend_from_slice(&BmsCmd { off: 3, reserve: [4, 5, 6] }.encode());
    let mut pos = 0usize;
    assert_eq!(TimeSpec::take(&bytes, &mut pos), Some(TimeSpec { sec: 1, nanosec: 2 }));
    assert_eq!(pos, 8);
    assert_eq!(TimeSpec::take(&bytes, &mut pos), None);
    assert_eq!(pos, 8);
    assert_eq!(BmsCmd::take(&bytes, &mut pos), Some(BmsCmd { off: 3, reserve: [4, 5, 6] }));
    assert_eq!(pos, 12);
    assert_eq!(u8::take(&bytes, &mut pos), None);
    let mut beyond = 13usize;
    assert_eq!(<[u8; 0]>::take(&bytes, &mut beyond), None);
    assert_eq!(beyond, 13);
    let mut end = 12usize;
    assert_eq!(<[u8; 0]>::take(&bytes, &mut end), Some([]));
}
