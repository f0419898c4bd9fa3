//! The low-level state.

use vstd::prelude::*;
use crate::idl::go2::BmsState;
use crate::idl::go2::IMUState;
use crate::idl::go2::MotorState;
use crate::wire::crc::{checksum, crc32};
use crate::wire::{
    field, lemma_field_join, lemma_field_of_field, lemma_field_split, lemma_field_whole,
    lemma_join_grouping, lemma_zeros_join, zeros, Layout,
};

verus! {

/// What the robot reports joint by joint: the inertial unit, the state of
/// each of the 20 motors, the battery and the forces at the feet.
///
/// The last field is the checksum of all the bytes before it.
#[derive(Clone, Copy, Debug, PartialEq, Eq)]
pub struct LowState {
    /// The two bytes that open the frame.
    pub head: [u8; 2],
    /// Which level of control the state comes from.
    pub level_flag: u8,
    /// Reserved.
    pub frame_reserve: u8,
    /// Serial number.
    pub sn: [u32; 2],
    /// Firmware version.
    pub version: [u32; 2],
    /// Bandwidth of the link.
    pub bandwidth: u16,
    /// Readings of the inertial unit.
    pub imu_state: IMUState,
    /// The state of each of the 20 joints.
    pub motor_state: [MotorState; 20],
    /// The state of the battery.
    pub bms_state: BmsState,
    /// The data block of the handheld controller.
    pub wireless_remote: [u8; 40],
    /// Contact force at each foot, front left, front right, rear left, rear right.
    pub foot_force: [i16; 4],
    /// Estimated force at each foot, in the same order.
    pub foot_force_est: [i16; 4],
    /// A counter that only grows.
    pub tick: u32,
    /// A second data block of the handheld controller.
    pub wireless_remote2: [u8; 40],
    /// Reserved.
    pub reserve: u8,
    /// Checksum of all the bytes before it.
    pub crc: u32,
}

impl Default for LowState {
    /// The state with every field zero.
    fn default() -> (r: Self)
        ensures
            r.layout() == zeros(Self::size()),
    {
        Self::zeroed()
    }
}

impl LowState {
    /// The bytes that the checksum covers: all that come before it.
    pub open spec fn body(&self) -> Seq<u8> {
        self.head.layout()
            + self.level_flag.layout()
            + self.frame_reserve.layout()
            + self.sn.layout()
            + self.version.layout()
            + self.bandwidth.layout()
            + self.imu_state.layout()
            + self.motor_state.layout()
            + self.bms_state.layout()
            + self.wireless_remote.layout()
            + self.foot_force.layout()
            + self.foot_force_est.layout()
            + self.tick.layout()
            + self.wireless_remote2.layout()
            + self.reserve.layout()
    }

    /// The checksum that the fields call for.
    pub open spec fn checksum(&self) -> u32 {
        crc32(self.body())
    }

    /// Appends the bytes that the checksum covers to `out`.
    fn put_body(&self, out: &mut Vec<u8>)
        ensures
            final(out)@ == old(out)@ + self.body(),
    {
        let ghost start = out@;
        self.head.put(out);
        self.level_flag.put(out);
        self.frame_reserve.put(out);
        self.sn.put(out);
        self.version.put(out);
        self.bandwidth.put(out);
        self.imu_state.put(out);
        self.motor_state.put(out);
        self.bms_state.put(out);
        self.wireless_remote.put(out);
        self.foot_force.put(out);
        self.foot_force_est.put(out);
        self.tick.put(out);
        self.wireless_remote2.put(out);
        self.reserve.put(out);
        proof {
            let to_head = self.head.layout();
            lemma_join_grouping(start, to_head, self.level_flag.layout());
            let to_level_flag = to_head + self.level_flag.layout();
            lemma_join_grouping(start, to_level_flag, self.frame_reserve.layout());
            let to_frame_reserve = to_level_flag + self.frame_reserve.layout();
            lemma_join_grouping(start, to_frame_reserve, self.sn.layout());
            let to_sn = to_frame_reserve + self.sn.layout();
            lemma_join_grouping(start, to_sn, self.version.layout());
            let to_version = to_sn + self.version.layout();
            lemma_join_grouping(start, to_version, self.bandwidth.layout());
            let to_bandwidth = to_version + self.bandwidth.layout();
            lemma_join_grouping(start, to_bandwidth, self.imu_state.layout());
            let to_imu_state = to_bandwidth + self.imu_state.layout();
            lemma_join_grouping(start, to_imu_state, self.motor_state.layout());
            let to_motor_state = to_imu_state + self.motor_state.layout();
            lemma_join_grouping(start, to_motor_state, self.bms_state.layout());
            let to_bms_state = to_motor_state + self.bms_state.layout();
            lemma_join_grouping(start, to_bms_state, self.wireless_remote.layout());
            let to_wireless_remote = to_bms_state + self.wireless_remote.layout();
            lemma_join_grouping(start, to_wireless_remote, self.foot_force.layout());
            let to_foot_force = to_wireless_remote + self.foot_force.layout();
            lemma_join_grouping(start, to_foot_force, self.foot_force_est.layout());
            let to_foot_force_est = to_foot_force + self.foot_force_est.layout();
            lemma_join_grouping(start, to_foot_force_est, self.tick.layout());
            let to_tick = to_foot_force_est + self.tick.layout();
            lemma_join_grouping(start, to_tick, self.wireless_remote2.layout());
            let to_wireless_remote2 = to_tick + self.wireless_remote2.layout();
            lemma_join_grouping(start, to_wireless_remote2, self.reserve.layout());
        }
    }

    /// Computes the checksum that the fields call for.
    pub fn compute_checksum(&self) -> (r: u32)
        ensures
            r == self.checksum(),
    {
        let mut body: Vec<u8> = Vec::new();
        self.put_body(&mut body);
        assert(body@ =~= self.body());
        checksum(body.as_slice())
    }
}

impl Layout for LowState {
    open spec fn size() -> nat {
        1064
    }

    open spec fn layout(&self) -> Seq<u8> {
        self.body() + self.crc.layout()
    }

    open spec fn read(bytes: Seq<u8>) -> Self {
        LowState {
            head: <[u8; 2]>::read(field(bytes, 0, 2)),
            level_flag: u8::read(field(bytes, 2, 1)),
            frame_reserve: u8::read(field(bytes, 3, 1)),
            sn: <[u32; 2]>::read(field(bytes, 4, 8)),
            version: <[u32; 2]>::read(field(bytes, 12, 8)),
            bandwidth: u16::read(field(bytes, 20, 2)),
            imu_state: IMUState::read(field(bytes, 22, 53)),
            motor_state: <[MotorState; 20]>::read(field(bytes, 75, 840)),
            bms_state: BmsState::read(field(bytes, 915, 44)),
            wireless_remote: <[u8; 40]>::read(field(bytes, 959, 40)),
            foot_force: <[i16; 4]>::read(field(bytes, 999, 8)),
            foot_force_est: <[i16; 4]>::read(field(bytes, 1007, 8)),
            tick: u32::read(field(bytes, 1015, 4)),
            wireless_remote2: <[u8; 40]>::read(field(bytes, 1019, 40)),
            reserve: u8::read(field(bytes, 1059, 1)),
            crc: u32::read(field(bytes, 1060, 4)),
        }
    }

    open spec fn sealed(&self) -> Self {
        LowState { crc: self.checksum(), ..*self }
    }

    proof fn lemma_layout_len(&self) {
        self.head.lemma_layout_len();
        self.level_flag.lemma_layout_len();
        self.frame_reserve.lemma_layout_len();
        self.sn.lemma_layout_len();
        self.version.lemma_layout_len();
        self.bandwidth.lemma_layout_len();
        self.imu_state.lemma_layout_len();
        self.motor_state.lemma_layout_len();
        self.bms_state.lemma_layout_len();
        self.wireless_remote.lemma_layout_len();
        self.foot_force.lemma_layout_len();
        self.foot_force_est.lemma_layout_len();
        self.tick.lemma_layout_len();
        self.wireless_remote2.lemma_layout_len();
        self.reserve.lemma_layout_len();
        self.crc.lemma_layout_len();
    }

    proof fn lemma_read_layout(&self) {
        let bytes = self.layout();
        self.lemma_layout_len();
        self.head.lemma_layout_len();
        self.level_flag.lemma_layout_len();
        self.frame_reserve.lemma_layout_len();
        self.sn.lemma_layout_len();
        self.version.lemma_layout_len();
        self.bandwidth.lemma_layout_len();
        self.imu_state.lemma_layout_len();
        self.motor_state.lemma_layout_len();
        self.bms_state.lemma_layout_len();
        self.wireless_remote.lemma_layout_len();
        self.foot_force.lemma_layout_len();
        self.foot_force_est.lemma_layout_len();
        self.tick.lemma_layout_len();
        self.wireless_remote2.lemma_layout_len();
        self.reserve.lemma_layout_len();
        self.crc.lemma_layout_len();
        let to_head = self.head.layout();
        let to_level_flag = to_head + self.level_flag.layout();
        let to_frame_reserve = to_level_flag + self.frame_reserve.layout();
        let to_sn = to_frame_reserve + self.sn.layout();
        let to_version = to_sn + self.version.layout();
        let to_bandwidth = to_version + self.bandwidth.layout();
        let to_imu_state = to_bandwidth + self.imu_state.layout();
        let to_motor_state = to_imu_state + self.motor_state.layout();
        let to_bms_state = to_motor_state + self.bms_state.layout();
        let to_wireless_remote = to_bms_state + self.wireless_remote.layout();
        let to_foot_force = to_wireless_remote + self.foot_force.layout();
        let to_foot_force_est = to_foot_force + self.foot_force_est.layout();
        let to_tick = to_foot_force_est + self.tick.layout();
        let to_wireless_remote2 = to_tick + self.wireless_remote2.layout();
        let to_reserve = to_wireless_remote2 + self.reserve.layout();
        lemma_field_split(to_reserve, self.crc.layout());
        lemma_field_split(to_wireless_remote2, self.reserve.layout());
        lemma_field_of_field(bytes, 0, 1060, 0, 1059);
        lemma_field_of_field(bytes, 0, 1060, 1059, 1);
        lemma_field_split(to_tick, self.wireless_remote2.layout());
        lemma_field_of_field(bytes, 0, 1059, 0, 1019);
        lemma_field_of_field(bytes, 0, 1059, 1019, 40);
        lemma_field_split(to_foot_force_est, self.tick.layout());
        lemma_field_of_field(bytes, 0, 1019, 0, 1015);
        lemma_field_of_field(bytes, 0, 1019, 1015, 4);
        lemma_field_split(to_foot_force, self.foot_force_est.layout());
        lemma_field_of_field(bytes, 0, 1015, 0, 1007);
        lemma_field_of_field(bytes, 0, 1015, 1007, 8);
        lemma_field_split(to_wireless_remote, self.foot_force.layout());
        lemma_field_of_field(bytes, 0, 1007, 0, 999);
        lemma_field_of_field(bytes, 0, 1007, 999, 8);
        lemma_field_split(to_bms_state, self.wireless_remote.layout());
        lemma_field_of_field(bytes, 0, 999, 0, 959);
        lemma_field_of_field(bytes, 0, 999, 959, 40);
        lemma_field_split(to_motor_state, self.bms_state.layout());
        lemma_field_of_field(bytes, 0, 959, 0, 915);
        lemma_field_of_field(bytes, 0, 959, 915, 44);
        lemma_field_split(to_imu_state, self.motor_state.layout());
        lemma_field_of_field(bytes, 0, 915, 0, 75);
        lemma_field_of_field(bytes, 0, 915, 75, 840);
        lemma_field_split(to_bandwidth, self.imu_state.layout());
        lemma_field_of_field(bytes, 0, 75, 0, 22);
        lemma_field_of_field(bytes, 0, 75, 22, 53);
        lemma_field_split(to_version, self.bandwidth.layout());
        lemma_field_of_field(bytes, 0, 22, 0, 20);
        lemma_field_of_field(bytes, 0, 22, 20, 2);
        lemma_field_split(to_sn, self.version.layout());
        lemma_field_of_field(bytes, 0, 20, 0, 12);
        lemma_field_of_field(bytes, 0, 20, 12, 8);
        lemma_field_split(to_frame_reserve, self.sn.layout());
        lemma_field_of_field(bytes, 0, 12, 0, 4);
        lemma_field_of_field(bytes, 0, 12, 4, 8);
        lemma_field_split(to_level_flag, self.frame_reserve.layout());
        lemma_field_of_field(bytes, 0, 4, 0, 3);
        lemma_field_of_field(bytes, 0, 4, 3, 1);
        lemma_field_split(to_head, self.level_flag.layout());
        lemma_field_of_field(bytes, 0, 3, 0, 2);
        lemma_field_of_field(bytes, 0, 3, 2, 1);
        self.head.lemma_read_layout();
        self.level_flag.lemma_read_layout();
        self.frame_reserve.lemma_read_layout();
        self.sn.lemma_read_layout();
        self.version.lemma_read_layout();
        self.bandwidth.lemma_read_layout();
        self.imu_state.lemma_read_layout();
        self.motor_state.lemma_read_layout();
        self.bms_state.lemma_read_layout();
        self.wireless_remote.lemma_read_layout();
        self.foot_force.lemma_read_layout();
        self.foot_force_est.lemma_read_layout();
        self.tick.lemma_read_layout();
        self.wireless_remote2.lemma_read_layout();
        self.reserve.lemma_read_layout();
        self.crc.lemma_read_layout();
    }

    proof fn lemma_layout_read(bytes: Seq<u8>) {
        <[u8; 2]>::lemma_layout_read(field(bytes, 0, 2));
        u8::lemma_layout_read(field(bytes, 2, 1));
        u8::lemma_layout_read(field(bytes, 3, 1));
        <[u32; 2]>::lemma_layout_read(field(bytes, 4, 8));
        <[u32; 2]>::lemma_layout_read(field(bytes, 12, 8));
        u16::lemma_layout_read(field(bytes, 20, 2));
        IMUState::lemma_layout_read(field(bytes, 22, 53));
        <[MotorState; 20]>::lemma_layout_read(field(bytes, 75, 840));
        BmsState::lemma_layout_read(field(bytes, 915, 44));
        <[u8; 40]>::lemma_layout_read(field(bytes, 959, 40));
        <[i16; 4]>::lemma_layout_read(field(bytes, 999, 8));
        <[i16; 4]>::lemma_layout_read(field(bytes, 1007, 8));
        u32::lemma_layout_read(field(bytes, 1015, 4));
        <[u8; 40]>::lemma_layout_read(field(bytes, 1019, 40));
        u8::lemma_layout_read(field(bytes, 1059, 1));
        u32::lemma_layout_read(field(bytes, 1060, 4));
        lemma_field_join(bytes, 0, 2, 1);
        lemma_field_join(bytes, 0, 3, 1);
        lemma_field_join(bytes, 0, 4, 8);
        lemma_field_join(bytes, 0, 12, 8);
        lemma_field_join(bytes, 0, 20, 2);
        lemma_field_join(bytes, 0, 22, 53);
        lemma_field_join(bytes, 0, 75, 840);
        lemma_field_join(bytes, 0, 915, 44);
        lemma_field_join(bytes, 0, 959, 40);
        lemma_field_join(bytes, 0, 999, 8);
        lemma_field_join(bytes, 0, 1007, 8);
        lemma_field_join(bytes, 0, 1015, 4);
        lemma_field_join(bytes, 0, 1019, 40);
        lemma_field_join(bytes, 0, 1059, 1);
        lemma_field_join(bytes, 0, 1060, 4);
        lemma_field_whole(bytes);
    }

    proof fn lemma_sealed_twice(&self) {
        assert(self.sealed().body() == self.body());
    }

    fn zeroed() -> (r: Self) {
        let r = LowState {
            head: <[u8; 2]>::zeroed(),
            level_flag: u8::zeroed(),
            frame_reserve: u8::zeroed(),
            sn: <[u32; 2]>::zeroed(),
            version: <[u32; 2]>::zeroed(),
            bandwidth: u16::zeroed(),
            imu_state: IMUState::zeroed(),
            motor_state: <[MotorState; 20]>::zeroed(),
            bms_state: BmsState::zeroed(),
            wireless_remote: <[u8; 40]>::zeroed(),
            foot_force: <[i16; 4]>::zeroed(),
            foot_force_est: <[i16; 4]>::zeroed(),
            tick: u32::zeroed(),
            wireless_remote2: <[u8; 40]>::zeroed(),
            reserve: u8::zeroed(),
            crc: u32::zeroed(),
        };
        proof {
            lemma_zeros_join(2, 1);
            lemma_zeros_join(3, 1);
            lemma_zeros_join(4, 8);
            lemma_zeros_join(12, 8);
            lemma_zeros_join(20, 2);
            lemma_zeros_join(22, 53);
            lemma_zeros_join(75, 840);
            lemma_zeros_join(915, 44);
            lemma_zeros_join(959, 40);
            lemma_zeros_join(999, 8);
            lemma_zeros_join(1007, 8);
            lemma_zeros_join(1015, 4);
            lemma_zeros_join(1019, 40);
            lemma_zeros_join(1059, 1);
            lemma_zeros_join(1060, 4);
        }
        r
    }

    fn put(&self, out: &mut Vec<u8>) {
        self.put_body(out);
        self.crc.put(out);
    }

    fn take(bytes: &[u8], pos: &mut usize) -> (r: Option<Self>) {
        let start: usize = *pos;
        if start > bytes.len() || bytes.len() - start < 1064 {
            return None;
        }
        let mut p: usize = start;
        let head = <[u8; 2]>::take(bytes, &mut p).unwrap();
        let level_flag = u8::take(bytes, &mut p).unwrap();
        let frame_reserve = u8::take(bytes, &mut p).unwrap();
        let sn = <[u32; 2]>::take(bytes, &mut p).unwrap();
        let version = <[u32; 2]>::take(bytes, &mut p).unwrap();
        let bandwidth = u16::take(bytes, &mut p).unwrap();
        let imu_state = IMUState::take(bytes, &mut p).unwrap();
        let motor_state = <[MotorState; 20]>::take(bytes, &mut p).unwrap();
        let bms_state = BmsState::take(bytes, &mut p).unwrap();
        let wireless_remote = <[u8; 40]>::take(bytes, &mut p).unwrap();
        let foot_force = <[i16; 4]>::take(bytes, &mut p).unwrap();
        let foot_force_est = <[i16; 4]>::take(bytes, &mut p).unwrap();
        let tick = u32::take(bytes, &mut p).unwrap();
        let wireless_remote2 = <[u8; 40]>::take(bytes, &mut p).unwrap();
        let reserve = u8::take(bytes, &mut p).unwrap();
        let crc = u32::take(bytes, &mut p).unwrap();
        proof {
            lemma_field_of_field(bytes@, start as int, 1064, 0, 2);
            lemma_field_of_field(bytes@, start as int, 1064, 2, 1);
            lemma_field_of_field(bytes@, start as int, 1064, 3, 1);
            lemma_field_of_field(bytes@, start as int, 1064, 4, 8);
            lemma_field_of_field(bytes@, start as int, 1064, 12, 8);
            lemma_field_of_field(bytes@, start as int, 1064, 20, 2);
            lemma_field_of_field(bytes@, start as int, 1064, 22, 53);
            lemma_field_of_field(bytes@, start as int, 1064, 75, 840);
            lemma_field_of_field(bytes@, start as int, 1064, 915, 44);
            lemma_field_of_field(bytes@, start as int, 1064, 959, 40);
            lemma_field_of_field(bytes@, start as int, 1064, 999, 8);
            lemma_field_of_field(bytes@, start as int, 1064, 1007, 8);
            lemma_field_of_field(bytes@, start as int, 1064, 1015, 4);
            lemma_field_of_field(bytes@, start as int, 1064, 1019, 40);
            lemma_field_of_field(bytes@, start as int, 1064, 1059, 1);
            lemma_field_of_field(bytes@, start as int, 1064, 1060, 4);
        }
        *pos = p;
        Some(LowState {
            head,
            level_flag,
            frame_reserve,
            sn,
            version,
            bandwidth,
            imu_state,
            motor_state,
            bms_state,
            wireless_remote,
            foot_force,
            foot_force_est,
            tick,
            wireless_remote2,
            reserve,
            crc,
        })
    }

    fn seal(&self) -> (r: Self) {
        LowState { crc: self.compute_checksum(), ..*self }
    }

    fn is_sealed(&self) -> (r: bool) {
        self.crc == self.compute_checksum()
    }
}

} // verus!
