//! The telemetry of sport mode.

use vstd::prelude::*;
use crate::idl::go2::IMUState;
use crate::idl::go2::PathPoint;
use crate::idl::go2::TimeSpec;
use crate::wire::float::Float32;
use crate::wire::{
    field, lemma_field_join, lemma_field_of_field, lemma_field_split, lemma_field_whole,
    lemma_join_grouping, lemma_zeros_join, zeros, Layout,
};

verus! {

/// What the robot reports while it walks: pose, velocity, gait, the forces
/// at its feet and the trajectory it plans to follow.
#[derive(Clone, Copy, Debug, PartialEq, Eq)]
pub struct SportModeState {
    /// When the state was taken.
    pub stamp: TimeSpec,
    /// Zero unless something is wrong.
    pub error_code: u32,
    /// Readings of the inertial unit.
    pub imu_state: IMUState,
    /// Locomotion mode in effect.
    pub mode: u8,
    /// Progress of the running motion, from 0 to 1.
    pub progress: Float32,
    /// Gait in effect.
    pub gait_type: u8,
    /// Height to which the feet are raised, in meters.
    pub foot_raise_height: Float32,
    /// Position `[x, y, z]` in meters.
    pub position: [Float32; 3],
    /// Height of the body in meters.
    pub body_height: Float32,
    /// Velocity `[vx, vy, vz]` in m/s.
    pub velocity: [Float32; 3],
    /// Yaw rate in rad/s.
    pub yaw_speed: Float32,
    /// Distance to the nearest obstacle in front, right, rear and left, in meters.
    pub range_obstacle: [Float32; 4],
    /// Contact force at each foot.
    pub foot_force: [i16; 4],
    /// Position of each foot relative to the body, three axes per leg.
    pub foot_position_body: [Float32; 12],
    /// Velocity of each foot relative to the body, three axes per leg.
    pub foot_speed_body: [Float32; 12],
    /// The next ten waypoints of the planned trajectory.
    pub path_point: [PathPoint; 10],
}

impl Default for SportModeState {
    /// The state with every field zero.
    fn default() -> (r: Self)
        ensures
            r.layout() == zeros(Self::size()),
    {
        Self::zeroed()
    }
}

impl Layout for SportModeState {
    open spec fn size() -> nat {
        507
    }

    open spec fn layout(&self) -> Seq<u8> {
        self.stamp.layout()
            + self.error_code.layout()
            + self.imu_state.layout()
            + self.mode.layout()
            + self.progress.layout()
            + self.gait_type.layout()
            + self.foot_raise_height.layout()
            + self.position.layout()
            + self.body_height.layout()
            + self.velocity.layout()
            + self.yaw_speed.layout()
            + self.range_obstacle.layout()
            + self.foot_force.layout()
            + self.foot_position_body.layout()
            + self.foot_speed_body.layout()
            + self.path_point.layout()
    }

    open spec fn read(bytes: Seq<u8>) -> Self {
        SportModeState {
            stamp: TimeSpec::read(field(bytes, 0, 8)),
            error_code: u32::read(field(bytes, 8, 4)),
            imu_state: IMUState::read(field(bytes, 12, 53)),
            mode: u8::read(field(bytes, 65, 1)),
            progress: Float32::read(field(bytes, 66, 4)),
            gait_type: u8::read(field(bytes, 70, 1)),
            foot_raise_height: Float32::read(field(bytes, 71, 4)),
            position: <[Float32; 3]>::read(field(bytes, 75, 12)),
            body_height: Float32::read(field(bytes, 87, 4)),
            velocity: <[Float32; 3]>::read(field(bytes, 91, 12)),
            yaw_speed: Float32::read(field(bytes, 103, 4)),
            range_obstacle: <[Float32; 4]>::read(field(bytes, 107, 16)),
            foot_force: <[i16; 4]>::read(field(bytes, 123, 8)),
            foot_position_body: <[Float32; 12]>::read(field(bytes, 131, 48)),
            foot_speed_body: <[Float32; 12]>::read(field(bytes, 179, 48)),
            path_point: <[PathPoint; 10]>::read(field(bytes, 227, 280)),
        }
    }

    proof fn lemma_layout_len(&self) {
        self.stamp.lemma_layout_len();
        self.error_code.lemma_layout_len();
        self.imu_state.lemma_layout_len();
        self.mode.lemma_layout_len();
        self.progress.lemma_layout_len();
        self.gait_type.lemma_layout_len();
        self.foot_raise_height.lemma_layout_len();
        self.position.lemma_layout_len();
        self.body_height.lemma_layout_len();
        self.velocity.lemma_layout_len();
        self.yaw_speed.lemma_layout_len();
        self.range_obstacle.lemma_layout_len();
        self.foot_force.lemma_layout_len();
        self.foot_position_body.lemma_layout_len();
        self.foot_speed_body.lemma_layout_len();
        self.path_point.lemma_layout_len();
    }

    proof fn lemma_read_layout(&self) {
        let bytes = self.layout();
        self.lemma_layout_len();
        self.stamp.lemma_layout_len();
        self.error_code.lemma_layout_len();
        self.imu_state.lemma_layout_len();
        self.mode.lemma_layout_len();
        self.progress.lemma_layout_len();
        self.gait_type.lemma_layout_len();
        self.foot_raise_height.lemma_layout_len();
        self.position.lemma_layout_len();
        self.body_height.lemma_layout_len();
        self.velocity.lemma_layout_len();
        self.yaw_speed.lemma_layout_len();
        self.range_obstacle.lemma_layout_len();
        self.foot_force.lemma_layout_len();
        self.foot_position_body.lemma_layout_len();
        self.foot_speed_body.lemma_layout_len();
        self.path_point.lemma_layout_len();
        let to_stamp = self.stamp.layout();
        let to_error_code = to_stamp + self.error_code.layout();
        let to_imu_state = to_error_code + self.imu_state.layout();
        let to_mode = to_imu_state + self.mode.layout();
        let to_progress = to_mode + self.progress.layout();
        let to_gait_type = to_progress + self.gait_type.layout();
        let to_foot_raise_height = to_gait_type + self.foot_raise_height.layout();
        let to_position = to_foot_raise_height + self.position.layout();
        let to_body_height = to_position + self.body_height.layout();
        let to_velocity = to_body_height + self.velocity.layout();
        let to_yaw_speed = to_velocity + self.yaw_speed.layout();
        let to_range_obstacle = to_yaw_speed + self.range_obstacle.layout();
        let to_foot_force = to_range_obstacle + self.foot_force.layout();
        let to_foot_position_body = to_foot_force + self.foot_position_body.layout();
        let to_foot_speed_body = to_foot_position_body + self.foot_speed_body.layout();
        lemma_field_split(to_foot_speed_body, self.path_point.layout());
        lemma_field_split(to_foot_position_body, self.foot_speed_body.layout());
        lemma_field_of_field(bytes, 0, 227, 0, 179);
        lemma_field_of_field(bytes, 0, 227, 179, 48);
        lemma_field_split(to_foot_force, self.foot_position_body.layout());
        lemma_field_of_field(bytes, 0, 179, 0, 131);
        lemma_field_of_field(bytes, 0, 179, 131, 48);
        lemma_field_split(to_range_obstacle, self.foot_force.layout());
        lemma_field_of_field(bytes, 0, 131, 0, 123);
        lemma_field_of_field(bytes, 0, 131, 123, 8);
        lemma_field_split(to_yaw_speed, self.range_obstacle.layout());
        lemma_field_of_field(bytes, 0, 123, 0, 107);
        lemma_field_of_field(bytes, 0, 123, 107, 16);
        lemma_field_split(to_velocity, self.yaw_speed.layout());
        lemma_field_of_field(bytes, 0, 107, 0, 103);
        lemma_field_of_field(bytes, 0, 107, 103, 4);
        lemma_field_split(to_body_height, self.velocity.layout());
        lemma_field_of_field(bytes, 0, 103, 0, 91);
        lemma_field_of_field(bytes, 0, 103, 91, 12);
        lemma_field_split(to_position, self.body_height.layout());
        lemma_field_of_field(bytes, 0, 91, 0, 87);
        lemma_field_of_field(bytes, 0, 91, 87, 4);
        lemma_field_split(to_foot_raise_height, self.position.layout());
        lemma_field_of_field(bytes, 0, 87, 0, 75);
        lemma_field_of_field(bytes, 0, 87, 75, 12);
        lemma_field_split(to_gait_type, self.foot_raise_height.layout());
        lemma_field_of_field(bytes, 0, 75, 0, 71);
        lemma_field_of_field(bytes, 0, 75, 71, 4);
        lemma_field_split(to_progress, self.gait_type.layout());
        lemma_field_of_field(bytes, 0, 71, 0, 70);
        lemma_field_of_field(bytes, 0, 71, 70, 1);
        lemma_field_split(to_mode, self.progress.layout());
        lemma_field_of_field(bytes, 0, 70, 0, 66);
        lemma_field_of_field(bytes, 0, 70, 66, 4);
        lemma_field_split(to_imu_state, self.mode.layout());
        lemma_field_of_field(bytes, 0, 66, 0, 65);
        lemma_field_of_field(bytes, 0, 66, 65, 1);
        lemma_field_split(to_error_code, self.imu_state.layout());
        lemma_field_of_field(bytes, 0, 65, 0, 12);
        lemma_field_of_field(bytes, 0, 65, 12, 53);
        lemma_field_split(to_stamp, self.error_code.layout());
        lemma_field_of_field(bytes, 0, 12, 0, 8);
        lemma_field_of_field(bytes, 0, 12, 8, 4);
        self.stamp.lemma_read_layout();
        self.error_code.lemma_read_layout();
        self.imu_state.lemma_read_layout();
        self.mode.lemma_read_layout();
        self.progress.lemma_read_layout();
        self.gait_type.lemma_read_layout();
        self.foot_raise_height.lemma_read_layout();
        self.position.lemma_read_layout();
        self.body_height.lemma_read_layout();
        self.velocity.lemma_read_layout();
        self.yaw_speed.lemma_read_layout();
        self.range_obstacle.lemma_read_layout();
        self.foot_force.lemma_read_layout();
        self.foot_position_body.lemma_read_layout();
        self.foot_speed_body.lemma_read_layout();
        self.path_point.lemma_read_layout();
    }

    proof fn lemma_layout_read(bytes: Seq<u8>) {
        TimeSpec::lemma_layout_read(field(bytes, 0, 8));
        u32::lemma_layout_read(field(bytes, 8, 4));
        IMUState::lemma_layout_read(field(bytes, 12, 53));
        u8::lemma_layout_read(field(bytes, 65, 1));
        Float32::lemma_layout_read(field(bytes, 66, 4));
        u8::lemma_layout_read(field(bytes, 70, 1));
        Float32::lemma_layout_read(field(bytes, 71, 4));
        <[Float32; 3]>::lemma_layout_read(field(bytes, 75, 12));
        Float32::lemma_layout_read(field(bytes, 87, 4));
        <[Float32; 3]>::lemma_layout_read(field(bytes, 91, 12));
        Float32::lemma_layout_read(field(bytes, 103, 4));
        <[Float32; 4]>::lemma_layout_read(field(bytes, 107, 16));
        <[i16; 4]>::lemma_layout_read(field(bytes, 123, 8));
        <[Float32; 12]>::lemma_layout_read(field(bytes, 131, 48));
        <[Float32; 12]>::lemma_layout_read(field(bytes, 179, 48));
        <[PathPoint; 10]>::lemma_layout_read(field(bytes, 227, 280));
        lemma_field_join(bytes, 0, 8, 4);
        lemma_field_join(bytes, 0, 12, 53);
        lemma_field_join(bytes, 0, 65, 1);
        lemma_field_join(bytes, 0, 66, 4);
        lemma_field_join(bytes, 0, 70, 1);
        lemma_field_join(bytes, 0, 71, 4);
        lemma_field_join(bytes, 0, 75, 12);
        lemma_field_join(bytes, 0, 87, 4);
        lemma_field_join(bytes, 0, 91, 12);
        lemma_field_join(bytes, 0, 103, 4);
        lemma_field_join(bytes, 0, 107, 16);
        lemma_field_join(bytes, 0, 123, 8);
        lemma_field_join(bytes, 0, 131, 48);
        lemma_field_join(bytes, 0, 179, 48);
        lemma_field_join(bytes, 0, 227, 280);
        lemma_field_whole(bytes);
    }

    proof fn lemma_sealed_twice(&self) {
    }

    fn zeroed() -> (r: Self) {
        let r = SportModeState {
            stamp: TimeSpec::zeroed(),
            error_code: u32::zeroed(),
            imu_state: IMUState::zeroed(),
            mode: u8::zeroed(),
            progress: Float32::zeroed(),
            gait_type: u8::zeroed(),
            foot_raise_height: Float32::zeroed(),
            position: <[Float32; 3]>::zeroed(),
            body_height: Float32::zeroed(),
            velocity: <[Float32; 3]>::zeroed(),
            yaw_speed: Float32::zeroed(),
            range_obstacle: <[Float32; 4]>::zeroed(),
            foot_force: <[i16; 4]>::zeroed(),
            foot_position_body: <[Float32; 12]>::zeroed(),
            foot_speed_body: <[Float32; 12]>::zeroed(),
            path_point: <[PathPoint; 10]>::zeroed(),
        };
        proof {
            lemma_zeros_join(8, 4);
            lemma_zeros_join(12, 53);
            lemma_zeros_join(65, 1);
            lemma_zeros_join(66, 4);
            lemma_zeros_join(70, 1);
            lemma_zeros_join(71, 4);
            lemma_zeros_join(75, 12);
            lemma_zeros_join(87, 4);
            lemma_zeros_join(91, 12);
            lemma_zeros_join(103, 4);
            lemma_zeros_join(107, 16);
            lemma_zeros_join(123, 8);
            lemma_zeros_join(131, 48);
            lemma_zeros_join(179, 48);
            lemma_zeros_join(227, 280);
        }
        r
    }

    fn put(&self, out: &mut Vec<u8>) {
        let ghost start = out@;
        self.stamp.put(out);
        self.error_code.put(out);
        self.imu_state.put(out);
        self.mode.put(out);
        self.progress.put(out);
        self.gait_type.put(out);
        self.foot_raise_height.put(out);
        self.position.put(out);
        self.body_height.put(out);
        self.velocity.put(out);
        self.yaw_speed.put(out);
        self.range_obstacle.put(out);
        self.foot_force.put(out);
        self.foot_position_body.put(out);
        self.foot_speed_body.put(out);
        self.path_point.put(out);
        proof {
            let to_stamp = self.stamp.layout();
            lemma_join_grouping(start, to_stamp, self.error_code.layout());
            let to_error_code = to_stamp + self.error_code.layout();
            lemma_join_grouping(start, to_error_code, self.imu_state.layout());
            let to_imu_state = to_error_code + self.imu_state.layout();
            lemma_join_grouping(start, to_imu_state, self.mode.layout());
            let to_mode = to_imu_state + self.mode.layout();
            lemma_join_grouping(start, to_mode, self.progress.layout());
            let to_progress = to_mode + self.progress.layout();
            lemma_join_grouping(start, to_progress, self.gait_type.layout());
            let to_gait_type = to_progress + self.gait_type.layout();
            lemma_join_grouping(start, to_gait_type, self.foot_raise_height.layout());
            let to_foot_raise_height = to_gait_type + self.foot_raise_height.layout();
            lemma_join_grouping(start, to_foot_raise_height, self.position.layout());
            let to_position = to_foot_raise_height + self.position.layout();
            lemma_join_grouping(start, to_position, self.body_height.layout());
            let to_body_height = to_position + self.body_height.layout();
            lemma_join_grouping(start, to_body_height, self.velocity.layout());
            let to_velocity = to_body_height + self.velocity.layout();
            lemma_join_grouping(start, to_velocity, self.yaw_speed.layout());
            let to_yaw_speed = to_velocity + self.yaw_speed.layout();
            lemma_join_grouping(start, to_yaw_speed, self.range_obstacle.layout());
            let to_range_obstacle = to_yaw_speed + self.range_obstacle.layout();
            lemma_join_grouping(start, to_range_obstacle, self.foot_force.layout());
            let to_foot_force = to_range_obstacle + self.foot_force.layout();
            lemma_join_grouping(start, to_foot_force, self.foot_position_body.layout());
            let to_foot_position_body = to_foot_force + self.foot_position_body.layout();
            lemma_join_grouping(start, to_foot_position_body, self.foot_speed_body.layout());
            let to_foot_speed_body = to_foot_position_body + self.foot_speed_body.layout();
            lemma_join_grouping(start, to_foot_speed_body, self.path_point.layout());
        }
    }

    fn take(bytes: &[u8], pos: &mut usize) -> (r: Option<Self>) {
        let start: usize = *pos;
        if start > bytes.len() || bytes.len() - start < 507 {
            return None;
        }
        let mut p: usize = start;
        let stamp = TimeSpec::take(bytes, &mut p).unwrap();
        let error_code = u32::take(bytes, &mut p).unwrap();
        let imu_state = IMUState::take(bytes, &mut p).unwrap();
        let mode = u8::take(bytes, &mut p).unwrap();
        let progress = Float32::take(bytes, &mut p).unwrap();
        let gait_type = u8::take(bytes, &mut p).unwrap();
        let foot_raise_height = Float32::take(bytes, &mut p).unwrap();
        let position = <[Float32; 3]>::take(bytes, &mut p).unwrap();
        let body_height = Float32::take(bytes, &mut p).unwrap();
        let velocity = <[Float32; 3]>::take(bytes, &mut p).unwrap();
        let yaw_speed = Float32::take(bytes, &mut p).unwrap();
        let range_obstacle = <[Float32; 4]>::take(bytes, &mut p).unwrap();
        let foot_force = <[i16; 4]>::take(bytes, &mut p).unwrap();
        let foot_position_body = <[Float32; 12]>::take(bytes, &mut p).unwrap();
        let foot_speed_body = <[Float32; 12]>::take(bytes, &mut p).unwrap();
        let path_point = <[PathPoint; 10]>::take(bytes, &mut p).unwrap();
        proof {
            lemma_field_of_field(bytes@, start as int, 507, 0, 8);
            lemma_field_of_field(bytes@, start as int, 507, 8, 4);
            lemma_field_of_field(bytes@, start as int, 507, 12, 53);
            lemma_field_of_field(bytes@, start as int, 507, 65, 1);
            lemma_field_of_field(bytes@, start as int, 507, 66, 4);
            lemma_field_of_field(bytes@, start as int, 507, 70, 1);
            lemma_field_of_field(bytes@, start as int, 507, 71, 4);
            lemma_field_of_field(bytes@, start as int, 507, 75, 12);
            lemma_field_of_field(bytes@, start as int, 507, 87, 4);
            lemma_field_of_field(bytes@, start as int, 507, 91, 12);
            lemma_field_of_field(bytes@, start as int, 507, 103, 4);
            lemma_field_of_field(bytes@, start as int, 507, 107, 16);
            lemma_field_of_field(bytes@, start as int, 507, 123, 8);
            lemma_field_of_field(bytes@, start as int, 507, 131, 48);
            lemma_field_of_field(bytes@, start as int, 507, 179, 48);
            lemma_field_of_field(bytes@, start as int, 507, 227, 280);
        }
        *pos = p;
        Some(SportModeState {
            stamp,
            error_code,
            imu_state,
            mode,
            progress,
            gait_type,
            foot_raise_height,
            position,
            body_height,
            velocity,
            yaw_speed,
            range_obstacle,
            foot_force,
            foot_position_body,
            foot_speed_body,
            path_point,
        })
    }

    fn seal(&self) -> (r: Self) {
        *self
    }

    fn is_sealed(&self) -> (r: bool) {
        true
    }
}

} // verus!
