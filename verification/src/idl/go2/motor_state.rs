//! The state of one motor.

use vstd::prelude::*;
use crate::wire::float::Float32;
use crate::wire::{
    field, lemma_field_join, lemma_field_of_field, lemma_field_split, lemma_field_whole,
    lemma_join_grouping, lemma_zeros_join, zeros, Layout,
};

verus! {

/// What one joint motor reports: filtered and raw position, velocity and
/// acceleration, the estimated torque and the temperature.
#[derive(Clone, Copy, Debug, PartialEq, Eq)]
pub struct MotorState {
    /// Control mode in effect.
    pub mode: u8,
    /// Position in radians, filtered.
    pub q: Float32,
    /// Velocity in rad/s, filtered.
    pub dq: Float32,
    /// Acceleration in rad/s^2, filtered.
    pub ddq: Float32,
    /// Estimated torque in Nm.
    pub tau_est: Float32,
    /// Position in radians, as measured.
    pub q_raw: Float32,
    /// Velocity in rad/s, as measured.
    pub dq_raw: Float32,
    /// Acceleration in rad/s^2, as measured.
    pub ddq_raw: Float32,
    /// Temperature of the motor in degrees Celsius.
    pub temperature: u8,
    /// Number of packets lost.
    pub lost: u32,
    /// Reserved.
    pub reserve: [u32; 2],
}

impl Default for MotorState {
    /// The state with every field zero.
    fn default() -> (r: Self)
        ensures
            r.layout() == zeros(Self::size()),
    {
        Self::zeroed()
    }
}

impl Layout for MotorState {
    open spec fn size() -> nat {
        42
    }

    open spec fn layout(&self) -> Seq<u8> {
        self.mode.layout()
            + self.q.layout()
            + self.dq.layout()
            + self.ddq.layout()
            + self.tau_est.layout()
            + self.q_raw.layout()
            + self.dq_raw.layout()
            + self.ddq_raw.layout()
            + self.temperature.layout()
            + self.lost.layout()
            + self.reserve.layout()
    }

    open spec fn read(bytes: Seq<u8>) -> Self {
        MotorState {
            mode: u8::read(field(bytes, 0, 1)),
            q: Float32::read(field(bytes, 1, 4)),
            dq: Float32::read(field(bytes, 5, 4)),
            ddq: Float32::read(field(bytes, 9, 4)),
            tau_est: Float32::read(field(bytes, 13, 4)),
            q_raw: Float32::read(field(bytes, 17, 4)),
            dq_raw: Float32::read(field(bytes, 21, 4)),
            ddq_raw: Float32::read(field(bytes, 25, 4)),
            temperature: u8::read(field(bytes, 29, 1)),
            lost: u32::read(field(bytes, 30, 4)),
            reserve: <[u32; 2]>::read(field(bytes, 34, 8)),
        }
    }

    proof fn lemma_layout_len(&self) {
        self.mode.lemma_layout_len();
        self.q.lemma_layout_len();
        self.dq.lemma_layout_len();
        self.ddq.lemma_layout_len();
        self.tau_est.lemma_layout_len();
        self.q_raw.lemma_layout_len();
        self.dq_raw.lemma_layout_len();
        self.ddq_raw.lemma_layout_len();
        self.temperature.lemma_layout_len();
        self.lost.lemma_layout_len();
        self.reserve.lemma_layout_len();
    }

    proof fn lemma_read_layout(&self) {
        let bytes = self.layout();
        self.lemma_layout_len();
        self.mode.lemma_layout_len();
        self.q.lemma_layout_len();
        self.dq.lemma_layout_len();
        self.ddq.lemma_layout_len();
        self.tau_est.lemma_layout_len();
        self.q_raw.lemma_layout_len();
        self.dq_raw.lemma_layout_len();
        self.ddq_raw.lemma_layout_len();
        self.temperature.lemma_layout_len();
        self.lost.lemma_layout_len();
        self.reserve.lemma_layout_len();
        let to_mode = self.mode.layout();
        let to_q = to_mode + self.q.layout();
        let to_dq = to_q + self.dq.layout();
        let to_ddq = to_dq + self.ddq.layout();
        let to_tau_est = to_ddq + self.tau_est.layout();
        let to_q_raw = to_tau_est + self.q_raw.layout();
        let to_dq_raw = to_q_raw + self.dq_raw.layout();
        let to_ddq_raw = to_dq_raw + self.ddq_raw.layout();
        let to_temperature = to_ddq_raw + self.temperature.layout();
        let to_lost = to_temperature + self.lost.layout();
        lemma_field_split(to_lost, self.reserve.layout());
        lemma_field_split(to_temperature, self.lost.layout());
        lemma_field_of_field(bytes, 0, 34, 0, 30);
        lemma_field_of_field(bytes, 0, 34, 30, 4);
        lemma_field_split(to_ddq_raw, self.temperature.layout());
        lemma_field_of_field(bytes, 0, 30, 0, 29);
        lemma_field_of_field(bytes, 0, 30, 29, 1);
        lemma_field_split(to_dq_raw, self.ddq_raw.layout());
        lemma_field_of_field(bytes, 0, 29, 0, 25);
        lemma_field_of_field(bytes, 0, 29, 25, 4);
        lemma_field_split(to_q_raw, self.dq_raw.layout());
        lemma_field_of_field(bytes, 0, 25, 0, 21);
        lemma_field_of_field(bytes, 0, 25, 21, 4);
        lemma_field_split(to_tau_est, self.q_raw.layout());
        lemma_field_of_field(bytes, 0, 21, 0, 17);
        lemma_field_of_field(bytes, 0, 21, 17, 4);
        lemma_field_split(to_ddq, self.tau_est.layout());
        lemma_field_of_field(bytes, 0, 17, 0, 13);
        lemma_field_of_field(bytes, 0, 17, 13, 4);
        lemma_field_split(to_dq, self.ddq.layout());
        lemma_field_of_field(bytes, 0, 13, 0, 9);
        lemma_field_of_field(bytes, 0, 13, 9, 4);
        lemma_field_split(to_q, self.dq.layout());
        lemma_field_of_field(bytes, 0, 9, 0, 5);
        lemma_field_of_field(bytes, 0, 9, 5, 4);
        lemma_field_split(to_mode, self.q.layout());
        lemma_field_of_field(bytes, 0, 5, 0, 1);
        lemma_field_of_field(bytes, 0, 5, 1, 4);
        self.mode.lemma_read_layout();
        self.q.lemma_read_layout();
        self.dq.lemma_read_layout();
        self.ddq.lemma_read_layout();
        self.tau_est.lemma_read_layout();
        self.q_raw.lemma_read_layout();
        self.dq_raw.lemma_read_layout();
        self.ddq_raw.lemma_read_layout();
        self.temperature.lemma_read_layout();
        self.lost.lemma_read_layout();
        self.reserve.lemma_read_layout();
    }

    proof fn lemma_layout_read(bytes: Seq<u8>) {
        u8::lemma_layout_read(field(bytes, 0, 1));
        Float32::lemma_layout_read(field(bytes, 1, 4));
        Float32::lemma_layout_read(field(bytes, 5, 4));
        Float32::lemma_layout_read(field(bytes, 9, 4));
        Float32::lemma_layout_read(field(bytes, 13, 4));
        Float32::lemma_layout_read(field(bytes, 17, 4));
        Float32::lemma_layout_read(field(bytes, 21, 4));
        Float32::lemma_layout_read(field(bytes, 25, 4));
        u8::lemma_layout_read(field(bytes, 29, 1));
        u32::lemma_layout_read(field(bytes, 30, 4));
        <[u32; 2]>::lemma_layout_read(field(bytes, 34, 8));
        lemma_field_join(bytes, 0, 1, 4);
        lemma_field_join(bytes, 0, 5, 4);
        lemma_field_join(bytes, 0, 9, 4);
        lemma_field_join(bytes, 0, 13, 4);
        lemma_field_join(bytes, 0, 17, 4);
        lemma_field_join(bytes, 0, 21, 4);
        lemma_field_join(bytes, 0, 25, 4);
        lemma_field_join(bytes, 0, 29, 1);
        lemma_field_join(bytes, 0, 30, 4);
        lemma_field_join(bytes, 0, 34, 8);
        lemma_field_whole(bytes);
    }

    proof fn lemma_sealed_twice(&self) {
    }

    fn zeroed() -> (r: Self) {
        let r = MotorState {
            mode: u8::zeroed(),
            q: Float32::zeroed(),
            dq: Float32::zeroed(),
            ddq: Float32::zeroed(),
            tau_est: Float32::zeroed(),
            q_raw: Float32::zeroed(),
            dq_raw: Float32::zeroed(),
            ddq_raw: Float32::zeroed(),
            temperature: u8::zeroed(),
            lost: u32::zeroed(),
            reserve: <[u32; 2]>::zeroed(),
        };
        proof {
            lemma_zeros_join(1, 4);
            lemma_zeros_join(5, 4);
            lemma_zeros_join(9, 4);
            lemma_zeros_join(13, 4);
            lemma_zeros_join(17, 4);
            lemma_zeros_join(21, 4);
            lemma_zeros_join(25, 4);
            lemma_zeros_join(29, 1);
            lemma_zeros_join(30, 4);
            lemma_zeros_join(34, 8);
        }
        r
    }

    fn put(&self, out: &mut Vec<u8>) {
        let ghost start = out@;
        self.mode.put(out);
        self.q.put(out);
        self.dq.put(out);
        self.ddq.put(out);
        self.tau_est.put(out);
        self.q_raw.put(out);
        self.dq_raw.put(out);
        self.ddq_raw.put(out);
        self.temperature.put(out);
        self.lost.put(out);
        self.reserve.put(out);
        proof {
            let to_mode = self.mode.layout();
            lemma_join_grouping(start, to_mode, self.q.layout());
            let to_q = to_mode + self.q.layout();
            lemma_join_grouping(start, to_q, self.dq.layout());
            let to_dq = to_q + self.dq.layout();
            lemma_join_grouping(start, to_dq, self.ddq.layout());
            let to_ddq = to_dq + self.ddq.layout();
            lemma_join_grouping(start, to_ddq, self.tau_est.layout());
            let to_tau_est = to_ddq + self.tau_est.layout();
            lemma_join_grouping(start, to_tau_est, self.q_raw.layout());
            let to_q_raw = to_tau_est + self.q_raw.layout();
            lemma_join_grouping(start, to_q_raw, self.dq_raw.layout());
            let to_dq_raw = to_q_raw + self.dq_raw.layout();
            lemma_join_grouping(start, to_dq_raw, self.ddq_raw.layout());
            let to_ddq_raw = to_dq_raw + self.ddq_raw.layout();
            lemma_join_grouping(start, to_ddq_raw, self.temperature.layout());
            let to_temperature = to_ddq_raw + self.temperature.layout();
            lemma_join_grouping(start, to_temperature, self.lost.layout());
            let to_lost = to_temperature + self.lost.layout();
            lemma_join_grouping(start, to_lost, self.reserve.layout());
        }
    }

    fn take(bytes: &[u8], pos: &mut usize) -> (r: Option<Self>) {
        let start: usize = *pos;
        if start > bytes.len() || bytes.len() - start < 42 {
            return None;
        }
        let mut p: usize = start;
        let mode = u8::take(bytes, &mut p).unwrap();
        let q = Float32::take(bytes, &mut p).unwrap();
        let dq = Float32::take(bytes, &mut p).unwrap();
        let ddq = Float32::take(bytes, &mut p).unwrap();
        let tau_est = Float32::take(bytes, &mut p).unwrap();
        let q_raw = Float32::take(bytes, &mut p).unwrap();
        let dq_raw = Float32::take(bytes, &mut p).unwrap();
        let ddq_raw = Float32::take(bytes, &mut p).unwrap();
        let temperature = u8::take(bytes, &mut p).unwrap();
        let lost = u32::take(bytes, &mut p).unwrap();
        let reserve = <[u32; 2]>::take(bytes, &mut p).unwrap();
        proof {
            lemma_field_of_field(bytes@, start as int, 42, 0, 1);
            lemma_field_of_field(bytes@, start as int, 42, 1, 4);
            lemma_field_of_field(bytes@, start as int, 42, 5, 4);
            lemma_field_of_field(bytes@, start as int, 42, 9, 4);
            lemma_field_of_field(bytes@, start as int, 42, 13, 4);
            lemma_field_of_field(bytes@, start as int, 42, 17, 4);
            lemma_field_of_field(bytes@, start as int, 42, 21, 4);
            lemma_field_of_field(bytes@, start as int, 42, 25, 4);
            lemma_field_of_field(bytes@, start as int, 42, 29, 1);
            lemma_field_of_field(bytes@, start as int, 42, 30, 4);
            lemma_field_of_field(bytes@, start as int, 42, 34, 8);
        }
        *pos = p;
        Some(MotorState {
            mode,
            q,
            dq,
            ddq,
            tau_est,
            q_raw,
            dq_raw,
            ddq_raw,
            temperature,
            lost,
            reserve,
        })
    }

    fn seal(&self) -> (r: Self) {
        *self
    }

    fn is_sealed(&self) -> (r: bool) {
        true
    }
}

} // verus!
