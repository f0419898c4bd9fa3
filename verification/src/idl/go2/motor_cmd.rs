//! The command of one motor.

use vstd::prelude::*;
use crate::wire::float::Float32;
use crate::wire::{
    field, lemma_field_join, lemma_field_of_field, lemma_field_split, lemma_field_whole,
    lemma_join_grouping, lemma_zeros_join, zeros, Layout,
};

verus! {

/// The targets of one joint motor: position, velocity, torque and the two
/// gains of its controller.
#[derive(Clone, Copy, Debug, PartialEq, Eq)]
pub struct MotorCmd {
    /// Control mode: 0 idles the motor.
    pub mode: u8,
    /// Target position in radians.
    pub q: Float32,
    /// Target velocity in rad/s.
    pub dq: Float32,
    /// Feed-forward torque in Nm.
    pub tau: Float32,
    /// Proportional gain on the position.
    pub kp: Float32,
    /// Derivative gain on the velocity.
    pub kd: Float32,
    /// Reserved.
    pub reserve: [u32; 3],
}

impl Default for MotorCmd {
    /// The command with every field zero.
    fn default() -> (r: Self)
        ensures
            r.layout() == zeros(Self::size()),
    {
        Self::zeroed()
    }
}

impl Layout for MotorCmd {
    open spec fn size() -> nat {
        33
    }

    open spec fn layout(&self) -> Seq<u8> {
        self.mode.layout()
            + self.q.layout()
            + self.dq.layout()
            + self.tau.layout()
            + self.kp.layout()
            + self.kd.layout()
            + self.reserve.layout()
    }

    open spec fn read(bytes: Seq<u8>) -> Self {
        MotorCmd {
            mode: u8::read(field(bytes, 0, 1)),
            q: Float32::read(field(bytes, 1, 4)),
            dq: Float32::read(field(bytes, 5, 4)),
            tau: Float32::read(field(bytes, 9, 4)),
            kp: Float32::read(field(bytes, 13, 4)),
            kd: Float32::read(field(bytes, 17, 4)),
            reserve: <[u32; 3]>::read(field(bytes, 21, 12)),
        }
    }

    proof fn lemma_layout_len(&self) {
        self.mode.lemma_layout_len();
        self.q.lemma_layout_len();
        self.dq.lemma_layout_len();
        self.tau.lemma_layout_len();
        self.kp.lemma_layout_len();
        self.kd.lemma_layout_len();
        self.reserve.lemma_layout_len();
    }

    proof fn lemma_read_layout(&self) {
        let bytes = self.layout();
        self.lemma_layout_len();
        self.mode.lemma_layout_len();
        self.q.lemma_layout_len();
        self.dq.lemma_layout_len();
        self.tau.lemma_layout_len();
        self.kp.lemma_layout_len();
        self.kd.lemma_layout_len();
        self.reserve.lemma_layout_len();
        let to_mode = self.mode.layout();
        let to_q = to_mode + self.q.layout();
        let to_dq = to_q + self.dq.layout();
        let to_tau = to_dq + self.tau.layout();
        let to_kp = to_tau + self.kp.layout();
        let to_kd = to_kp + self.kd.layout();
        lemma_field_split(to_kd, self.reserve.layout());
        lemma_field_split(to_kp, self.kd.layout());
        lemma_field_of_field(bytes, 0, 21, 0, 17);
        lemma_field_of_field(bytes, 0, 21, 17, 4);
        lemma_field_split(to_tau, self.kp.layout());
        lemma_field_of_field(bytes, 0, 17, 0, 13);
        lemma_field_of_field(bytes, 0, 17, 13, 4);
        lemma_field_split(to_dq, self.tau.layout());
        lemma_field_of_field(bytes, 0, 13, 0, 9);
        lemma_field_of_field(bytes, 0, 13, 9, 4);
        lemma_field_split(to_q, self.dq.layout());
        lemma_field_of_field(bytes, 0, 9, 0, 5);
        lemma_field_of_field(bytes, 0, 9, 5, 4);
        lemma_field_split(to_mode, self.q.layout());
        lemma_field_of_field(bytes, 0, 5, 0, 1);
        lemma_field_of_field(bytes, 0, 5, 1, 4);
        self.mode.lemma_read_layout();
        self.q.lemma_read_layout();
        self.dq.lemma_read_layout();
        self.tau.lemma_read_layout();
        self.kp.lemma_read_layout();
        self.kd.lemma_read_layout();
        self.reserve.lemma_read_layout();
    }

    proof fn lemma_layout_read(bytes: Seq<u8>) {
        u8::lemma_layout_read(field(bytes, 0, 1));
        Float32::lemma_layout_read(field(bytes, 1, 4));
        Float32::lemma_layout_read(field(bytes, 5, 4));
        Float32::lemma_layout_read(field(bytes, 9, 4));
        Float32::lemma_layout_read(field(bytes, 13, 4));
        Float32::lemma_layout_read(field(bytes, 17, 4));
        <[u32; 3]>::lemma_layout_read(field(bytes, 21, 12));
        lemma_field_join(bytes, 0, 1, 4);
        lemma_field_join(bytes, 0, 5, 4);
        lemma_field_join(bytes, 0, 9, 4);
        lemma_field_join(bytes, 0, 13, 4);
        lemma_field_join(bytes, 0, 17, 4);
        lemma_field_join(bytes, 0, 21, 12);
        lemma_field_whole(bytes);
    }

    proof fn lemma_sealed_twice(&self) {
    }

    fn zeroed() -> (r: Self) {
        let r = MotorCmd {
            mode: u8::zeroed(),
            q: Float32::zeroed(),
            dq: Float32::zeroed(),
            tau: Float32::zeroed(),
            kp: Float32::zeroed(),
            kd: Float32::zeroed(),
            reserve: <[u32; 3]>::zeroed(),
        };
        proof {
            lemma_zeros_join(1, 4);
            lemma_zeros_join(5, 4);
            lemma_zeros_join(9, 4);
            lemma_zeros_join(13, 4);
            lemma_zeros_join(17, 4);
            lemma_zeros_join(21, 12);
        }
        r
    }

    fn put(&self, out: &mut Vec<u8>) {
        let ghost start = out@;
        self.mode.put(out);
        self.q.put(out);
        self.dq.put(out);
        self.tau.put(out);
        self.kp.put(out);
        self.kd.put(out);
        self.reserve.put(out);
        proof {
            let to_mode = self.mode.layout();
            lemma_join_grouping(start, to_mode, self.q.layout());
            let to_q = to_mode + self.q.layout();
            lemma_join_grouping(start, to_q, self.dq.layout());
            let to_dq = to_q + self.dq.layout();
            lemma_join_grouping(start, to_dq, self.tau.layout());
            let to_tau = to_dq + self.tau.layout();
            lemma_join_grouping(start, to_tau, self.kp.layout());
            let to_kp = to_tau + self.kp.layout();
            lemma_join_grouping(start, to_kp, self.kd.layout());
            let to_kd = to_kp + self.kd.layout();
            lemma_join_grouping(start, to_kd, self.reserve.layout());
        }
    }

    fn take(bytes: &[u8], pos: &mut usize) -> (r: Option<Self>) {
        let start: usize = *pos;
        if start > bytes.len() || bytes.len() - start < 33 {
            return None;
        }
        let mut p: usize = start;
        let mode = u8::take(bytes, &mut p).unwrap();
        let q = Float32::take(bytes, &mut p).unwrap();
        let dq = Float32::take(bytes, &mut p).unwrap();
        let tau = Float32::take(bytes, &mut p).unwrap();
        let kp = Float32::take(bytes, &mut p).unwrap();
        let kd = Float32::take(bytes, &mut p).unwrap();
        let reserve = <[u32; 3]>::take(bytes, &mut p).unwrap();
        proof {
            lemma_field_of_field(bytes@, start as int, 33, 0, 1);
            lemma_field_of_field(bytes@, start as int, 33, 1, 4);
            lemma_field_of_field(bytes@, start as int, 33, 5, 4);
            lemma_field_of_field(bytes@, start as int, 33, 9, 4);
            lemma_field_of_field(bytes@, start as int, 33, 13, 4);
            lemma_field_of_field(bytes@, start as int, 33, 17, 4);
            lemma_field_of_field(bytes@, start as int, 33, 21, 12);
        }
        *pos = p;
        Some(MotorCmd { mode, q, dq, tau, kp, kd, reserve })
    }

    fn seal(&self) -> (r: Self) {
        *self
    }

    fn is_sealed(&self) -> (r: bool) {
        true
    }
}

} // verus!
