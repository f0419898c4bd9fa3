//! The readings of the inertial measurement unit.

use vstd::prelude::*;
use crate::wire::float::Float32;
use crate::wire::{
    field, lemma_field_join, lemma_field_of_field, lemma_field_split, lemma_field_whole,
    lemma_join_grouping, lemma_zeros_join, zeros, Layout,
};

verus! {

/// Orientation, angular velocity and acceleration as the inertial unit
/// measures them.
#[derive(Clone, Copy, Debug, PartialEq, Eq)]
pub struct IMUState {
    /// Orientation as a quaternion `[w, x, y, z]`.
    pub quaternion: [Float32; 4],
    /// Angular velocity `[x, y, z]` in rad/s.
    pub gyroscope: [Float32; 3],
    /// Linear acceleration `[x, y, z]` in m/s^2.
    pub accelerometer: [Float32; 3],
    /// Roll, pitch and yaw in radians.
    pub rpy: [Float32; 3],
    /// Temperature of the sensor in degrees Celsius.
    pub temperature: u8,
}

impl Default for IMUState {
    /// The reading with every field zero.
    fn default() -> (r: Self)
        ensures
            r.layout() == zeros(Self::size()),
    {
        Self::zeroed()
    }
}

impl Layout for IMUState {
    open spec fn size() -> nat {
        53
    }

    open spec fn layout(&self) -> Seq<u8> {
        self.quaternion.layout()
            + self.gyroscope.layout()
            + self.accelerometer.layout()
            + self.rpy.layout()
            + self.temperature.layout()
    }

    open spec fn read(bytes: Seq<u8>) -> Self {
        IMUState {
            quaternion: <[Float32; 4]>::read(field(bytes, 0, 16)),
            gyroscope: <[Float32; 3]>::read(field(bytes, 16, 12)),
            accelerometer: <[Float32; 3]>::read(field(bytes, 28, 12)),
            rpy: <[Float32; 3]>::read(field(bytes, 40, 12)),
            temperature: u8::read(field(bytes, 52, 1)),
        }
    }

    proof fn lemma_layout_len(&self) {
        self.quaternion.lemma_layout_len();
        self.gyroscope.lemma_layout_len();
        self.accelerometer.lemma_layout_len();
        self.rpy.lemma_layout_len();
        self.temperature.lemma_layout_len();
    }

    proof fn lemma_read_layout(&self) {
        let bytes = self.layout();
        self.lemma_layout_len();
        self.quaternion.lemma_layout_len();
        self.gyroscope.lemma_layout_len();
        self.accelerometer.lemma_layout_len();
        self.rpy.lemma_layout_len();
        self.temperature.lemma_layout_len();
        let to_quaternion = self.quaternion.layout();
        let to_gyroscope = to_quaternion + self.gyroscope.layout();
        let to_accelerometer = to_gyroscope + self.accelerometer.layout();
        let to_rpy = to_accelerometer + self.rpy.layout();
        lemma_field_split(to_rpy, self.temperature.layout());
        lemma_field_split(to_accelerometer, self.rpy.layout());
        lemma_field_of_field(bytes, 0, 52, 0, 40);
        lemma_field_of_field(bytes, 0, 52, 40, 12);
        lemma_field_split(to_gyroscope, self.accelerometer.layout());
        lemma_field_of_field(bytes, 0, 40, 0, 28);
        lemma_field_of_field(bytes, 0, 40, 28, 12);
        lemma_field_split(to_quaternion, self.gyroscope.layout());
        lemma_field_of_field(bytes, 0, 28, 0, 16);
        lemma_field_of_field(bytes, 0, 28, 16, 12);
        self.quaternion.lemma_read_layout();
        self.gyroscope.lemma_read_layout();
        self.accelerometer.lemma_read_layout();
        self.rpy.lemma_read_layout();
        self.temperature.lemma_read_layout();
    }

    proof fn lemma_layout_read(bytes: Seq<u8>) {
        <[Float32; 4]>::lemma_layout_read(field(bytes, 0, 16));
        <[Float32; 3]>::lemma_layout_read(field(bytes, 16, 12));
        <[Float32; 3]>::lemma_layout_read(field(bytes, 28, 12));
        <[Float32; 3]>::lemma_layout_read(field(bytes, 40, 12));
        u8::lemma_layout_read(field(bytes, 52, 1));
        lemma_field_join(bytes, 0, 16, 12);
        lemma_field_join(bytes, 0, 28, 12);
        lemma_field_join(bytes, 0, 40, 12);
        lemma_field_join(bytes, 0, 52, 1);
        lemma_field_whole(bytes);
    }

    proof fn lemma_sealed_twice(&self) {
    }

    fn zeroed() -> (r: Self) {
        let r = IMUState {
            quaternion: <[Float32; 4]>::zeroed(),
            gyroscope: <[Float32; 3]>::zeroed(),
            accelerometer: <[Float32; 3]>::zeroed(),
            rpy: <[Float32; 3]>::zeroed(),
            temperature: u8::zeroed(),
        };
        proof {
            lemma_zeros_join(16, 12);
            lemma_zeros_join(28, 12);
            lemma_zeros_join(40, 12);
            lemma_zeros_join(52, 1);
        }
        r
    }

    fn put(&self, out: &mut Vec<u8>) {
        let ghost start = out@;
        self.quaternion.put(out);
        self.gyroscope.put(out);
        self.accelerometer.put(out);
        self.rpy.put(out);
        self.temperature.put(out);
        proof {
            let to_quaternion = self.quaternion.layout();
            lemma_join_grouping(start, to_quaternion, self.gyroscope.layout());
            let to_gyroscope = to_quaternion + self.gyroscope.layout();
            lemma_join_grouping(start, to_gyroscope, self.accelerometer.layout());
            let to_accelerometer = to_gyroscope + self.accelerometer.layout();
            lemma_join_grouping(start, to_accelerometer, self.rpy.layout());
            let to_rpy = to_accelerometer + self.rpy.layout();
            lemma_join_grouping(start, to_rpy, self.temperature.layout());
        }
    }

    fn take(bytes: &[u8], pos: &mut usize) -> (r: Option<Self>) {
        let start: usize = *pos;
        if start > bytes.len() || bytes.len() - start < 53 {
            return None;
        }
        let mut p: usize = start;
        let quaternion = <[Float32; 4]>::take(bytes, &mut p).unwrap();
        let gyroscope = <[Float32; 3]>::take(bytes, &mut p).unwrap();
        let accelerometer = <[Float32; 3]>::take(bytes, &mut p).unwrap();
        let rpy = <[Float32; 3]>::take(bytes, &mut p).unwrap();
        let temperature = u8::take(bytes, &mut p).unwrap();
        proof {
            lemma_field_of_field(bytes@, start as int, 53, 0, 16);
            lemma_field_of_field(bytes@, start as int, 53, 16, 12);
            lemma_field_of_field(bytes@, start as int, 53, 28, 12);
            lemma_field_of_field(bytes@, start as int, 53, 40, 12);
            lemma_field_of_field(bytes@, start as int, 53, 52, 1);
        }
        *pos = p;
        Some(IMUState { quaternion, gyroscope, accelerometer, rpy, temperature })
    }

    fn seal(&self) -> (r: Self) {
        *self
    }

    fn is_sealed(&self) -> (r: bool) {
        true
    }
}

} // verus!
