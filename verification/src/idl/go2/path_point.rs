//! The waypoint of a trajectory.

use vstd::prelude::*;
use crate::wire::float::Float32;
use crate::wire::{
    field, lemma_field_join, lemma_field_of_field, lemma_field_split, lemma_field_whole,
    lemma_join_grouping, lemma_zeros_join, zeros, Layout,
};

verus! {

/// One point of a planned trajectory: when it is reached, where it lies and
/// how fast the robot moves there.
#[derive(Clone, Copy, Debug, PartialEq, Eq)]
pub struct PathPoint {
    /// Time since the start of the trajectory, in seconds.
    pub t_from_start: Float32,
    /// Position along x in meters.
    pub x: Float32,
    /// Position along y in meters.
    pub y: Float32,
    /// Heading in radians.
    pub yaw: Float32,
    /// Velocity along x in m/s.
    pub vx: Float32,
    /// Velocity along y in m/s.
    pub vy: Float32,
    /// Yaw rate in rad/s.
    pub vyaw: Float32,
}

impl Default for PathPoint {
    /// The waypoint with every field zero.
    fn default() -> (r: Self)
        ensures
            r.layout() == zeros(Self::size()),
    {
        Self::zeroed()
    }
}

impl Layout for PathPoint {
    open spec fn size() -> nat {
        28
    }

    open spec fn layout(&self) -> Seq<u8> {
        self.t_from_start.layout()
            + self.x.layout()
            + self.y.layout()
            + self.yaw.layout()
            + self.vx.layout()
            + self.vy.layout()
            + self.vyaw.layout()
    }

    open spec fn read(bytes: Seq<u8>) -> Self {
        PathPoint {
            t_from_start: Float32::read(field(bytes, 0, 4)),
            x: Float32::read(field(bytes, 4, 4)),
            y: Float32::read(field(bytes, 8, 4)),
            yaw: Float32::read(field(bytes, 12, 4)),
            vx: Float32::read(field(bytes, 16, 4)),
            vy: Float32::read(field(bytes, 20, 4)),
            vyaw: Float32::read(field(bytes, 24, 4)),
        }
    }

    proof fn lemma_layout_len(&self) {
        self.t_from_start.lemma_layout_len();
        self.x.lemma_layout_len();
        self.y.lemma_layout_len();
        self.yaw.lemma_layout_len();
        self.vx.lemma_layout_len();
        self.vy.lemma_layout_len();
        self.vyaw.lemma_layout_len();
    }

    proof fn lemma_read_layout(&self) {
        let bytes = self.layout();
        self.lemma_layout_len();
        self.t_from_start.lemma_layout_len();
        self.x.lemma_layout_len();
        self.y.lemma_layout_len();
        self.yaw.lemma_layout_len();
        self.vx.lemma_layout_len();
        self.vy.lemma_layout_len();
        self.vyaw.lemma_layout_len();
        let to_t_from_start = self.t_from_start.layout();
        let to_x = to_t_from_start + self.x.layout();
        let to_y = to_x + self.y.layout();
        let to_yaw = to_y + self.yaw.layout();
        let to_vx = to_yaw + self.vx.layout();
        let to_vy = to_vx + self.vy.layout();
        lemma_field_split(to_vy, self.vyaw.layout());
        lemma_field_split(to_vx, self.vy.layout());
        lemma_field_of_field(bytes, 0, 24, 0, 20);
        lemma_field_of_field(bytes, 0, 24, 20, 4);
        lemma_field_split(to_yaw, self.vx.layout());
        lemma_field_of_field(bytes, 0, 20, 0, 16);
        lemma_field_of_field(bytes, 0, 20, 16, 4);
        lemma_field_split(to_y, self.yaw.layout());
        lemma_field_of_field(bytes, 0, 16, 0, 12);
        lemma_field_of_field(bytes, 0, 16, 12, 4);
        lemma_field_split(to_x, self.y.layout());
        lemma_field_of_field(bytes, 0, 12, 0, 8);
        lemma_field_of_field(bytes, 0, 12, 8, 4);
        lemma_field_split(to_t_from_start, self.x.layout());
        lemma_field_of_field(bytes, 0, 8, 0, 4);
        lemma_field_of_field(bytes, 0, 8, 4, 4);
        self.t_from_start.lemma_read_layout();
        self.x.lemma_read_layout();
        self.y.lemma_read_layout();
        self.yaw.lemma_read_layout();
        self.vx.lemma_read_layout();
        self.vy.lemma_read_layout();
        self.vyaw.lemma_read_layout();
    }

    proof fn lemma_layout_read(bytes: Seq<u8>) {
        Float32::lemma_layout_read(field(bytes, 0, 4));
        Float32::lemma_layout_read(field(bytes, 4, 4));
        Float32::lemma_layout_read(field(bytes, 8, 4));
        Float32::lemma_layout_read(field(bytes, 12, 4));
        Float32::lemma_layout_read(field(bytes, 16, 4));
        Float32::lemma_layout_read(field(bytes, 20, 4));
        Float32::lemma_layout_read(field(bytes, 24, 4));
        lemma_field_join(bytes, 0, 4, 4);
        lemma_field_join(bytes, 0, 8, 4);
        lemma_field_join(bytes, 0, 12, 4);
        lemma_field_join(bytes, 0, 16, 4);
        lemma_field_join(bytes, 0, 20, 4);
        lemma_field_join(bytes, 0, 24, 4);
        lemma_field_whole(bytes);
    }

    proof fn lemma_sealed_twice(&self) {
    }

    fn zeroed() -> (r: Self) {
        let r = PathPoint {
            t_from_start: Float32::zeroed(),
            x: Float32::zeroed(),
            y: Float32::zeroed(),
            yaw: Float32::zeroed(),
            vx: Float32::zeroed(),
            vy: Float32::zeroed(),
            vyaw: Float32::zeroed(),
        };
        proof {
            lemma_zeros_join(4, 4);
            lemma_zeros_join(8, 4);
            lemma_zeros_join(12, 4);
            lemma_zeros_join(16, 4);
            lemma_zeros_join(20, 4);
            lemma_zeros_join(24, 4);
        }
        r
    }

    fn put(&self, out: &mut Vec<u8>) {
        let ghost start = out@;
        self.t_from_start.put(out);
        self.x.put(out);
        self.y.put(out);
        self.yaw.put(out);
        self.vx.put(out);
        self.vy.put(out);
        self.vyaw.put(out);
        proof {
            let to_t_from_start = self.t_from_start.layout();
            lemma_join_grouping(start, to_t_from_start, self.x.layout());
            let to_x = to_t_from_start + self.x.layout();
            lemma_join_grouping(start, to_x, self.y.layout());
            let to_y = to_x + self.y.layout();
            lemma_join_grouping(start, to_y, self.yaw.layout());
            let to_yaw = to_y + self.yaw.layout();
            lemma_join_grouping(start, to_yaw, self.vx.layout());
            let to_vx = to_yaw + self.vx.layout();
            lemma_join_grouping(start, to_vx, self.vy.layout());
            let to_vy = to_vx + self.vy.layout();
            lemma_join_grouping(start, to_vy, self.vyaw.layout());
        }
    }

    fn take(bytes: &[u8], pos: &mut usize) -> (r: Option<Self>) {
        let start: usize = *pos;
        if start > bytes.len() || bytes.len() - start < 28 {
            return None;
        }
        let mut p: usize = start;
        let t_from_start = Float32::take(bytes, &mut p).unwrap();
        let x = Float32::take(bytes, &mut p).unwrap();
        let y = Float32::take(bytes, &mut p).unwrap();
        let yaw = Float32::take(bytes, &mut p).unwrap();
        let vx = Float32::take(bytes, &mut p).unwrap();
        let vy = Float32::take(bytes, &mut p).unwrap();
        let vyaw = Float32::take(bytes, &mut p).unwrap();
        proof {
            lemma_field_of_field(bytes@, start as int, 28, 0, 4);
            lemma_field_of_field(bytes@, start as int, 28, 4, 4);
            lemma_field_of_field(bytes@, start as int, 28, 8, 4);
            lemma_field_of_field(bytes@, start as int, 28, 12, 4);
            lemma_field_of_field(bytes@, start as int, 28, 16, 4);
            lemma_field_of_field(bytes@, start as int, 28, 20, 4);
            lemma_field_of_field(bytes@, start as int, 28, 24, 4);
        }
        *pos = p;
        Some(PathPoint { t_from_start, x, y, yaw, vx, vy, vyaw })
    }

    fn seal(&self) -> (r: Self) {
        *self
    }

    fn is_sealed(&self) -> (r: bool) {
        true
    }
}

} // verus!
