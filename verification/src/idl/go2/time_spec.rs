//! The timestamp.

use vstd::prelude::*;
use crate::wire::{
    field, lemma_field_join, lemma_field_of_field, lemma_field_split, lemma_field_whole,
    lemma_join_grouping, lemma_zeros_join, zeros, Layout,
};

verus! {

/// A point in time, as seconds and nanoseconds.
#[derive(Clone, Copy, Debug, PartialEq, Eq)]
pub struct TimeSpec {
    /// Whole seconds since the epoch.
    pub sec: i32,
    /// The nanoseconds beyond the second.
    pub nanosec: u32,
}

impl Default for TimeSpec {
    /// The timestamp with every field zero.
    fn default() -> (r: Self)
        ensures
            r.layout() == zeros(Self::size()),
    {
        Self::zeroed()
    }
}

impl Layout for TimeSpec {
    open spec fn size() -> nat {
        8
    }

    open spec fn layout(&self) -> Seq<u8> {
        self.sec.layout() + self.nanosec.layout()
    }

    open spec fn read(bytes: Seq<u8>) -> Self {
        TimeSpec {
            sec: i32::read(field(bytes, 0, 4)),
            nanosec: u32::read(field(bytes, 4, 4)),
        }
    }

    proof fn lemma_layout_len(&self) {
        self.sec.lemma_layout_len();
        self.nanosec.lemma_layout_len();
    }

    proof fn lemma_read_layout(&self) {
        let bytes = self.layout();
        self.lemma_layout_len();
        self.sec.lemma_layout_len();
        self.nanosec.lemma_layout_len();
        let to_sec = self.sec.layout();
        lemma_field_split(to_sec, self.nanosec.layout());
        self.sec.lemma_read_layout();
        self.nanosec.lemma_read_layout();
    }

    proof fn lemma_layout_read(bytes: Seq<u8>) {
        i32::lemma_layout_read(field(bytes, 0, 4));
        u32::lemma_layout_read(field(bytes, 4, 4));
        lemma_field_join(bytes, 0, 4, 4);
        lemma_field_whole(bytes);
    }

    proof fn lemma_sealed_twice(&self) {
    }

    fn zeroed() -> (r: Self) {
        let r = TimeSpec {
            sec: i32::zeroed(),
            nanosec: u32::zeroed(),
        };
        proof {
            lemma_zeros_join(4, 4);
        }
        r
    }

    fn put(&self, out: &mut Vec<u8>) {
        let ghost start = out@;
        self.sec.put(out);
        self.nanosec.put(out);
        proof {
            let to_sec = self.sec.layout();
            lemma_join_grouping(start, to_sec, self.nanosec.layout());
        }
    }

    fn take(bytes: &[u8], pos: &mut usize) -> (r: Option<Self>) {
        let start: usize = *pos;
        if start > bytes.len() || bytes.len() - start < 8 {
            return None;
        }
        let mut p: usize = start;
        let sec = i32::take(bytes, &mut p).unwrap();
        let nanosec = u32::take(bytes, &mut p).unwrap();
        proof {
            lemma_field_of_field(bytes@, start as int, 8, 0, 4);
            lemma_field_of_field(bytes@, start as int, 8, 4, 4);
        }
        *pos = p;
        Some(TimeSpec { sec, nanosec })
    }

    fn seal(&self) -> (r: Self) {
        *self
    }

    fn is_sealed(&self) -> (r: bool) {
        true
    }
}

} // verus!
