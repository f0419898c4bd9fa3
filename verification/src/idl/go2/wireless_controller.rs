//! The state of the handheld controller.

use vstd::prelude::*;
use crate::wire::float::Float32;
use crate::wire::{
    field, lemma_field_join, lemma_field_of_field, lemma_field_split, lemma_field_whole,
    lemma_join_grouping, lemma_zeros_join, zeros, Layout,
};

verus! {

/// The position of the two sticks and the buttons held down.
#[derive(Clone, Copy, Debug, PartialEq, Eq)]
pub struct WirelessController {
    /// Left stick, x axis, from -1 to 1.
    pub lx: Float32,
    /// Left stick, y axis, from -1 to 1.
    pub ly: Float32,
    /// Right stick, x axis, from -1 to 1.
    pub rx: Float32,
    /// Right stick, y axis, from -1 to 1.
    pub ry: Float32,
    /// One bit for each button held down.
    pub keys: u16,
}

impl Default for WirelessController {
    /// The state with every field zero.
    fn default() -> (r: Self)
        ensures
            r.layout() == zeros(Self::size()),
    {
        Self::zeroed()
    }
}

impl Layout for WirelessController {
    open spec fn size() -> nat {
        18
    }

    open spec fn layout(&self) -> Seq<u8> {
        self.lx.layout()
            + self.ly.layout()
            + self.rx.layout()
            + self.ry.layout()
            + self.keys.layout()
    }

    open spec fn read(bytes: Seq<u8>) -> Self {
        WirelessController {
            lx: Float32::read(field(bytes, 0, 4)),
            ly: Float32::read(field(bytes, 4, 4)),
            rx: Float32::read(field(bytes, 8, 4)),
            ry: Float32::read(field(bytes, 12, 4)),
            keys: u16::read(field(bytes, 16, 2)),
        }
    }

    proof fn lemma_layout_len(&self) {
        self.lx.lemma_layout_len();
        self.ly.lemma_layout_len();
        self.rx.lemma_layout_len();
        self.ry.lemma_layout_len();
        self.keys.lemma_layout_len();
    }

    proof fn lemma_read_layout(&self) {
        let bytes = self.layout();
        self.lemma_layout_len();
        self.lx.lemma_layout_len();
        self.ly.lemma_layout_len();
        self.rx.lemma_layout_len();
        self.ry.lemma_layout_len();
        self.keys.lemma_layout_len();
        let to_lx = self.lx.layout();
        let to_ly = to_lx + self.ly.layout();
        let to_rx = to_ly + self.rx.layout();
        let to_ry = to_rx + self.ry.layout();
        lemma_field_split(to_ry, self.keys.layout());
        lemma_field_split(to_rx, self.ry.layout());
        lemma_field_of_field(bytes, 0, 16, 0, 12);
        lemma_field_of_field(bytes, 0, 16, 12, 4);
        lemma_field_split(to_ly, self.rx.layout());
        lemma_field_of_field(bytes, 0, 12, 0, 8);
        lemma_field_of_field(bytes, 0, 12, 8, 4);
        lemma_field_split(to_lx, self.ly.layout());
        lemma_field_of_field(bytes, 0, 8, 0, 4);
        lemma_field_of_field(bytes, 0, 8, 4, 4);
        self.lx.lemma_read_layout();
        self.ly.lemma_read_layout();
        self.rx.lemma_read_layout();
        self.ry.lemma_read_layout();
        self.keys.lemma_read_layout();
    }

    proof fn lemma_layout_read(bytes: Seq<u8>) {
        Float32::lemma_layout_read(field(bytes, 0, 4));
        Float32::lemma_layout_read(field(bytes, 4, 4));
        Float32::lemma_layout_read(field(bytes, 8, 4));
        Float32::lemma_layout_read(field(bytes, 12, 4));
        u16::lemma_layout_read(field(bytes, 16, 2));
        lemma_field_join(bytes, 0, 4, 4);
        lemma_field_join(bytes, 0, 8, 4);
        lemma_field_join(bytes, 0, 12, 4);
        lemma_field_join(bytes, 0, 16, 2);
        lemma_field_whole(bytes);
    }

    proof fn lemma_sealed_twice(&self) {
    }

    fn zeroed() -> (r: Self) {
        let r = WirelessController {
            lx: Float32::zeroed(),
            ly: Float32::zeroed(),
            rx: Float32::zeroed(),
            ry: Float32::zeroed(),
            keys: u16::zeroed(),
        };
        proof {
            lemma_zeros_join(4, 4);
            lemma_zeros_join(8, 4);
            lemma_zeros_join(12, 4);
            lemma_zeros_join(16, 2);
        }
        r
    }

    fn put(&self, out: &mut Vec<u8>) {
        let ghost start = out@;
        self.lx.put(out);
        self.ly.put(out);
        self.rx.put(out);
        self.ry.put(out);
        self.keys.put(out);
        proof {
            let to_lx = self.lx.layout();
            lemma_join_grouping(start, to_lx, self.ly.layout());
            let to_ly = to_lx + self.ly.layout();
            lemma_join_grouping(start, to_ly, self.rx.layout());
            let to_rx = to_ly + self.rx.layout();
            lemma_join_grouping(start, to_rx, self.ry.layout());
            let to_ry = to_rx + self.ry.layout();
            lemma_join_grouping(start, to_ry, self.keys.layout());
        }
    }

    fn take(bytes: &[u8], pos: &mut usize) -> (r: Option<Self>) {
        let start: usize = *pos;
        if start > bytes.len() || bytes.len() - start < 18 {
            return None;
        }
        let mut p: usize = start;
        let lx = Float32::take(bytes, &mut p).unwrap();
        let ly = Float32::take(bytes, &mut p).unwrap();
        let rx = Float32::take(bytes, &mut p).unwrap();
        let ry = Float32::take(bytes, &mut p).unwrap();
        let keys = u16::take(bytes, &mut p).unwrap();
        proof {
            lemma_field_of_field(bytes@, start as int, 18, 0, 4);
            lemma_field_of_field(bytes@, start as int, 18, 4, 4);
            lemma_field_of_field(bytes@, start as int, 18, 8, 4);
            lemma_field_of_field(bytes@, start as int, 18, 12, 4);
            lemma_field_of_field(bytes@, start as int, 18, 16, 2);
        }
        *pos = p;
        Some(WirelessController { lx, ly, rx, ry, keys })
    }

    fn seal(&self) -> (r: Self) {
        *self
    }

    fn is_sealed(&self) -> (r: bool) {
        true
    }
}

} // verus!
