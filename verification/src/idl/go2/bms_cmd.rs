//! The command to the battery management system.

use vstd::prelude::*;
use crate::wire::{
    field, lemma_field_join, lemma_field_of_field, lemma_field_split, lemma_field_whole,
    lemma_join_grouping, lemma_zeros_join, zeros, Layout,
};

verus! {

/// A command to the battery management system.
#[derive(Clone, Copy, Debug, PartialEq, Eq)]
pub struct BmsCmd {
    /// Power-off flag: a value other than zero shuts the robot down.
    pub off: u8,
    /// Reserved.
    pub reserve: [u8; 3],
}

impl Default for BmsCmd {
    /// The command with every field zero.
    fn default() -> (r: Self)
        ensures
            r.layout() == zeros(Self::size()),
    {
        Self::zeroed()
    }
}

impl Layout for BmsCmd {
    open spec fn size() -> nat {
        4
    }

    open spec fn layout(&self) -> Seq<u8> {
        self.off.layout() + self.reserve.layout()
    }

    open spec fn read(bytes: Seq<u8>) -> Self {
        BmsCmd {
            off: u8::read(field(bytes, 0, 1)),
            reserve: <[u8; 3]>::read(field(bytes, 1, 3)),
        }
    }

    proof fn lemma_layout_len(&self) {
        self.off.lemma_layout_len();
        self.reserve.lemma_layout_len();
    }

    proof fn lemma_read_layout(&self) {
        let bytes = self.layout();
        self.lemma_layout_len();
        self.off.lemma_layout_len();
        self.reserve.lemma_layout_len();
        let to_off = self.off.layout();
        lemma_field_split(to_off, self.reserve.layout());
        self.off.lemma_read_layout();
        self.reserve.lemma_read_layout();
    }

    proof fn lemma_layout_read(bytes: Seq<u8>) {
        u8::lemma_layout_read(field(bytes, 0, 1));
        <[u8; 3]>::lemma_layout_read(field(bytes, 1, 3));
        lemma_field_join(bytes, 0, 1, 3);
        lemma_field_whole(bytes);
    }

    proof fn lemma_sealed_twice(&self) {
    }

    fn zeroed() -> (r: Self) {
        let r = BmsCmd {
            off: u8::zeroed(),
            reserve: <[u8; 3]>::zeroed(),
        };
        proof {
            lemma_zeros_join(1, 3);
        }
        r
    }

    fn put(&self, out: &mut Vec<u8>) {
        let ghost start = out@;
        self.off.put(out);
        self.reserve.put(out);
        proof {
            let to_off = self.off.layout();
            lemma_join_grouping(start, to_off, self.reserve.layout());
        }
    }

    fn take(bytes: &[u8], pos: &mut usize) -> (r: Option<Self>) {
        let start: usize = *pos;
        if start > bytes.len() || bytes.len() - start < 4 {
            return None;
        }
        let mut p: usize = start;
        let off = u8::take(bytes, &mut p).unwrap();
        let reserve = <[u8; 3]>::take(bytes, &mut p).unwrap();
        proof {
            lemma_field_of_field(bytes@, start as int, 4, 0, 1);
            lemma_field_of_field(bytes@, start as int, 4, 1, 3);
        }
        *pos = p;
        Some(BmsCmd { off, reserve })
    }

    fn seal(&self) -> (r: Self) {
        *self
    }

    fn is_sealed(&self) -> (r: bool) {
        true
    }
}

} // verus!
