//! The state of the battery management system.

use vstd::prelude::*;
use crate::wire::{
    field, lemma_field_join, lemma_field_of_field, lemma_field_split, lemma_field_whole,
    lemma_join_grouping, lemma_zeros_join, zeros, Layout,
};

verus! {

/// What the battery management system reports: firmware version, charge,
/// current, cycle count, temperatures and the voltage of each cell.
#[derive(Clone, Copy, Debug, PartialEq, Eq)]
pub struct BmsState {
    /// High byte of the firmware version.
    pub version_high: u8,
    /// Low byte of the firmware version.
    pub version_low: u8,
    /// Status flags.
    pub status: u8,
    /// State of charge, in percent.
    pub soc: u8,
    /// Current in mA; negative while discharging.
    pub current: i32,
    /// Number of charge cycles.
    pub cycle: u16,
    /// Temperatures at the battery gauge.
    pub bq_ntc: [u8; 2],
    /// Temperatures at the controller.
    pub mcu_ntc: [u8; 2],
    /// Voltage of each of the 15 cells, in mV.
    pub cell_vol: [u16; 15],
}

impl Default for BmsState {
    /// The state with every field zero.
    fn default() -> (r: Self)
        ensures
            r.layout() == zeros(Self::size()),
    {
        Self::zeroed()
    }
}

impl Layout for BmsState {
    open spec fn size() -> nat {
        44
    }

    open spec fn layout(&self) -> Seq<u8> {
        self.version_high.layout()
            + self.version_low.layout()
            + self.status.layout()
            + self.soc.layout()
            + self.current.layout()
            + self.cycle.layout()
            + self.bq_ntc.layout()
            + self.mcu_ntc.layout()
            + self.cell_vol.layout()
    }

    open spec fn read(bytes: Seq<u8>) -> Self {
        BmsState {
            version_high: u8::read(field(bytes, 0, 1)),
            version_low: u8::read(field(bytes, 1, 1)),
            status: u8::read(field(bytes, 2, 1)),
            soc: u8::read(field(bytes, 3, 1)),
            current: i32::read(field(bytes, 4, 4)),
            cycle: u16::read(field(bytes, 8, 2)),
            bq_ntc: <[u8; 2]>::read(field(bytes, 10, 2)),
            mcu_ntc: <[u8; 2]>::read(field(bytes, 12, 2)),
            cell_vol: <[u16; 15]>::read(field(bytes, 14, 30)),
        }
    }

    proof fn lemma_layout_len(&self) {
        self.version_high.lemma_layout_len();
        self.version_low.lemma_layout_len();
        self.status.lemma_layout_len();
        self.soc.lemma_layout_len();
        self.current.lemma_layout_len();
        self.cycle.lemma_layout_len();
        self.bq_ntc.lemma_layout_len();
        self.mcu_ntc.lemma_layout_len();
        self.cell_vol.lemma_layout_len();
    }

    proof fn lemma_read_layout(&self) {
        let bytes = self.layout();
        self.lemma_layout_len();
        self.version_high.lemma_layout_len();
        self.version_low.lemma_layout_len();
        self.status.lemma_layout_len();
        self.soc.lemma_layout_len();
        self.current.lemma_layout_len();
        self.cycle.lemma_layout_len();
        self.bq_ntc.lemma_layout_len();
        self.mcu_ntc.lemma_layout_len();
        self.cell_vol.lemma_layout_len();
        let to_version_high = self.version_high.layout();
        let to_version_low = to_version_high + self.version_low.layout();
        let to_status = to_version_low + self.status.layout();
        let to_soc = to_status + self.soc.layout();
        let to_current = to_soc + self.current.layout();
        let to_cycle = to_current + self.cycle.layout();
        let to_bq_ntc = to_cycle + self.bq_ntc.layout();
        let to_mcu_ntc = to_bq_ntc + self.mcu_ntc.layout();
        lemma_field_split(to_mcu_ntc, self.cell_vol.layout());
        lemma_field_split(to_bq_ntc, self.mcu_ntc.layout());
        lemma_field_of_field(bytes, 0, 14, 0, 12);
        lemma_field_of_field(bytes, 0, 14, 12, 2);
        lemma_field_split(to_cycle, self.bq_ntc.layout());
        lemma_field_of_field(bytes, 0, 12, 0, 10);
        lemma_field_of_field(bytes, 0, 12, 10, 2);
        lemma_field_split(to_current, self.cycle.layout());
        lemma_field_of_field(bytes, 0, 10, 0, 8);
        lemma_field_of_field(bytes, 0, 10, 8, 2);
        lemma_field_split(to_soc, self.current.layout());
        lemma_field_of_field(bytes, 0, 8, 0, 4);
        lemma_field_of_field(bytes, 0, 8, 4, 4);
        lemma_field_split(to_status, self.soc.layout());
        lemma_field_of_field(bytes, 0, 4, 0, 3);
        lemma_field_of_field(bytes, 0, 4, 3, 1);
        lemma_field_split(to_version_low, self.status.layout());
        lemma_field_of_field(bytes, 0, 3, 0, 2);
        lemma_field_of_field(bytes, 0, 3, 2, 1);
        lemma_field_split(to_version_high, self.version_low.layout());
        lemma_field_of_field(bytes, 0, 2, 0, 1);
        lemma_field_of_field(bytes, 0, 2, 1, 1);
        self.version_high.lemma_read_layout();
        self.version_low.lemma_read_layout();
        self.status.lemma_read_layout();
        self.soc.lemma_read_layout();
        self.current.lemma_read_layout();
        self.cycle.lemma_read_layout();
        self.bq_ntc.lemma_read_layout();
        self.mcu_ntc.lemma_read_layout();
        self.cell_vol.lemma_read_layout();
    }

    proof fn lemma_layout_read(bytes: Seq<u8>) {
        u8::lemma_layout_read(field(bytes, 0, 1));
        u8::lemma_layout_read(field(bytes, 1, 1));
        u8::lemma_layout_read(field(bytes, 2, 1));
        u8::lemma_layout_read(field(bytes, 3, 1));
        i32::lemma_layout_read(field(bytes, 4, 4));
        u16::lemma_layout_read(field(bytes, 8, 2));
        <[u8; 2]>::lemma_layout_read(field(bytes, 10, 2));
        <[u8; 2]>::lemma_layout_read(field(bytes, 12, 2));
        <[u16; 15]>::lemma_layout_read(field(bytes, 14, 30));
        lemma_field_join(bytes, 0, 1, 1);
        lemma_field_join(bytes, 0, 2, 1);
        lemma_field_join(bytes, 0, 3, 1);
        lemma_field_join(bytes, 0, 4, 4);
        lemma_field_join(bytes, 0, 8, 2);
        lemma_field_join(bytes, 0, 10, 2);
        lemma_field_join(bytes, 0, 12, 2);
        lemma_field_join(bytes, 0, 14, 30);
        lemma_field_whole(bytes);
    }

    proof fn lemma_sealed_twice(&self) {
    }

    fn zeroed() -> (r: Self) {
        let r = BmsState {
            version_high: u8::zeroed(),
            version_low: u8::zeroed(),
            status: u8::zeroed(),
            soc: u8::zeroed(),
            current: i32::zeroed(),
            cycle: u16::zeroed(),
            bq_ntc: <[u8; 2]>::zeroed(),
            mcu_ntc: <[u8; 2]>::zeroed(),
            cell_vol: <[u16; 15]>::zeroed(),
        };
        proof {
            lemma_zeros_join(1, 1);
            lemma_zeros_join(2, 1);
            lemma_zeros_join(3, 1);
            lemma_zeros_join(4, 4);
            lemma_zeros_join(8, 2);
            lemma_zeros_join(10, 2);
            lemma_zeros_join(12, 2);
            lemma_zeros_join(14, 30);
        }
        r
    }

    fn put(&self, out: &mut Vec<u8>) {
        let ghost start = out@;
        self.version_high.put(out);
        self.version_low.put(out);
        self.status.put(out);
        self.soc.put(out);
        self.current.put(out);
        self.cycle.put(out);
        self.bq_ntc.put(out);
        self.mcu_ntc.put(out);
        self.cell_vol.put(out);
        proof {
            let to_version_high = self.version_high.layout();
            lemma_join_grouping(start, to_version_high, self.version_low.layout());
            let to_version_low = to_version_high + self.version_low.layout();
            lemma_join_grouping(start, to_version_low, self.status.layout());
            let to_status = to_version_low + self.status.layout();
            lemma_join_grouping(start, to_status, self.soc.layout());
            let to_soc = to_status + self.soc.layout();
            lemma_join_grouping(start, to_soc, self.current.layout());
            let to_current = to_soc + self.current.layout();
            lemma_join_grouping(start, to_current, self.cycle.layout());
            let to_cycle = to_current + self.cycle.layout();
            lemma_join_grouping(start, to_cycle, self.bq_ntc.layout());
            let to_bq_ntc = to_cycle + self.bq_ntc.layout();
            lemma_join_grouping(start, to_bq_ntc, self.mcu_ntc.layout());
            let to_mcu_ntc = to_bq_ntc + self.mcu_ntc.layout();
            lemma_join_grouping(start, to_mcu_ntc, self.cell_vol.layout());
        }
    }

    fn take(bytes: &[u8], pos: &mut usize) -> (r: Option<Self>) {
        let start: usize = *pos;
        if start > bytes.len() || bytes.len() - start < 44 {
            return None;
        }
        let mut p: usize = start;
        let version_high = u8::take(bytes, &mut p).unwrap();
        let version_low = u8::take(bytes, &mut p).unwrap();
        let status = u8::take(bytes, &mut p).unwrap();
        let soc = u8::take(bytes, &mut p).unwrap();
        let current = i32::take(bytes, &mut p).unwrap();
        let cycle = u16::take(bytes, &mut p).unwrap();
        let bq_ntc = <[u8; 2]>::take(bytes, &mut p).unwrap();
        let mcu_ntc = <[u8; 2]>::take(bytes, &mut p).unwrap();
        let cell_vol = <[u16; 15]>::take(bytes, &mut p).unwrap();
        proof {
            lemma_field_of_field(bytes@, start as int, 44, 0, 1);
            lemma_field_of_field(bytes@, start as int, 44, 1, 1);
            lemma_field_of_field(bytes@, start as int, 44, 2, 1);
            lemma_field_of_field(bytes@, start as int, 44, 3, 1);
            lemma_field_of_field(bytes@, start as int, 44, 4, 4);
            lemma_field_of_field(bytes@, start as int, 44, 8, 2);
            lemma_field_of_field(bytes@, start as int, 44, 10, 2);
            lemma_field_of_field(bytes@, start as int, 44, 12, 2);
            lemma_field_of_field(bytes@, start as int, 44, 14, 30);
        }
        *pos = p;
        Some(BmsState {
            version_high,
            version_low,
            status,
            soc,
            current,
            cycle,
            bq_ntc,
            mcu_ntc,
            cell_vol,
        })
    }

    fn seal(&self) -> (r: Self) {
        *self
    }

    fn is_sealed(&self) -> (r: bool) {
        true
    }
}

} // verus!
