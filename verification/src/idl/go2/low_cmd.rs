//! The low-level command.

use vstd::prelude::*;
use crate::idl::go2::BmsCmd;
use crate::idl::go2::MotorCmd;
use crate::wire::crc::{checksum, crc32};
use crate::wire::{
    field, lemma_field_join, lemma_field_of_field, lemma_field_split, lemma_field_whole,
    lemma_join_grouping, lemma_zeros_join, zeros, Layout,
};

verus! {

/// The command that drives the robot joint by joint: one motor command for
/// each of the 20 joints, a battery command, and the lights and fans.
///
/// The last field is the checksum of all the bytes before it. A command that
/// is written to a channel leaves with that field brought up to date.
#[derive(Clone, Copy, Debug, PartialEq, Eq)]
pub struct LowCmd {
    /// The two bytes that open the frame.
    pub head: [u8; 2],
    /// Which level of control the command addresses.
    pub level_flag: u8,
    /// Reserved.
    pub frame_reserve: u8,
    /// Serial number.
    pub sn: [u32; 2],
    /// Firmware version.
    pub version: [u32; 2],
    /// Bandwidth of the link.
    pub bandwidth: u16,
    /// The command of each of the 20 joints.
    pub motor_cmd: [MotorCmd; 20],
    /// The command to the battery management system.
    pub bms_cmd: BmsCmd,
    /// The data block of the handheld controller.
    pub wireless_remote: [u8; 40],
    /// The lights.
    pub led: [u8; 12],
    /// The fans.
    pub fan: [u8; 2],
    /// The general-purpose outputs.
    pub gpio: u8,
    /// Reserved.
    pub reserve: u32,
    /// Checksum of all the bytes before it.
    pub crc: u32,
}

impl Default for LowCmd {
    /// The command with every field zero.
    fn default() -> (r: Self)
        ensures
            r.layout() == zeros(Self::size()),
    {
        Self::zeroed()
    }
}

impl LowCmd {
    /// The bytes that the checksum covers: all that come before it.
    pub open spec fn body(&self) -> Seq<u8> {
        self.head.layout()
            + self.level_flag.layout()
            + self.frame_reserve.layout()
            + self.sn.layout()
            + self.version.layout()
            + self.bandwidth.layout()
            + self.motor_cmd.layout()
            + self.bms_cmd.layout()
            + self.wireless_remote.layout()
            + self.led.layout()
            + self.fan.layout()
            + self.gpio.layout()
            + self.reserve.layout()
    }

    /// The checksum that the fields call for.
    pub open spec fn checksum(&self) -> u32 {
        crc32(self.body())
    }

    /// Appends the bytes that the checksum covers to `out`.
    fn put_body(&self, out: &mut Vec<u8>)
        ensures
            final(out)@ == old(out)@ + self.body(),
    {
        let ghost start = out@;
        self.head.put(out);
        self.level_flag.put(out);
        self.frame_reserve.put(out);
        self.sn.put(out);
        self.version.put(out);
        self.bandwidth.put(out);
        self.motor_cmd.put(out);
        self.bms_cmd.put(out);
        self.wireless_remote.put(out);
        self.led.put(out);
        self.fan.put(out);
        self.gpio.put(out);
        self.reserve.put(out);
        proof {
            let to_head = self.head.layout();
            lemma_join_grouping(start, to_head, self.level_flag.layout());
            let to_level_flag = to_head + self.level_flag.layout();
            lemma_join_grouping(start, to_level_flag, self.frame_reserve.layout());
            let to_frame_reserve = to_level_flag + self.frame_reserve.layout();
            lemma_join_grouping(start, to_frame_reserve, self.sn.layout());
            let to_sn = to_frame_reserve + self.sn.layout();
            lemma_join_grouping(start, to_sn, self.version.layout());
            let to_version = to_sn + self.version.layout();
            lemma_join_grouping(start, to_version, self.bandwidth.layout());
            let to_bandwidth = to_version + self.bandwidth.layout();
            lemma_join_grouping(start, to_bandwidth, self.motor_cmd.layout());
            let to_motor_cmd = to_bandwidth + self.motor_cmd.layout();
            lemma_join_grouping(start, to_motor_cmd, self.bms_cmd.layout());
            let to_bms_cmd = to_motor_cmd + self.bms_cmd.layout();
            lemma_join_grouping(start, to_bms_cmd, self.wireless_remote.layout());
            let to_wireless_remote = to_bms_cmd + self.wireless_remote.layout();
            lemma_join_grouping(start, to_wireless_remote, self.led.layout());
            let to_led = to_wireless_remote + self.led.layout();
            lemma_join_grouping(start, to_led, self.fan.layout());
            let to_fan = to_led + self.fan.layout();
            lemma_join_grouping(start, to_fan, self.gpio.layout());
            let to_gpio = to_fan + self.gpio.layout();
            lemma_join_grouping(start, to_gpio, self.reserve.layout());
        }
    }

    /// Computes the checksum that the fields call for.
    pub fn compute_checksum(&self) -> (r: u32)
        ensures
            r == self.checksum(),
    {
        let mut body: Vec<u8> = Vec::new();
        self.put_body(&mut body);
        assert(body@ =~= self.body());
        checksum(body.as_slice())
    }
}

impl Layout for LowCmd {
    open spec fn size() -> nat {
        749
    }

    open spec fn layout(&self) -> Seq<u8> {
        self.body() + self.crc.layout()
    }

    open spec fn read(bytes: Seq<u8>) -> Self {
        LowCmd {
            head: <[u8; 2]>::read(field(bytes, 0, 2)),
            level_flag: u8::read(field(bytes, 2, 1)),
            frame_reserve: u8::read(field(bytes, 3, 1)),
            sn: <[u32; 2]>::read(field(bytes, 4, 8)),
            version: <[u32; 2]>::read(field(bytes, 12, 8)),
            bandwidth: u16::read(field(bytes, 20, 2)),
            motor_cmd: <[MotorCmd; 20]>::read(field(bytes, 22, 660)),
            bms_cmd: BmsCmd::read(field(bytes, 682, 4)),
            wireless_remote: <[u8; 40]>::read(field(bytes, 686, 40)),
            led: <[u8; 12]>::read(field(bytes, 726, 12)),
            fan: <[u8; 2]>::read(field(bytes, 738, 2)),
            gpio: u8::read(field(bytes, 740, 1)),
            reserve: u32::read(field(bytes, 741, 4)),
            crc: u32::read(field(bytes, 745, 4)),
        }
    }

    open spec fn sealed(&self) -> Self {
        LowCmd { crc: self.checksum(), ..*self }
    }

    proof fn lemma_layout_len(&self) {
        self.head.lemma_layout_len();
        self.level_flag.lemma_layout_len();
        self.frame_reserve.lemma_layout_len();
        self.sn.lemma_layout_len();
        self.version.lemma_layout_len();
        self.bandwidth.lemma_layout_len();
        self.motor_cmd.lemma_layout_len();
        self.bms_cmd.lemma_layout_len();
        self.wireless_remote.lemma_layout_len();
        self.led.lemma_layout_len();
        self.fan.lemma_layout_len();
        self.gpio.lemma_layout_len();
        self.reserve.lemma_layout_len();
        self.crc.lemma_layout_len();
    }

    proof fn lemma_read_layout(&self) {
        let bytes = self.layout();
        self.lemma_layout_len();
        self.head.lemma_layout_len();
        self.level_flag.lemma_layout_len();
        self.frame_reserve.lemma_layout_len();
        self.sn.lemma_layout_len();
        self.version.lemma_layout_len();
        self.bandwidth.lemma_layout_len();
        self.motor_cmd.lemma_layout_len();
        self.bms_cmd.lemma_layout_len();
        self.wireless_remote.lemma_layout_len();
        self.led.lemma_layout_len();
        self.fan.lemma_layout_len();
        self.gpio.lemma_layout_len();
        self.reserve.lemma_layout_len();
        self.crc.lemma_layout_len();
        let to_head = self.head.layout();
        let to_level_flag = to_head + self.level_flag.layout();
        let to_frame_reserve = to_level_flag + self.frame_reserve.layout();
        let to_sn = to_frame_reserve + self.sn.layout();
        let to_version = to_sn + self.version.layout();
        let to_bandwidth = to_version + self.bandwidth.layout();
        let to_motor_cmd = to_bandwidth + self.motor_cmd.layout();
        let to_bms_cmd = to_motor_cmd + self.bms_cmd.layout();
        let to_wireless_remote = to_bms_cmd + self.wireless_remote.layout();
        let to_led = to_wireless_remote + self.led.layout();
        let to_fan = to_led + self.fan.layout();
        let to_gpio = to_fan + self.gpio.layout();
        let to_reserve = to_gpio + self.reserve.layout();
        lemma_field_split(to_reserve, self.crc.layout());
        lemma_field_split(to_gpio, self.reserve.layout());
        lemma_field_of_field(bytes, 0, 745, 0, 741);
        lemma_field_of_field(bytes, 0, 745, 741, 4);
        lemma_field_split(to_fan, self.gpio.layout());
        lemma_field_of_field(bytes, 0, 741, 0, 740);
        lemma_field_of_field(bytes, 0, 741, 740, 1);
        lemma_field_split(to_led, self.fan.layout());
        lemma_field_of_field(bytes, 0, 740, 0, 738);
        lemma_field_of_field(bytes, 0, 740, 738, 2);
        lemma_field_split(to_wireless_remote, self.led.layout());
        lemma_field_of_field(bytes, 0, 738, 0, 726);
        lemma_field_of_field(bytes, 0, 738, 726, 12);
        lemma_field_split(to_bms_cmd, self.wireless_remote.layout());
        lemma_field_of_field(bytes, 0, 726, 0, 686);
        lemma_field_of_field(bytes, 0, 726, 686, 40);
        lemma_field_split(to_motor_cmd, self.bms_cmd.layout());
        lemma_field_of_field(bytes, 0, 686, 0, 682);
        lemma_field_of_field(bytes, 0, 686, 682, 4);
        lemma_field_split(to_bandwidth, self.motor_cmd.layout());
        lemma_field_of_field(bytes, 0, 682, 0, 22);
        lemma_field_of_field(bytes, 0, 682, 22, 660);
        lemma_field_split(to_version, self.bandwidth.layout());
        lemma_field_of_field(bytes, 0, 22, 0, 20);
        lemma_field_of_field(bytes, 0, 22, 20, 2);
        lemma_field_split(to_sn, self.version.layout());
        lemma_field_of_field(bytes, 0, 20, 0, 12);
        lemma_field_of_field(bytes, 0, 20, 12, 8);
        lemma_field_split(to_frame_reserve, self.sn.layout());
        lemma_field_of_field(bytes, 0, 12, 0, 4);
        lemma_field_of_field(bytes, 0, 12, 4, 8);
        lemma_field_split(to_level_flag, self.frame_reserve.layout());
        lemma_field_of_field(bytes, 0, 4, 0, 3);
        lemma_field_of_field(bytes, 0, 4, 3, 1);
        lemma_field_split(to_head, self.level_flag.layout());
        lemma_field_of_field(bytes, 0, 3, 0, 2);
        lemma_field_of_field(bytes, 0, 3, 2, 1);
        self.head.lemma_read_layout();
        self.level_flag.lemma_read_layout();
        self.frame_reserve.lemma_read_layout();
        self.sn.lemma_read_layout();
        self.version.lemma_read_layout();
        self.bandwidth.lemma_read_layout();
        self.motor_cmd.lemma_read_layout();
        self.bms_cmd.lemma_read_layout();
        self.wireless_remote.lemma_read_layout();
        self.led.lemma_read_layout();
        self.fan.lemma_read_layout();
        self.gpio.lemma_read_layout();
        self.reserve.lemma_read_layout();
        self.crc.lemma_read_layout();
    }

    proof fn lemma_layout_read(bytes: Seq<u8>) {
        <[u8; 2]>::lemma_layout_read(field(bytes, 0, 2));
        u8::lemma_layout_read(field(bytes, 2, 1));
        u8::lemma_layout_read(field(bytes, 3, 1));
        <[u32; 2]>::lemma_layout_read(field(bytes, 4, 8));
        <[u32; 2]>::lemma_layout_read(field(bytes, 12, 8));
        u16::lemma_layout_read(field(bytes, 20, 2));
        <[MotorCmd; 20]>::lemma_layout_read(field(bytes, 22, 660));
        BmsCmd::lemma_layout_read(field(bytes, 682, 4));
        <[u8; 40]>::lemma_layout_read(field(bytes, 686, 40));
        <[u8; 12]>::lemma_layout_read(field(bytes, 726, 12));
        <[u8; 2]>::lemma_layout_read(field(bytes, 738, 2));
        u8::lemma_layout_read(field(bytes, 740, 1));
        u32::lemma_layout_read(field(bytes, 741, 4));
        u32::lemma_layout_read(field(bytes, 745, 4));
        lemma_field_join(bytes, 0, 2, 1);
        lemma_field_join(bytes, 0, 3, 1);
        lemma_field_join(bytes, 0, 4, 8);
        lemma_field_join(bytes, 0, 12, 8);
        lemma_field_join(bytes, 0, 20, 2);
        lemma_field_join(bytes, 0, 22, 660);
        lemma_field_join(bytes, 0, 682, 4);
        lemma_field_join(bytes, 0, 686, 40);
        lemma_field_join(bytes, 0, 726, 12);
        lemma_field_join(bytes, 0, 738, 2);
        lemma_field_join(bytes, 0, 740, 1);
        lemma_field_join(bytes, 0, 741, 4);
        lemma_field_join(bytes, 0, 745, 4);
        lemma_field_whole(bytes);
    }

    proof fn lemma_sealed_twice(&self) {
        assert(self.sealed().body() == self.body());
    }

    fn zeroed() -> (r: Self) {
        let r = LowCmd {
            head: <[u8; 2]>::zeroed(),
            level_flag: u8::zeroed(),
            frame_reserve: u8::zeroed(),
            sn: <[u32; 2]>::zeroed(),
            version: <[u32; 2]>::zeroed(),
            bandwidth: u16::zeroed(),
            motor_cmd: <[MotorCmd; 20]>::zeroed(),
            bms_cmd: BmsCmd::zeroed(),
            wireless_remote: <[u8; 40]>::zeroed(),
            led: <[u8; 12]>::zeroed(),
            fan: <[u8; 2]>::zeroed(),
            gpio: u8::zeroed(),
            reserve: u32::zeroed(),
            crc: u32::zeroed(),
        };
        proof {
            lemma_zeros_join(2, 1);
            lemma_zeros_join(3, 1);
            lemma_zeros_join(4, 8);
            lemma_zeros_join(12, 8);
            lemma_zeros_join(20, 2);
            lemma_zeros_join(22, 660);
            lemma_zeros_join(682, 4);
            lemma_zeros_join(686, 40);
            lemma_zeros_join(726, 12);
            lemma_zeros_join(738, 2);
            lemma_zeros_join(740, 1);
            lemma_zeros_join(741, 4);
            lemma_zeros_join(745, 4);
        }
        r
    }

    fn put(&self, out: &mut Vec<u8>) {
        self.put_body(out);
        self.crc.put(out);
    }

    fn take(bytes: &[u8], pos: &mut usize) -> (r: Option<Self>) {
        let start: usize = *pos;
        if start > bytes.len() || bytes.len() - start < 749 {
            return None;
        }
        let mut p: usize = start;
        let head = <[u8; 2]>::take(bytes, &mut p).unwrap();
        let level_flag = u8::take(bytes, &mut p).unwrap();
        let frame_reserve = u8::take(bytes, &mut p).unwrap();
        let sn = <[u32; 2]>::take(bytes, &mut p).unwrap();
        let version = <[u32; 2]>::take(bytes, &mut p).unwrap();
        let bandwidth = u16::take(bytes, &mut p).unwrap();
        let motor_cmd = <[MotorCmd; 20]>::take(bytes, &mut p).unwrap();
        let bms_cmd = BmsCmd::take(bytes, &mut p).unwrap();
        let wireless_remote = <[u8; 40]>::take(bytes, &mut p).unwrap();
        let led = <[u8; 12]>::take(bytes, &mut p).unwrap();
        let fan = <[u8; 2]>::take(bytes, &mut p).unwrap();
        let gpio = u8::take(bytes, &mut p).unwrap();
        let reserve = u32::take(bytes, &mut p).unwrap();
        let crc = u32::take(bytes, &mut p).unwrap();
        proof {
            lemma_field_of_field(bytes@, start as int, 749, 0, 2);
            lemma_field_of_field(bytes@, start as int, 749, 2, 1);
            lemma_field_of_field(bytes@, start as int, 749, 3, 1);
            lemma_field_of_field(bytes@, start as int, 749, 4, 8);
            lemma_field_of_field(bytes@, start as int, 749, 12, 8);
            lemma_field_of_field(bytes@, start as int, 749, 20, 2);
            lemma_field_of_field(bytes@, start as int, 749, 22, 660);
            lemma_field_of_field(bytes@, start as int, 749, 682, 4);
            lemma_field_of_field(bytes@, start as int, 749, 686, 40);
            lemma_field_of_field(bytes@, start as int, 749, 726, 12);
            lemma_field_of_field(bytes@, start as int, 749, 738, 2);
            lemma_field_of_field(bytes@, start as int, 749, 740, 1);
            lemma_field_of_field(bytes@, start as int, 749, 741, 4);
            lemma_field_of_field(bytes@, start as int, 749, 745, 4);
        }
        *pos = p;
        Some(LowCmd {
            head,
            level_flag,
            frame_reserve,
            sn,
            version,
            bandwidth,
            motor_cmd,
            bms_cmd,
            wireless_remote,
            led,
            fan,
            gpio,
            reserve,
            crc,
        })
    }

    fn seal(&self) -> (r: Self) {
        LowCmd { crc: self.compute_checksum(), ..*self }
    }

    fn is_sealed(&self) -> (r: bool) {
        self.crc == self.compute_checksum()
    }
}

} // verus!
