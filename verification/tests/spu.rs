use std::collections::HashMap;

use psx_spu::bus::{
    channel_register_address, halves, SpuIo, SPU_CNT, SPU_FIFO, SPU_KEYOFF, SPU_KEYON, SPU_MVOLL,
    SPU_MVOLR, SPU_NON, SPU_PMON, SPU_TRANSADDR, SPU_TRANSCNT,
};
use psx_spu::volume::Volume;
use psx_spu::{Spu, SPU_CHANNELS};

fn w(addr: u32, value: u16) -> SpuIo {
    SpuIo::Write { addr, value }
}

fn voice(addr: u32, num: u32, on: bool) -> SpuIo {
    let m = 1u32 << num;
    SpuIo::Update32 { addr, mask: m, bits: if on { m } else { 0 } }
}

/// A register file that performs queued accesses as the hardware would,
/// with every wait already satisfied.
#[derive(Default)]
struct Registers {
    mem: HashMap<u32, u16>,
}

impl Registers {
    fn get(&self, addr: u32) -> u16 {
        *self.mem.get(&addr).unwrap_or(&0)
    }

    fn get32(&self, addr: u32) -> u32 {
        self.get(addr) as u32 | ((self.get(addr + 2) as u32) << 16)
    }

    fn set32(&mut self, addr: u32, value: u32) {
        let (low, high) = halves(value);
        self.mem.insert(addr, low);
        self.mem.insert(addr + 2, high);
    }

    fn perform(&mut self, ops: &[SpuIo]) {
        for op in ops {
            match *op {
                SpuIo::Write { addr, value } => {
                    self.mem.insert(addr, value);
                }
                SpuIo::Update { addr, .. } => {
                    let v = op.update16(self.get(addr));
                    self.mem.insert(addr, v);
                }
                SpuIo::Update32 { addr, .. } => {
                    let v = op.update32(self.get32(addr));
                    self.set32(addr, v);
                }
                SpuIo::WaitRamTransfer { .. } | SpuIo::WaitTransferIdle => {}
            }
        }
    }
}

fn fresh() -> Spu {
    let mut spu = Spu::new();
    spu.take_pending();
    spu
}

#[test]
fn new_initialises_every_voice() {
    let mut spu = Spu::new();
    let ops = spu.take_pending();
    assert_eq!(ops.len(), 2 + 2 + 24 * 7);
    assert_eq!(
        &ops[0..4],
        &[
            SpuIo::Update { addr: SPU_CNT, mask: 0x3C00, bits: 0 },
            SpuIo::Update { addr: SPU_CNT, mask: 0x0300, bits: 0 },
            w(SPU_MVOLL, 0x3FFF),
            w(SPU_MVOLR, 0x3FFF),
        ]
    );
    let first = channel_register_address(0, 0);
    assert_eq!(
        &ops[4..11],
        &[
            w(first + 4, 0),
            w(first, 0),
            w(first + 2, 0),
            w(first + 6, 0),
            voice(SPU_KEYOFF, 0, true),
            voice(SPU_PMON, 0, false),
            voice(SPU_NON, 0, false),
        ]
    );
    assert_eq!(ops[ops.len() - 3], voice(SPU_KEYOFF, 23, true));
    assert!(spu.take_pending().is_empty());
}

#[test]
fn new_keeps_unrelated_bits() {
    let mut regs = Registers::default();
    regs.set32(SPU_KEYOFF, 0x8000_0000);
    regs.set32(SPU_NON, 0x0100_0003);
    regs.set32(SPU_PMON, 0x4);
    regs.set32(SPU_KEYON, 0x55);
    regs.mem.insert(SPU_CNT, 0xFF0F);
    let mut spu = Spu::new();
    regs.perform(&spu.take_pending());
    // The noise shift and step are cleared; every other SPUCNT bit stays.
    assert_eq!(regs.get(SPU_CNT), 0xC00F);
    // Every voice is keyed off, and loses noise and pitch modulation.
    assert_eq!(regs.get32(SPU_KEYOFF), 0x80FF_FFFF);
    assert_eq!(regs.get32(SPU_NON), 0x0100_0000);
    assert_eq!(regs.get32(SPU_PMON), 0);
    assert_eq!(regs.get32(SPU_KEYON), 0x55);
    assert_eq!(regs.get(SPU_MVOLL), 0x3FFF);
    assert_eq!(regs.get(SPU_MVOLR), 0x3FFF);
}

#[test]
fn default_is_new() {
    let mut a = Spu::default();
    let mut b = Spu::new();
    assert_eq!(a.take_pending(), b.take_pending());
}

#[test]
fn channel_lookup() {
    let spu = fresh();
    assert!(spu.channel(0).is_some());
    assert!(spu.channel(SPU_CHANNELS - 1).is_some());
    assert!(spu.channel(SPU_CHANNELS).is_none());
    assert!(spu.channel(usize::MAX).is_none());
}

#[test]
fn channel_iterator_counts_down() {
    let mut spu = fresh();
    let mut it = spu.channels();
    assert_eq!(it.len(), 24);
    let mut n = 0;
    while let Some(mut ch) = it.next() {
        n += 1;
        assert_eq!(it.len(), 24 - n);
        ch.frequency(&mut spu, 0x1000);
    }
    assert_eq!(n, 24);
    assert!(it.next().is_none());
    let ops = spu.take_pending();
    for (i, op) in ops.iter().enumerate() {
        assert_eq!(*op, w(channel_register_address(i, 4), 0x1000));
    }
}

#[test]
fn channel_volumes() {
    let mut spu = fresh();
    let mut ch = spu.channel(1).unwrap();
    ch.volume(&mut spu, Volume::Normal(-1));
    ch.volume_left(&mut spu, Volume::Normal(0x100));
    ch.volume_right(&mut spu, Volume::Normal(0x200));
    assert_eq!(
        spu.take_pending(),
        vec![
            w(0x1F80_1C10, 0x7FFF),
            w(0x1F80_1C12, 0x7FFF),
            w(0x1F80_1C10, 0x100),
            w(0x1F80_1C12, 0x200),
        ]
    );
}

#[test]
fn sample_start_counts_8_byte_units() {
    let mut spu = fresh();
    let mut ch = spu.channel(2).unwrap();
    ch.sample_start(&mut spu, 0x1238);
    ch.sample_start(&mut spu, 0x123F);
    ch.sample_start(&mut spu, 0x7_FFF8);
    ch.sample_start(&mut spu, 1 << 19);
    let start = 0x1F80_1C26;
    assert_eq!(spu.take_pending(), vec![w(start, 0x247), w(start, 0x247), w(start, 0xFFFF), w(start, 0)]);
}

#[test]
fn key_and_mode_bits() {
    let mut spu = fresh();
    let ch5 = spu.channel(5).unwrap();
    let ch20 = spu.channel(20).unwrap();
    ch5.key_on(&mut spu);
    ch20.key_on(&mut spu);
    ch5.noise(&mut spu, true);
    ch5.noise(&mut spu, false);
    ch20.pitch_mod(&mut spu, true);
    ch5.key_off(&mut spu);
    assert_eq!(
        spu.take_pending(),
        vec![
            voice(SPU_KEYON, 5, true),
            voice(SPU_KEYON, 20, true),
            voice(SPU_NON, 5, true),
            voice(SPU_NON, 5, false),
            voice(SPU_PMON, 20, true),
            voice(SPU_KEYOFF, 5, true),
        ]
    );
}

#[test]
fn voice_bits_act_on_the_live_registers() {
    let mut regs = Registers::default();
    let mut spu = fresh();
    let ch5 = spu.channel(5).unwrap();
    let ch20 = spu.channel(20).unwrap();
    // Something else sets bits the model never saw; updates keep them.
    regs.set32(SPU_NON, 0x0300_0001);
    ch5.noise(&mut spu, true);
    ch20.pitch_mod(&mut spu, true);
    regs.perform(&spu.take_pending());
    assert_eq!(regs.get32(SPU_NON), 0x0300_0021);
    assert_eq!(regs.get32(SPU_PMON), 0x0010_0000);
    ch5.noise(&mut spu, false);
    ch20.pitch_mod(&mut spu, false);
    ch5.key_on(&mut spu);
    ch20.key_on(&mut spu);
    regs.perform(&spu.take_pending());
    assert_eq!(regs.get32(SPU_NON), 0x0300_0001);
    assert_eq!(regs.get32(SPU_PMON), 0);
    assert_eq!(regs.get32(SPU_KEYON), 0x0010_0020);
}

#[test]
fn reset_turns_noise_and_pitch_modulation_off() {
    let mut regs = Registers::default();
    regs.set32(SPU_NON, 0xFF00_0008);
    regs.set32(SPU_PMON, 0x0000_0018);
    let mut spu = fresh();
    let mut ch = spu.channel(3).unwrap();
    ch.reset(&mut spu);
    let ops = spu.take_pending();
    let base = 0x1F80_1C30;
    assert_eq!(
        ops,
        vec![
            w(base + 4, 0),
            w(base, 0),
            w(base + 2, 0),
            w(base + 6, 0),
            voice(SPU_KEYOFF, 3, true),
            voice(SPU_PMON, 3, false),
            voice(SPU_NON, 3, false),
        ]
    );
    regs.perform(&ops);
    assert_eq!(regs.get32(SPU_NON), 0xFF00_0000);
    assert_eq!(regs.get32(SPU_PMON), 0x10);
    assert_eq!(regs.get32(SPU_KEYOFF), 0x8);
}

#[test]
fn main_volume_and_noise() {
    let mut spu = fresh();
    spu.main_volume(Volume::Normal(0x1234));
    spu.main_volume_left(Volume::Normal(1));
    spu.main_volume_right(Volume::Normal(2));
    spu.noise_settings(0b1010, 0b11);
    spu.noise_settings(0x1_0001, 0b110);
    assert_eq!(
        spu.take_pending(),
        vec![
            w(SPU_MVOLL, 0x1234),
            w(SPU_MVOLR, 0x1234),
            w(SPU_MVOLL, 1),
            w(SPU_MVOLR, 2),
            SpuIo::Update { addr: SPU_CNT, mask: 0x3C00, bits: 0x2800 },
            SpuIo::Update { addr: SPU_CNT, mask: 0x0300, bits: 0x0300 },
            // shift 0x1_0001 is taken modulo 2^16, step keeps its low 2 bits.
            SpuIo::Update { addr: SPU_CNT, mask: 0x3C00, bits: 0x0400 },
            SpuIo::Update { addr: SPU_CNT, mask: 0x0300, bits: 0x0200 },
        ]
    );
}

#[test]
fn noise_settings_keep_other_control_bits() {
    let mut regs = Registers::default();
    regs.mem.insert(SPU_CNT, 0xFFFF);
    let mut spu = fresh();
    spu.noise_settings(3, 2);
    regs.perform(&spu.take_pending());
    assert_eq!(regs.get(SPU_CNT), 0xCEFF);
}

#[test]
fn write_cpu_sends_chunks_of_32() {
    let mut spu = fresh();
    let data: Vec<u16> = (0..40).map(|i| 0x100 + i).collect();
    spu.write_cpu(0x1009, &data);
    let ops = spu.take_pending();
    let stop = SpuIo::Update { addr: SPU_CNT, mask: 0x30, bits: 0 };
    let manual = SpuIo::Update { addr: SPU_CNT, mask: 0x30, bits: 0x10 };
    assert_eq!(ops.len(), 4 + (32 + 3) + (8 + 3));
    assert_eq!(
        &ops[0..4],
        &[w(SPU_TRANSCNT, 4), stop, SpuIo::WaitRamTransfer { mode: 0 }, w(SPU_TRANSADDR, 0x201)]
    );
    for i in 0..32 {
        assert_eq!(ops[4 + i], w(SPU_FIFO, data[i]));
    }
    assert_eq!(&ops[36..39], &[manual, SpuIo::WaitRamTransfer { mode: 1 }, SpuIo::WaitTransferIdle]);
    for i in 32..40 {
        assert_eq!(ops[39 + i - 32], w(SPU_FIFO, data[i]));
    }
    assert_eq!(&ops[47..50], &[manual, SpuIo::WaitRamTransfer { mode: 1 }, SpuIo::WaitTransferIdle]);
    let payload: Vec<u16> = ops
        .iter()
        .filter_map(|op| match op {
            SpuIo::Write { addr, value } if *addr == SPU_FIFO => Some(*value),
            _ => None,
        })
        .collect();
    assert_eq!(payload, data);
}

#[test]
fn write_cpu_empty_only_prepares() {
    let mut spu = fresh();
    spu.write_cpu(0x10, &[]);
    assert_eq!(
        spu.take_pending(),
        vec![
            w(SPU_TRANSCNT, 4),
            SpuIo::Update { addr: SPU_CNT, mask: 0x30, bits: 0 },
            SpuIo::WaitRamTransfer { mode: 0 },
            w(SPU_TRANSADDR, 2)
        ]
    );
}

#[test]
fn second_upload_stops_the_transfer_first() {
    let mut regs = Registers::default();
    regs.mem.insert(SPU_CNT, 0x8003);
    let mut spu = fresh();
    spu.write_cpu(0, &[1, 2]);
    regs.perform(&spu.take_pending());
    assert_eq!(regs.get(SPU_CNT), 0x8013);
    spu.write_cpu(0x100, &[3]);
    let second = spu.take_pending();
    regs.perform(&second[0..2]);
    // Stop brings the RAM transfer field back to 0, as the wait expects.
    assert_eq!(regs.get(SPU_CNT), 0x8003);
    assert!(second[2].is_complete(regs.get(SPU_CNT)));
    regs.perform(&second[2..]);
    assert_eq!(regs.get(SPU_CNT), 0x8013);
}

#[test]
fn waits_complete_on_status() {
    assert!(SpuIo::WaitRamTransfer { mode: 1 }.is_complete(0x0010));
    assert!(!SpuIo::WaitRamTransfer { mode: 1 }.is_complete(0x0020));
    assert!(SpuIo::WaitRamTransfer { mode: 0 }.is_complete(0x0400));
    assert!(!SpuIo::WaitTransferIdle.is_complete(0x0400));
    assert!(SpuIo::WaitTransferIdle.is_complete(0x0010));
    assert!(w(SPU_FIFO, 1).is_complete(0xFFFF));
    assert!(SpuIo::Update { addr: SPU_CNT, mask: 1, bits: 1 }.is_complete(0));
}

#[test]
fn update_values() {
    let u = SpuIo::Update { addr: SPU_CNT, mask: 0x30, bits: 0x10 };
    assert_eq!(u.update16(0xFFFF), 0xFFDF);
    assert_eq!(u.update16(0x0000), 0x0010);
    assert_eq!(u.update32(7), 7);
    let v = SpuIo::Update32 { addr: SPU_NON, mask: 0x0001_0000, bits: 0 };
    assert_eq!(v.update32(0xFFFF_FFFF), 0xFFFE_FFFF);
    assert_eq!(v.update16(9), 9);
    assert_eq!(halves(0x1234_5678), (0x5678, 0x1234));
}
