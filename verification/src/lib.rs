//! Model of the PlayStation 1's Sound Processing Unit.
//!
//! Every operation of a [`Spu`] queues the register accesses that it makes,
//! in order, as [`SpuIo`] values: stores, read-modify-write updates of the
//! registers the driver reads back, and waits on SPUSTAT. The platform layer
//! takes the queue with [`Spu::take_pending`] and performs the accesses on
//! the memory-mapped registers, reading each updated register as it goes.
//! [`after_io`] says what performing a queue does to those registers.
use vstd::prelude::*;

pub mod bus;
pub mod control;
pub mod hw;
pub mod memory;
pub mod volume;

use crate::bus::{
    channel_register, channel_register_address, store, updated16, updated32, SpuIo,
    FREQUENCY_OFFSET, SAMPLE_START_OFFSET, SPU_CNT, SPU_FIFO, SPU_KEYOFF, SPU_KEYON, SPU_MVOLL,
    SPU_MVOLR, SPU_NON, SPU_PMON, SPU_TRANSADDR, SPU_TRANSCNT, VOLUME_LEFT_OFFSET,
    VOLUME_RIGHT_OFFSET,
};
use crate::control::field_read;
use crate::volume::{volume_bits, Volume};

verus! {

/// Number of voices of the Sound Processing Unit.
pub const SPU_CHANNELS: usize = 24;

/// The values of the registers that the driver reads back.
#[derive(Clone, Copy, Debug, PartialEq, Eq, Structural)]
pub struct RegisterValues {
    /// Key on register.
    pub key_on: u32,
    /// Key off register.
    pub key_off: u32,
    /// Noise mode register.
    pub noise: u32,
    /// Pitch modulation register.
    pub pitch_mod: u32,
    /// SPU control register (SPUCNT).
    pub control: u16,
}

/// The SPU structure.
pub struct Spu {
    pending: Vec<SpuIo>,
}

enum SpuRamTransfer {
    Stop,
    ManualWrite,
    #[allow(dead_code)]
    DMAWrite,
    #[allow(dead_code)]
    DMARead,
}

impl SpuRamTransfer {
    spec fn bits(self) -> u16 {
        match self {
            SpuRamTransfer::Stop => 0,
            SpuRamTransfer::ManualWrite => 1,
            SpuRamTransfer::DMAWrite => 2,
            SpuRamTransfer::DMARead => 3,
        }
    }
}

impl From<SpuRamTransfer> for u16 {
    fn from(value: SpuRamTransfer) -> (r: Self) {
        match value {
            SpuRamTransfer::Stop => 0,
            SpuRamTransfer::ManualWrite => 1,
            SpuRamTransfer::DMAWrite => 2,
            SpuRamTransfer::DMARead => 3,
        }
    }
}

impl vstd::std_specs::convert::FromSpecImpl<SpuRamTransfer> for u16 {
    open spec fn obeys_from_spec() -> bool {
        true
    }

    closed spec fn from_spec(v: SpuRamTransfer) -> u16 {
        v.bits()
    }
}

#[allow(dead_code)]
enum SpuTransferMode {
    Fill,
    Normal,
    Repeat2,
    Repeat4,
    Repeat8,
}

impl SpuTransferMode {
    spec fn control_value(self) -> u16 {
        match self {
            SpuTransferMode::Fill => 0,
            SpuTransferMode::Normal => 2u16 << 1u16,
            SpuTransferMode::Repeat2 => 3u16 << 1u16,
            SpuTransferMode::Repeat4 => 4u16 << 1u16,
            SpuTransferMode::Repeat8 => 5u16 << 1u16,
        }
    }
}

/// Reference to a SPU channel.
pub struct SpuChannel {
    num: usize,
}

impl SpuChannel {
    #[verifier::type_invariant]
    spec fn in_range(self) -> bool {
        self.num < SPU_CHANNELS
    }

    /// The number of the voice.
    pub closed spec fn number(self) -> nat {
        self.num as nat
    }
}

/// The 16-bit register at `addr` among the read-back registers (the halves
/// of the 32-bit ones, and SPUCNT); 0 at any other address.
pub open spec fn reg16(r: RegisterValues, addr: u32) -> u16 {
    if addr == SPU_CNT {
        r.control
    } else if addr == SPU_KEYON {
        (r.key_on % 0x10000) as u16
    } else if addr == SPU_KEYON + 2 {
        (r.key_on / 0x10000) as u16
    } else if addr == SPU_KEYOFF {
        (r.key_off % 0x10000) as u16
    } else if addr == SPU_KEYOFF + 2 {
        (r.key_off / 0x10000) as u16
    } else if addr == SPU_NON {
        (r.noise % 0x10000) as u16
    } else if addr == SPU_NON + 2 {
        (r.noise / 0x10000) as u16
    } else if addr == SPU_PMON {
        (r.pitch_mod % 0x10000) as u16
    } else if addr == SPU_PMON + 2 {
        (r.pitch_mod / 0x10000) as u16
    } else {
        0
    }
}

/// `x` with its low half replaced by `v`.
pub open spec fn with_low(x: u32, v: u16) -> u32 {
    ((x / 0x10000) * 0x10000 + v) as u32
}

/// `x` with its high half replaced by `v`.
pub open spec fn with_high(x: u32, v: u16) -> u32 {
    (v * 0x10000 + x % 0x10000) as u32
}

/// The read-back registers once `v` is stored to the 16-bit register at
/// `addr`; a store elsewhere leaves them as they are.
pub open spec fn with_reg16(r: RegisterValues, addr: u32, v: u16) -> RegisterValues {
    if addr == SPU_CNT {
        RegisterValues { control: v, ..r }
    } else if addr == SPU_KEYON {
        RegisterValues { key_on: with_low(r.key_on, v), ..r }
    } else if addr == SPU_KEYON + 2 {
        RegisterValues { key_on: with_high(r.key_on, v), ..r }
    } else if addr == SPU_KEYOFF {
        RegisterValues { key_off: with_low(r.key_off, v), ..r }
    } else if addr == SPU_KEYOFF + 2 {
        RegisterValues { key_off: with_high(r.key_off, v), ..r }
    } else if addr == SPU_NON {
        RegisterValues { noise: with_low(r.noise, v), ..r }
    } else if addr == SPU_NON + 2 {
        RegisterValues { noise: with_high(r.noise, v), ..r }
    } else if addr == SPU_PMON {
        RegisterValues { pitch_mod: with_low(r.pitch_mod, v), ..r }
    } else if addr == SPU_PMON + 2 {
        RegisterValues { pitch_mod: with_high(r.pitch_mod, v), ..r }
    } else {
        r
    }
}

/// The read-back registers once `v` is stored to the 32-bit register at
/// `addr`; a store elsewhere leaves them as they are.
pub open spec fn with_reg32(r: RegisterValues, addr: u32, v: u32) -> RegisterValues {
    if addr == SPU_KEYON {
        RegisterValues { key_on: v, ..r }
    } else if addr == SPU_KEYOFF {
        RegisterValues { key_off: v, ..r }
    } else if addr == SPU_NON {
        RegisterValues { noise: v, ..r }
    } else if addr == SPU_PMON {
        RegisterValues { pitch_mod: v, ..r }
    } else {
        r
    }
}

/// The 32-bit register at `addr` among the read-back registers; 0 at any
/// other address.
pub open spec fn reg32(r: RegisterValues, addr: u32) -> u32 {
    if addr == SPU_KEYON {
        r.key_on
    } else if addr == SPU_KEYOFF {
        r.key_off
    } else if addr == SPU_NON {
        r.noise
    } else if addr == SPU_PMON {
        r.pitch_mod
    } else {
        0
    }
}

/// What performing `op` does to the read-back registers, which read `r`
/// before it.
pub open spec fn io_effect(r: RegisterValues, op: SpuIo) -> RegisterValues {
    match op {
        SpuIo::Write { addr, value } => with_reg16(r, addr, value),
        SpuIo::Update { addr, mask, bits } => with_reg16(r, addr, updated16(reg16(r, addr), mask, bits)),
        SpuIo::Update32 { addr, mask, bits } => with_reg32(
            r,
            addr,
            updated32(reg32(r, addr), mask, bits),
        ),
        _ => r,
    }
}

/// What performing `ops` in order does to the read-back registers, which
/// read `r` before them.
pub open spec fn after_io(r: RegisterValues, ops: Seq<SpuIo>) -> RegisterValues
    decreases ops.len(),
{
    if ops.len() == 0 {
        r
    } else {
        after_io(io_effect(r, ops[0]), ops.drop_first())
    }
}

/// Performing `a` then `b` is performing `a + b`.
pub proof fn lemma_after_io_append(r: RegisterValues, a: Seq<SpuIo>, b: Seq<SpuIo>)
    ensures
        after_io(r, a + b) == after_io(after_io(r, a), b),
    decreases a.len(),
{
    if a.len() == 0 {
        assert(a + b =~= b);
    } else {
        assert((a + b).drop_first() =~= a.drop_first() + b);
        assert((a + b)[0] == a[0]);
        lemma_after_io_append(io_effect(r, a[0]), a.drop_first(), b);
    }
}

/// The registers after `control` replaces SPUCNT.
pub open spec fn with_control(r: RegisterValues, control: u16) -> RegisterValues {
    RegisterValues { control, ..r }
}

/// The bit of voice `num` in a per-voice register.
pub open spec fn voice_bit(num: nat) -> u32 {
    1u32 << (num as u32)
}

/// The update that sets (`on`) or clears the bit of voice `num` in the
/// per-voice register at `addr`.
pub open spec fn voice_update(addr: u32, num: nat, on: bool) -> SpuIo {
    SpuIo::Update32 {
        addr,
        mask: voice_bit(num),
        bits: if on {
            voice_bit(num)
        } else {
            0
        },
    }
}

/// The registers once voice `num` is reset: its key off bit set, its noise
/// and pitch modulation bits clear.
pub open spec fn reset_registers(r: RegisterValues, num: nat) -> RegisterValues {
    RegisterValues {
        key_off: r.key_off | voice_bit(num),
        noise: r.noise & !voice_bit(num),
        pitch_mod: r.pitch_mod & !voice_bit(num),
        ..r
    }
}

/// The accesses of [`SpuChannel::reset`] on voice `num`.
pub open spec fn reset_ops(num: nat) -> Seq<SpuIo> {
    seq![
        store(channel_register(num, FREQUENCY_OFFSET), 0),
        store(channel_register(num, VOLUME_LEFT_OFFSET), 0),
        store(channel_register(num, VOLUME_RIGHT_OFFSET), 0),
        store(channel_register(num, SAMPLE_START_OFFSET), 0),
        voice_update(SPU_KEYOFF, num, true),
        voice_update(SPU_PMON, num, false),
        voice_update(SPU_NON, num, false),
    ]
}

/// The registers once voices `0..k` are reset in order.
pub open spec fn registers_after_resets(r: RegisterValues, k: nat) -> RegisterValues
    decreases k,
{
    if k == 0 {
        r
    } else {
        reset_registers(registers_after_resets(r, (k - 1) as nat), (k - 1) as nat)
    }
}

/// The accesses that reset voices `0..k` in order.
pub open spec fn resets_ops(k: nat) -> Seq<SpuIo>
    decreases k,
{
    if k == 0 {
        Seq::empty()
    } else {
        resets_ops((k - 1) as nat) + reset_ops((k - 1) as nat)
    }
}

/// The accesses of [`Spu::noise_settings`]: SPUCNT's noise shift field
/// (bits 13..=10) is replaced, then its noise step field (bits 9..=8).
pub open spec fn noise_settings_ops(shift: u16, step: u16) -> Seq<SpuIo> {
    seq![
        SpuIo::Update { addr: SPU_CNT, mask: 0x3C00, bits: (shift & 0xF) << 10u16 },
        SpuIo::Update { addr: SPU_CNT, mask: 0x0300, bits: (step & 0x3) << 8u16 },
    ]
}

/// SPUCNT after [`Spu::noise_settings`] with `shift` and `step`.
pub open spec fn noise_control(control: u16, shift: u16, step: u16) -> u16 {
    updated16(updated16(control, 0x3C00, (shift & 0xF) << 10u16), 0x0300, (step & 0x3) << 8u16)
}

/// The main volume that [`Spu::new`] sets.
pub open spec fn initial_main_volume() -> Volume {
    Volume::Normal(0x3FFF)
}

/// The accesses that initialise the SPU: the noise settings, the main
/// volume, then a reset of every voice in order.
pub open spec fn init_ops() -> Seq<SpuIo> {
    noise_settings_ops(0, 0) + seq![
        store(SPU_MVOLL, volume_bits(initial_main_volume())),
        store(SPU_MVOLR, volume_bits(initial_main_volume())),
    ] + resets_ops(SPU_CHANNELS as nat)
}

/// The registers once [`Spu::new`] has initialised a SPU whose registers
/// read `r`.
pub open spec fn initialized_registers(r: RegisterValues) -> RegisterValues {
    registers_after_resets(with_control(r, noise_control(r.control, 0, 0)), SPU_CHANNELS as nat)
}

/// The update that writes `mode` to SPUCNT's RAM transfer field (bits 5..=4).
pub open spec fn ram_transfer_update(mode: u16) -> SpuIo {
    SpuIo::Update { addr: SPU_CNT, mask: 0x30, bits: (mode & 0x3) << 4u16 }
}

/// SPUCNT with its RAM transfer field written with `mode`.
pub open spec fn ram_transfer_control(control: u16, mode: u16) -> u16 {
    updated16(control, 0x30, (mode & 0x3) << 4u16)
}

/// The FIFO stores of `words`.
pub open spec fn fifo_ops(words: Seq<u16>) -> Seq<SpuIo> {
    words.map_values(|w: u16| store(SPU_FIFO, w))
}

/// The accesses that send `data` through the FIFO in chunks of 32 words:
/// each chunk is stored to the FIFO, then SPUCNT starts a manual write, and
/// the SPU is awaited.
pub open spec fn chunk_ops(data: Seq<u16>) -> Seq<SpuIo>
    decreases data.len(),
{
    if data.len() == 0 {
        Seq::empty()
    } else {
        let n = if data.len() < 32 {
            data.len() as int
        } else {
            32
        };
        fifo_ops(data.take(n)) + seq![
            ram_transfer_update(1),
            SpuIo::WaitRamTransfer { mode: 1 },
            SpuIo::WaitTransferIdle,
        ] + chunk_ops(data.skip(n))
    }
}

/// The transfer address register value for SPU RAM address `address`, which
/// the SPU counts in 8-byte units.
pub open spec fn transfer_address(address: u32) -> u16 {
    ((address / 8) % 0x10000) as u16
}

/// The accesses of [`Spu::write_cpu`].
pub open spec fn write_cpu_ops(address: u32, data: Seq<u16>) -> Seq<SpuIo> {
    seq![
        store(SPU_TRANSCNT, 2u16 << 1u16),
        ram_transfer_update(0),
        SpuIo::WaitRamTransfer { mode: 0 },
        store(SPU_TRANSADDR, transfer_address(address)),
    ] + chunk_ops(data)
}

/// The words that `ops` store to the FIFO, in order.
pub open spec fn fifo_payload(ops: Seq<SpuIo>) -> Seq<u16>
    decreases ops.len(),
{
    if ops.len() == 0 {
        Seq::empty()
    } else {
        let rest = fifo_payload(ops.drop_first());
        match ops[0] {
            SpuIo::Write { addr, value } => if addr == SPU_FIFO {
                seq![value] + rest
            } else {
                rest
            },
            _ => rest,
        }
    }
}

proof fn lemma_payload_append(a: Seq<SpuIo>, b: Seq<SpuIo>)
    ensures
        fifo_payload(a + b) == fifo_payload(a) + fifo_payload(b),
    decreases a.len(),
{
    if a.len() == 0 {
        assert(a + b =~= b);
        assert(fifo_payload(a) + fifo_payload(b) =~= fifo_payload(b));
    } else {
        assert((a + b).drop_first() =~= a.drop_first() + b);
        lemma_payload_append(a.drop_first(), b);
        assert((a + b)[0] == a[0]);
        let pa = fifo_payload(a.drop_first());
        let pb = fifo_payload(b);
        assert(seq![a[0]->Write_value] + (pa + pb) =~= (seq![a[0]->Write_value] + pa) + pb);
        assert(fifo_payload(a + b) =~= fifo_payload(a) + fifo_payload(b));
    }
}

proof fn lemma_payload_no_fifo(ops: Seq<SpuIo>)
    requires
        forall|i: int| 0 <= i < ops.len() ==> !(#[trigger] ops[i] matches SpuIo::Write { addr, .. } && addr == SPU_FIFO),
    ensures
        fifo_payload(ops) == Seq::<u16>::empty(),
    decreases ops.len(),
{
    if ops.len() > 0 {
        assert forall|i: int| 0 <= i < ops.drop_first().len() implies !(#[trigger] ops.drop_first()[i] matches SpuIo::Write { addr, .. } && addr == SPU_FIFO) by {
            assert(ops.drop_first()[i] == ops[i + 1]);
        }
        lemma_payload_no_fifo(ops.drop_first());
        assert(!(ops[0] matches SpuIo::Write { addr, .. } && addr == SPU_FIFO));
    }
}

proof fn lemma_payload_fifo_ops(w: Seq<u16>)
    ensures
        fifo_payload(fifo_ops(w)) == w,
    decreases w.len(),
{
    if w.len() == 0 {
        assert(fifo_payload(fifo_ops(w)) =~= w);
    } else {
        assert(fifo_ops(w).drop_first() =~= fifo_ops(w.drop_first()));
        lemma_payload_fifo_ops(w.drop_first());
        assert(seq![w[0]] + w.drop_first() =~= w);
    }
}

/// Sending `data` in chunks stores every word of `data` to the FIFO, in
/// order, and nothing else.
pub proof fn lemma_chunk_payload(data: Seq<u16>)
    ensures
        fifo_payload(chunk_ops(data)) == data,
    decreases data.len(),
{
    if data.len() == 0 {
        assert(fifo_payload(chunk_ops(data)) =~= data);
    } else {
        let n = if data.len() < 32 {
            data.len() as int
        } else {
            32
        };
        let tail = seq![
            ram_transfer_update(1),
            SpuIo::WaitRamTransfer { mode: 1 },
            SpuIo::WaitTransferIdle,
        ];
        lemma_payload_append(fifo_ops(data.take(n)) + tail, chunk_ops(data.skip(n)));
        lemma_payload_append(fifo_ops(data.take(n)), tail);
        lemma_payload_fifo_ops(data.take(n));
        lemma_chunk_payload(data.skip(n));
        lemma_payload_no_fifo(tail);
        assert(data.take(n) + data.skip(n) =~= data);
        assert(fifo_payload(chunk_ops(data)) =~= data);
    }
}

/// Uploading `data` with [`Spu::write_cpu`] stores every word of `data` to
/// the FIFO, in order, and nothing else.
pub proof fn lemma_write_cpu_payload(address: u32, data: Seq<u16>)
    ensures
        fifo_payload(write_cpu_ops(address, data)) == data,
{
    let head = seq![
        store(SPU_TRANSCNT, 2u16 << 1u16),
        ram_transfer_update(0),
        SpuIo::WaitRamTransfer { mode: 0 },
        store(SPU_TRANSADDR, transfer_address(address)),
    ];
    lemma_payload_append(head, chunk_ops(data));
    lemma_chunk_payload(data);
    lemma_payload_no_fifo(head);
    assert(fifo_payload(write_cpu_ops(address, data)) =~= data);
}

/// The number of 32-word chunks in which `len` words are sent.
pub open spec fn chunk_count(len: nat) -> nat {
    (len + 31) / 32
}

/// The position, in the chunked sending of `len` words, just past the last
/// word of chunk `c`.
pub open spec fn chunk_end(len: nat, c: int) -> int {
    if 32 * (c + 1) < len {
        32 * (c + 1)
    } else {
        len as int
    }
}

/// Sending `len` words takes one manual-write start and two waits per chunk
/// of at most 32 words: word `k` is access `k + 3 * (k / 32)`, and chunk `c`
/// is followed by its start and waits, so at most 32 words ever sit in the
/// FIFO.
pub proof fn lemma_chunk_layout(data: Seq<u16>)
    ensures
        chunk_ops(data).len() == data.len() + 3 * chunk_count(data.len()),
        forall|k: int|
            0 <= k < data.len() ==> chunk_ops(data)[k + 3 * (k / 32)] == store(SPU_FIFO, data[k]),
        forall|c: int|
            0 <= c < chunk_count(data.len()) ==> {
                &&& chunk_ops(data)[chunk_end(data.len(), c) + 3 * c] == ram_transfer_update(1)
                &&& chunk_ops(data)[chunk_end(data.len(), c) + 3 * c + 1] == (SpuIo::WaitRamTransfer {
                    mode: 1,
                })
                &&& chunk_ops(data)[chunk_end(data.len(), c) + 3 * c + 2] == SpuIo::WaitTransferIdle
            },
    decreases data.len(),
{
    if data.len() > 0 {
        let len = data.len();
        let n = if len < 32 {
            len as int
        } else {
            32
        };
        let rest = data.skip(n);
        lemma_chunk_layout(rest);
        let a = fifo_ops(data.take(n));
        let b = seq![
            ram_transfer_update(1),
            SpuIo::WaitRamTransfer { mode: 1 },
            SpuIo::WaitTransferIdle,
        ];
        let ops = chunk_ops(data);
        assert(ops == a + b + chunk_ops(rest));
        assert(chunk_count(len) == 1 + chunk_count(rest.len()));
        assert forall|k: int| 0 <= k < len implies ops[k + 3 * (k / 32)] == store(SPU_FIFO, data[k]) by {
            if k < n {
                assert(k / 32 == 0);
            } else {
                let j = k - 32;
                assert(k / 32 == j / 32 + 1);
                assert(rest[j] == data[k]);
                assert(chunk_ops(rest)[j + 3 * (j / 32)] == store(SPU_FIFO, rest[j]));
            }
        }
        assert forall|c: int| 0 <= c < chunk_count(len) implies {
            &&& ops[chunk_end(len, c) + 3 * c] == ram_transfer_update(1)
            &&& ops[chunk_end(len, c) + 3 * c + 1] == (SpuIo::WaitRamTransfer { mode: 1 })
            &&& ops[chunk_end(len, c) + 3 * c + 2] == SpuIo::WaitTransferIdle
        } by {
            if c == 0 {
                assert(chunk_end(len, 0) == n);
            } else {
                let d = c - 1;
                assert(len > 32);
                assert(chunk_end(rest.len(), d) == chunk_end(len, c) - 32);
                assert(0 <= d < chunk_count(rest.len()));
                let e = chunk_end(rest.len(), d) + 3 * d;
                assert(chunk_ops(rest)[e] == ram_transfer_update(1));
                assert(chunk_ops(rest)[e + 1] == (SpuIo::WaitRamTransfer { mode: 1 }));
                assert(chunk_ops(rest)[e + 2] == SpuIo::WaitTransferIdle);
            }
        }
    }
}

/// An upload makes its 4 set-up accesses (transfer mode, stop, wait, address),
/// then sends the words in chunks of at most 32 as [`lemma_chunk_layout`]
/// describes, each chunk followed by a manual-write start and its waits.
pub proof fn lemma_write_cpu_layout(address: u32, data: Seq<u16>)
    ensures
        write_cpu_ops(address, data).len() == 4 + data.len() + 3 * chunk_count(data.len()),
        write_cpu_ops(address, data)[0] == store(SPU_TRANSCNT, 4),
        write_cpu_ops(address, data)[1] == ram_transfer_update(0),
        write_cpu_ops(address, data)[2] == (SpuIo::WaitRamTransfer { mode: 0 }),
        write_cpu_ops(address, data)[3] == store(SPU_TRANSADDR, ((address / 8) % 0x10000) as u16),
        forall|k: int|
            0 <= k < data.len() ==> write_cpu_ops(address, data)[4 + k + 3 * (k / 32)] == store(
                SPU_FIFO,
                data[k],
            ),
        forall|c: int|
            0 <= c < chunk_count(data.len()) ==> {
                &&& write_cpu_ops(address, data)[4 + chunk_end(data.len(), c) + 3 * c]
                    == ram_transfer_update(1)
                &&& write_cpu_ops(address, data)[4 + chunk_end(data.len(), c) + 3 * c + 1] == (
                SpuIo::WaitRamTransfer { mode: 1 })
                &&& write_cpu_ops(address, data)[4 + chunk_end(data.len(), c) + 3 * c + 2]
                    == SpuIo::WaitTransferIdle
            },
{
    lemma_chunk_layout(data);
    assert(2u16 << 1u16 == 4) by (bit_vector);
    let ops = write_cpu_ops(address, data);
    assert forall|k: int| 0 <= k < data.len() implies ops[4 + k + 3 * (k / 32)] == store(
        SPU_FIFO,
        data[k],
    ) by {
        assert(chunk_ops(data)[k + 3 * (k / 32)] == store(SPU_FIFO, data[k]));
    }
    assert forall|c: int| 0 <= c < chunk_count(data.len()) implies {
        &&& ops[4 + chunk_end(data.len(), c) + 3 * c] == ram_transfer_update(1)
        &&& ops[4 + chunk_end(data.len(), c) + 3 * c + 1] == (SpuIo::WaitRamTransfer { mode: 1 })
        &&& ops[4 + chunk_end(data.len(), c) + 3 * c + 2] == SpuIo::WaitTransferIdle
    } by {
        let e = chunk_end(data.len(), c) + 3 * c;
        assert(chunk_ops(data)[e] == ram_transfer_update(1));
        assert(chunk_ops(data)[e + 1] == (SpuIo::WaitRamTransfer { mode: 1 }));
        assert(chunk_ops(data)[e + 2] == SpuIo::WaitTransferIdle);
    }
}

proof fn lemma_updated32_mask(x: u32, m: u32)
    ensures
        updated32(x, m, m) == x | m,
        updated32(x, m, 0) == x & !m,
{
    assert((x & !m) | (m & m) == x | m && (x & !m) | (0u32 & m) == x & !m) by (bit_vector);
}

/// Resetting voice `num` (below 24) sets its key off bit, clears its noise
/// and pitch modulation bits, and keeps every other bit of the read-back
/// registers, whatever they read before.
pub proof fn lemma_reset_effect(r: RegisterValues, num: nat)
    requires
        num < SPU_CHANNELS,
    ensures
        after_io(r, reset_ops(num)) == reset_registers(r, num),
{
    reveal_with_fuel(after_io, 8);
    lemma_updated32_mask(r.key_off, voice_bit(num));
    lemma_updated32_mask(r.pitch_mod, voice_bit(num));
    lemma_updated32_mask(r.noise, voice_bit(num));
}

/// Resetting voices `0..k` in order has the effect of
/// [`registers_after_resets`].
pub proof fn lemma_resets_effect(r: RegisterValues, k: nat)
    requires
        k <= SPU_CHANNELS,
    ensures
        after_io(r, resets_ops(k)) == registers_after_resets(r, k),
    decreases k,
{
    if k == 0 {
    } else {
        lemma_resets_effect(r, (k - 1) as nat);
        lemma_after_io_append(r, resets_ops((k - 1) as nat), reset_ops((k - 1) as nat));
        lemma_reset_effect(registers_after_resets(r, (k - 1) as nat), (k - 1) as nat);
    }
}

/// The noise settings replace SPUCNT's noise fields and touch nothing else.
pub proof fn lemma_noise_settings_effect(r: RegisterValues, shift: u16, step: u16)
    ensures
        after_io(r, noise_settings_ops(shift, step)) == with_control(
            r,
            noise_control(r.control, shift, step),
        ),
{
    reveal_with_fuel(after_io, 3);
}

/// The noise settings replace SPUCNT bits 13..=10 with the shift and bits
/// 9..=8 with the step, and keep every other bit.
pub proof fn lemma_noise_control(control: u16, shift: u16, step: u16)
    ensures
        noise_control(control, shift, step) == (control & !0x3F00u16) | ((shift & 0xF) << 10u16) | ((
        step & 3) << 8u16),
{
    assert((((control & !0x3C00u16) | (((shift & 0xFu16) << 10u16) & 0x3C00u16)) & !0x0300u16) | (((
    step & 0x3u16) << 8u16) & 0x0300u16) == (control & !0x3F00u16) | ((shift & 0xFu16) << 10u16) | ((
    step & 3u16) << 8u16)) by (bit_vector);
}

/// Initialising the SPU, whatever its registers read before, has the effect
/// of [`initialized_registers`].
pub proof fn lemma_init_effect(r: RegisterValues)
    ensures
        after_io(r, init_ops()) == initialized_registers(r),
{
    let a = noise_settings_ops(0, 0);
    let b = seq![
        store(SPU_MVOLL, volume_bits(initial_main_volume())),
        store(SPU_MVOLR, volume_bits(initial_main_volume())),
    ];
    lemma_after_io_append(r, a + b, resets_ops(SPU_CHANNELS as nat));
    lemma_after_io_append(r, a, b);
    lemma_noise_settings_effect(r, 0, 0);
    reveal_with_fuel(after_io, 3);
    lemma_resets_effect(with_control(r, noise_control(r.control, 0, 0)), SPU_CHANNELS as nat);
}

/// After voices `0..k` are reset, the key off register holds its old bits
/// and the bits of voices `0..k`, the noise and pitch modulation registers
/// lose the bits of voices `0..k`, and the other registers are kept.
pub proof fn lemma_registers_after_resets(r: RegisterValues, k: nat)
    requires
        k <= SPU_CHANNELS,
    ensures
        ({
            let m = (((1u32 << (k as u32)) - 1) as u32);
            let a = registers_after_resets(r, k);
            &&& a.key_off == r.key_off | m
            &&& a.noise == r.noise & !m
            &&& a.pitch_mod == r.pitch_mod & !m
            &&& a.key_on == r.key_on
            &&& a.control == r.control
        }),
    decreases k,
{
    if k > 0 {
        lemma_registers_after_resets(r, (k - 1) as nat);
        let j = (k - 1) as u32;
        let x = r.key_off;
        let y = r.noise;
        let z = r.pitch_mod;
        assert((x | (((1u32 << j) - 1) as u32)) | (1u32 << j) == x | (((1u32 << ((j + 1) as u32)) - 1)
            as u32) && (y & !(((1u32 << j) - 1) as u32)) & !(1u32 << j) == y & !(((1u32 << ((j + 1)
            as u32)) - 1) as u32) && (z & !(((1u32 << j) - 1) as u32)) & !(1u32 << j) == z & !(((1u32
            << ((j + 1) as u32)) - 1) as u32)) by (bit_vector)
            requires j < 24u32;
    } else {
        let x = r.key_off;
        let y = r.noise;
        let z = r.pitch_mod;
        assert(x | (((1u32 << 0u32) - 1) as u32) == x && y & !(((1u32 << 0u32) - 1) as u32) == y && z
            & !(((1u32 << 0u32) - 1) as u32) == z) by (bit_vector);
    }
}

/// Initialising the SPU sets the key off bit of every voice, clears the
/// noise and pitch modulation bits of every voice, sets the noise shift and
/// step to 0, and keeps every other bit of every read-back register.
pub proof fn lemma_initialized_registers(r: RegisterValues)
    ensures
        initialized_registers(r).key_off == r.key_off | 0xFF_FFFF,
        initialized_registers(r).noise == r.noise & !0xFF_FFFFu32,
        initialized_registers(r).pitch_mod == r.pitch_mod & !0xFF_FFFFu32,
        initialized_registers(r).key_on == r.key_on,
        initialized_registers(r).control == r.control & !0x3F00u16,
{
    lemma_registers_after_resets(with_control(r, noise_control(r.control, 0, 0)), SPU_CHANNELS as nat);
    assert(((1u32 << 24u32) - 1) as u32 == 0xFF_FFFFu32) by (bit_vector);
    lemma_noise_control(r.control, 0, 0);
    let c = r.control;
    assert((c & !0x3F00u16) | ((0u16 & 0xFu16) << 10u16) | ((0u16 & 3u16) << 8u16) == c & !0x3F00u16)
        by (bit_vector);
}

/// Writing the RAM transfer mode makes the field (SPUCNT bits 5..=4) read
/// that mode and keeps every other bit; a later write replaces it whole.
pub proof fn lemma_ram_transfer_control(control: u16, mode: u16, later: u16)
    requires
        mode <= 3,
    ensures
        field_read(ram_transfer_control(control, mode), 0b11, 4) == mode,
        ram_transfer_control(control, mode) & !0x30u16 == control & !0x30u16,
        ram_transfer_control(ram_transfer_control(control, mode), later) == ram_transfer_control(
            control,
            later,
        ),
{
    assert((((control & !0x30u16) | (((mode & 0x3u16) << 4u16) & 0x30u16)) >> 4u16) & 0b11u16 == mode
        && ((control & !0x30u16) | (((mode & 0x3u16) << 4u16) & 0x30u16)) & !0x30u16 == control
        & !0x30u16 && (((control & !0x30u16) | (((mode & 0x3u16) << 4u16) & 0x30u16)) & !0x30u16) | (((
    later & 0x3u16) << 4u16) & 0x30u16) == (control & !0x30u16) | (((later & 0x3u16) << 4u16)
        & 0x30u16)) by (bit_vector)
        requires mode <= 3u16;
}

proof fn lemma_fifo_effect(r: RegisterValues, w: Seq<u16>)
    ensures
        after_io(r, fifo_ops(w)) == r,
    decreases w.len(),
{
    if w.len() > 0 {
        assert(fifo_ops(w).drop_first() =~= fifo_ops(w.drop_first()));
        lemma_fifo_effect(r, w.drop_first());
    }
}

proof fn lemma_chunks_effect(r: RegisterValues, data: Seq<u16>)
    ensures
        after_io(r, chunk_ops(data)) == (if data.len() == 0 {
            r
        } else {
            with_control(r, ram_transfer_control(r.control, 1))
        }),
    decreases data.len(),
{
    if data.len() > 0 {
        let n = if data.len() < 32 {
            data.len() as int
        } else {
            32
        };
        let tail = seq![
            ram_transfer_update(1),
            SpuIo::WaitRamTransfer { mode: 1 },
            SpuIo::WaitTransferIdle,
        ];
        lemma_after_io_append(r, fifo_ops(data.take(n)) + tail, chunk_ops(data.skip(n)));
        lemma_after_io_append(r, fifo_ops(data.take(n)), tail);
        lemma_fifo_effect(r, data.take(n));
        reveal_with_fuel(after_io, 4);
        let r1 = with_control(r, ram_transfer_control(r.control, 1));
        assert(after_io(r, tail) == r1);
        lemma_chunks_effect(r1, data.skip(n));
        lemma_ram_transfer_control(r.control, 1, 1);
    }
}

/// Uploading `data` stops the RAM transfer and, when there is data, leaves
/// SPUCNT's RAM transfer field in manual write; every other bit of the
/// read-back registers is kept, whatever they read before.
pub proof fn lemma_write_cpu_effect(r: RegisterValues, address: u32, data: Seq<u16>)
    ensures
        after_io(r, write_cpu_ops(address, data)) == with_control(
            r,
            if data.len() == 0 {
                ram_transfer_control(r.control, 0)
            } else {
                ram_transfer_control(r.control, 1)
            },
        ),
{
    let head = seq![
        store(SPU_TRANSCNT, 2u16 << 1u16),
        ram_transfer_update(0),
        SpuIo::WaitRamTransfer { mode: 0 },
        store(SPU_TRANSADDR, transfer_address(address)),
    ];
    lemma_after_io_append(r, head, chunk_ops(data));
    reveal_with_fuel(after_io, 5);
    let r0 = with_control(r, ram_transfer_control(r.control, 0));
    assert(after_io(r, head) == r0);
    lemma_chunks_effect(r0, data);
    lemma_ram_transfer_control(r.control, 0, 1);
}

proof fn lemma_transfer_address(address: u32)
    ensures
        ((address >> 3) as u16) == transfer_address(address),
{
    assert(((address >> 3) as u16) == (address / 8) % 0x10000) by (bit_vector);
}

/// The SPU counts RAM addresses in 8-byte units: addresses that differ only
/// in their 3 lowest bits give the same register value.
pub proof fn lemma_low_address_bits_ignored(a: u32, b: u32)
    requires
        a / 8 == b / 8,
    ensures
        transfer_address(a) == transfer_address(b),
{
}

/// Updating the bit of voice `n` in a per-voice register sets (or clears)
/// that bit and leaves the bit of every other voice as it was.
pub proof fn lemma_voice_update(x: u32, n: nat, m: nat, on: bool)
    requires
        n < SPU_CHANNELS,
        m < SPU_CHANNELS,
    ensures
        ({
            let y = updated32(x, voice_bit(n), if on { voice_bit(n) } else { 0 });
            &&& (y & voice_bit(n) != 0) == on
            &&& n != m ==> (y & voice_bit(m)) == (x & voice_bit(m))
        }),
{
    let a = n as u32;
    let b = m as u32;
    lemma_updated32_mask(x, voice_bit(n));
    assert((x | (1u32 << a)) & (1u32 << a) != 0 && (x & !(1u32 << a)) & (1u32 << a) == 0 && (a != b
        ==> ((x | (1u32 << a)) & (1u32 << b)) == (x & (1u32 << b)) && ((x & !(1u32 << a)) & (1u32
        << b)) == (x & (1u32 << b)))) by (bit_vector)
        requires a < 24u32, b < 24u32;
}

impl Spu {
    /// The register accesses queued so far, oldest first.
    pub closed spec fn pending_io(&self) -> Seq<SpuIo> {
        self.pending@
    }

    fn push(&mut self, op: SpuIo)
        ensures
            final(self).pending_io() == old(self).pending_io().push(op),
    {
        self.pending.push(op);
    }

    /// Hands out the queued register accesses, oldest first, and empties the
    /// queue.
    pub fn take_pending(&mut self) -> (r: Vec<SpuIo>)
        ensures
            r@ == old(self).pending_io(),
            final(self).pending_io() == Seq::<SpuIo>::empty(),
    {
        let mut out: Vec<SpuIo> = Vec::new();
        std::mem::swap(&mut out, &mut self.pending);
        out
    }

    /// Initializes the SPU to default values, and returns a [`Spu`]
    /// structure: the noise generator is set to shift 0 and step 0, the main
    /// volume to `Normal(0x3FFF)`, and every voice is reset.
    pub fn new() -> (r: Self)
        ensures
            r.pending_io() == init_ops(),
    {
        let mut spu = Spu { pending: Vec::new() };
        spu.noise_settings(0, 0);
        spu.main_volume(Volume::Normal(0x3FFF));
        let ghost p0 = spu.pending_io();
        let mut channels = spu.channels();
        assert(p0 + resets_ops(0) =~= p0);
        while channels.len() != 0
            invariant
                channels.end() == SPU_CHANNELS,
                channels.position() <= SPU_CHANNELS,
                spu.pending_io() == p0 + resets_ops(channels.position()),
            decreases SPU_CHANNELS - channels.position(),
        {
            let ghost k = channels.position();
            match channels.next() {
                Some(mut channel) => {
                    channel.reset(&mut spu);
                    assert(spu.pending_io() =~= p0 + resets_ops(k + 1));
                },
                None => {},
            }
        }
        assert(spu.pending_io() =~= init_ops());
        spu
    }

    /// Gets a specific channel from the SPU without checking bounds; the
    /// channel must be within the range of the channels that the SPU has.
    pub fn unchecked_channel(&self, channel: usize) -> (r: SpuChannel)
        requires
            channel < SPU_CHANNELS,
        ensures
            r.number() == channel,
    {
        SpuChannel { num: channel }
    }

    /// Gets a specific channel from the SPU. If the channel number is not in
    /// range of the amount of channels that the SPU has, it'll return
    /// [`None`].
    pub fn channel(&self, channel: usize) -> (r: Option<SpuChannel>)
        ensures
            channel < SPU_CHANNELS ==> (r matches Some(c) && c.number() == channel),
            channel >= SPU_CHANNELS ==> r is None,
    {
        if channel < SPU_CHANNELS {
            Some(self.unchecked_channel(channel))
        } else {
            None
        }
    }

    /// Returns an iterator over the SPU's channels.
    pub fn channels(&self) -> (r: ChannelIterator)
        ensures
            r.position() == 0,
            r.end() == SPU_CHANNELS,
    {
        ChannelIterator { next: 0, end: SPU_CHANNELS }
    }

    /// Sets the SPU's main left volume.
    pub fn main_volume_left(&mut self, vol: Volume)
        ensures
            final(self).pending_io() == old(self).pending_io().push(store(SPU_MVOLL, volume_bits(vol))),
    {
        let vol_bits: u16 = vol.into();
        self.push(SpuIo::Write { addr: SPU_MVOLL, value: vol_bits });
    }

    /// Sets the SPU's main right volume.
    pub fn main_volume_right(&mut self, vol: Volume)
        ensures
            final(self).pending_io() == old(self).pending_io().push(store(SPU_MVOLR, volume_bits(vol))),
    {
        let vol_bits: u16 = vol.into();
        self.push(SpuIo::Write { addr: SPU_MVOLR, value: vol_bits });
    }

    /// Sets the SPU's main volume.
    pub fn main_volume(&mut self, vol: Volume)
        ensures
            final(self).pending_io() == old(self).pending_io() + seq![
                store(SPU_MVOLL, volume_bits(vol)),
                store(SPU_MVOLR, volume_bits(vol)),
            ],
    {
        self.main_volume_left(vol);
        self.main_volume_right(vol);
        assert(self.pending_io() =~= old(self).pending_io() + seq![
            store(SPU_MVOLL, volume_bits(vol)),
            store(SPU_MVOLR, volume_bits(vol)),
        ]);
    }

    /// Configure the Noise Generator for all channels that have noise mode
    /// enabled.
    ///
    /// `step` finetunes the frequency of the noise output (by skipping over
    /// steps in the timer), while `shift` coarsely tunes the frequency (by
    /// the shifting the initial value of the timer). Each is taken modulo
    /// 2^16, and its low bits replace its SPUCNT field.
    pub fn noise_settings(&mut self, shift: usize, step: usize)
        ensures
            final(self).pending_io() == old(self).pending_io() + noise_settings_ops(
                shift as u16,
                step as u16,
            ),
    {
        let shift = shift as u16;
        let step = step as u16;
        self.push(SpuIo::Update { addr: SPU_CNT, mask: 0x3C00, bits: (shift & 0xF) << 10u16 });
        self.push(SpuIo::Update { addr: SPU_CNT, mask: 0x0300, bits: (step & 0x3) << 8u16 });
        assert(self.pending_io() =~= old(self).pending_io() + noise_settings_ops(shift, step));
    }

    fn set_ram_transfer(&mut self, mode: SpuRamTransfer)
        ensures
            final(self).pending_io() == old(self).pending_io() + seq![
                ram_transfer_update(mode.bits()),
                SpuIo::WaitRamTransfer { mode: mode.bits() },
            ],
    {
        let mode_val: u16 = mode.into();
        // Change the RAM transfer mode.
        self.push(SpuIo::Update { addr: SPU_CNT, mask: 0x30, bits: (mode_val & 0x3) << 4u16 });
        // Wait until the change gets applied to the SPU.
        self.push(SpuIo::WaitRamTransfer { mode: mode_val });
        assert(self.pending_io() =~= old(self).pending_io() + seq![
            ram_transfer_update(mode.bits()),
            SpuIo::WaitRamTransfer { mode: mode.bits() },
        ]);
    }

    fn set_transfer_mode(&mut self, mode: SpuTransferMode)
        ensures
            final(self).pending_io() == old(self).pending_io().push(
                store(SPU_TRANSCNT, mode.control_value()),
            ),
    {
        let value: u16 = match mode {
            SpuTransferMode::Fill => 0,
            SpuTransferMode::Normal => 2 << 1,
            SpuTransferMode::Repeat2 => 3 << 1,
            SpuTransferMode::Repeat4 => 4 << 1,
            SpuTransferMode::Repeat8 => 5 << 1,
        };
        self.push(SpuIo::Write { addr: SPU_TRANSCNT, value });
    }

    fn set_transfer_address(&mut self, address: u32)
        ensures
            final(self).pending_io() == old(self).pending_io().push(
                store(SPU_TRANSADDR, transfer_address(address)),
            ),
    {
        proof {
            lemma_transfer_address(address);
        }
        self.push(SpuIo::Write { addr: SPU_TRANSADDR, value: (address >> 3) as u16 });
    }

    /// Write data to an address in the SPU's RAM, without using the SPU's DMA
    /// channel.
    ///
    /// Note: The SPU RAM is only addressable by 8-byte chunks, so the
    /// right-most 3 bits will be ignored.
    pub fn write_cpu(&mut self, address: u32, data: &[u16])
        ensures
            final(self).pending_io() == old(self).pending_io() + write_cpu_ops(address, data@),
    {
        let ghost goal = self.pending_io() + write_cpu_ops(address, data@);
        // Set the SPU transfer mode to normal.
        self.set_transfer_mode(SpuTransferMode::Normal);
        // Set the RAM transfer mode to "Stop" in SPUCNT
        self.set_ram_transfer(SpuRamTransfer::Stop);
        // Set the address to transfer data to.
        self.set_transfer_address(address);
        assert(data@.skip(0) =~= data@);
        assert(self.pending_io() + chunk_ops(data@.skip(0)) =~= goal);
        let len = data.len();
        let mut pos: usize = 0;
        while pos < len
            invariant
                len == data@.len(),
                pos <= len,
                self.pending_io() + chunk_ops(data@.skip(pos as int)) =~= goal,
            decreases len - pos,
        {
            let ghost rest = data@.skip(pos as int);
            let ghost before = self.pending_io();
            let end = if len - pos < 32 {
                len
            } else {
                pos + 32
            };
            let ghost n = end - pos;
            // Send each half-word to the SPU's FIFO (the FIFO only has space
            // for 32.)
            let mut i = pos;
            while i < end
                invariant
                    pos <= i <= end,
                    end <= len,
                    len == data@.len(),
                    self.pending_io() == before + fifo_ops(data@.subrange(pos as int, i as int)),
                decreases end - i,
            {
                self.push(SpuIo::Write { addr: SPU_FIFO, value: data[i] });
                assert(data@.subrange(pos as int, i + 1) =~= data@.subrange(pos as int, i as int).push(
                    data@[i as int],
                ));
                assert(fifo_ops(data@.subrange(pos as int, i + 1)) =~= fifo_ops(
                    data@.subrange(pos as int, i as int),
                ).push(store(SPU_FIFO, data@[i as int])));
                i = i + 1;
            }
            // Set the RAM transfer mode to "Manual Write" now.
            self.set_ram_transfer(SpuRamTransfer::ManualWrite);
            // Wait for the Transfer Busy flag to go off.
            self.push(SpuIo::WaitTransferIdle);
            proof {
                assert(rest.take(n as int) =~= data@.subrange(pos as int, end as int));
                assert(rest.skip(n as int) =~= data@.skip(end as int));
                assert(chunk_ops(rest) == fifo_ops(rest.take(n as int)) + seq![
                    ram_transfer_update(1),
                    SpuIo::WaitRamTransfer { mode: 1 },
                    SpuIo::WaitTransferIdle,
                ] + chunk_ops(rest.skip(n as int)));
                assert(self.pending_io() =~= before + fifo_ops(rest.take(n as int)) + seq![
                    ram_transfer_update(1),
                    SpuIo::WaitRamTransfer { mode: 1 },
                    SpuIo::WaitTransferIdle,
                ]);
            }
            pos = end;
        }
        assert(data@.skip(len as int) =~= Seq::<u16>::empty());
    }
}

impl Default for Spu {
    fn default() -> (r: Self)
        ensures
            r.pending_io() == init_ops(),
    {
        Self::new()
    }
}

impl SpuChannel {
    fn register(&self, offset: u32) -> (r: u32)
        requires
            offset < 16,
        ensures
            r == channel_register(self.number(), offset),
    {
        proof {
            use_type_invariant(self);
        }
        channel_register_address(self.num, offset)
    }

    fn mask(&self) -> (r: u32)
        ensures
            r == voice_bit(self.number()),
    {
        proof {
            use_type_invariant(self);
        }
        1u32 << (self.num as u32)
    }

    /// Resets a channel: zero frequency, zero volume, sample start 0, key
    /// off, pitch modulation and noise off.
    pub fn reset(&mut self, spu: &mut Spu)
        ensures
            *final(self) == *old(self),
            final(spu).pending_io() == old(spu).pending_io() + reset_ops(old(self).number()),
    {
        self.frequency(spu, 0);
        self.volume(spu, Volume::Normal(0));
        self.sample_start(spu, 0);
        self.key_off(spu);
        self.pitch_mod(spu, false);
        self.noise(spu, false);
        assert(spu.pending_io() =~= old(spu).pending_io() + reset_ops(self.number()));
    }

    /// Sets the left volume of a channel.
    pub fn volume_left(&mut self, spu: &mut Spu, vol: Volume)
        ensures
            *final(self) == *old(self),
            final(spu).pending_io() == old(spu).pending_io().push(
                store(channel_register(old(self).number(), VOLUME_LEFT_OFFSET), volume_bits(vol)),
            ),
    {
        let vol_bits: u16 = vol.into();
        let addr = self.register(VOLUME_LEFT_OFFSET);
        spu.push(SpuIo::Write { addr, value: vol_bits });
    }

    /// Sets the right volume of a channel.
    pub fn volume_right(&mut self, spu: &mut Spu, vol: Volume)
        ensures
            *final(self) == *old(self),
            final(spu).pending_io() == old(spu).pending_io().push(
                store(channel_register(old(self).number(), VOLUME_RIGHT_OFFSET), volume_bits(vol)),
            ),
    {
        let vol_bits: u16 = vol.into();
        let addr = self.register(VOLUME_RIGHT_OFFSET);
        spu.push(SpuIo::Write { addr, value: vol_bits });
    }

    /// Sets the volume (both left/right) of a channel.
    pub fn volume(&mut self, spu: &mut Spu, vol: Volume)
        ensures
            *final(self) == *old(self),
            final(spu).pending_io() == old(spu).pending_io() + seq![
                store(channel_register(old(self).number(), VOLUME_LEFT_OFFSET), volume_bits(vol)),
                store(channel_register(old(self).number(), VOLUME_RIGHT_OFFSET), volume_bits(vol)),
            ],
    {
        self.volume_left(spu, vol);
        self.volume_right(spu, vol);
        assert(spu.pending_io() =~= old(spu).pending_io() + seq![
            store(channel_register(self.number(), VOLUME_LEFT_OFFSET), volume_bits(vol)),
            store(channel_register(self.number(), VOLUME_RIGHT_OFFSET), volume_bits(vol)),
        ]);
    }

    /// Sets the address of the sample the channel should be playing off of.
    /// The address may be at most `1 << 19`.
    ///
    /// Note: The SPU RAM is only addressable by 8-byte chunks, so the
    /// right-most 3 bits will be ignored.
    pub fn sample_start(&mut self, spu: &mut Spu, sample: u32)
        requires
            sample <= 1u32 << 19,
        ensures
            *final(self) == *old(self),
            final(spu).pending_io() == old(spu).pending_io().push(
                store(channel_register(old(self).number(), SAMPLE_START_OFFSET), transfer_address(sample)),
            ),
    {
        // In the SPU, samples are indexed by 8-byte units.
        proof {
            lemma_transfer_address(sample);
        }
        let addr = self.register(SAMPLE_START_OFFSET);
        spu.push(SpuIo::Write { addr, value: (sample >> 3) as u16 });
    }

    /// Sets the ADPCM sample rate of the channel to the specified frequency
    /// (0x1000 == 44100Hz).
    ///
    /// Note: This does not affect the frequency of the channel if noise mode
    /// is active on it. For that, you should check out
    /// [`Spu::noise_settings`]
    pub fn frequency(&mut self, spu: &mut Spu, frequency: u16)
        ensures
            *final(self) == *old(self),
            final(spu).pending_io() == old(spu).pending_io().push(
                store(channel_register(old(self).number(), FREQUENCY_OFFSET), frequency),
            ),
    {
        let addr = self.register(FREQUENCY_OFFSET);
        spu.push(SpuIo::Write { addr, value: frequency });
    }

    /// Starts the ADSR envelope and automatically initializes the ADSR volume
    /// to zero
    pub fn key_on(&self, spu: &mut Spu)
        ensures
            final(spu).pending_io() == old(spu).pending_io().push(
                voice_update(SPU_KEYON, self.number(), true),
            ),
    {
        let m = self.mask();
        spu.push(SpuIo::Update32 { addr: SPU_KEYON, mask: m, bits: m });
    }

    /// Releases the key in the channel, which starts the Release stage of the
    /// ADSR envelope, if set.
    pub fn key_off(&self, spu: &mut Spu)
        ensures
            final(spu).pending_io() == old(spu).pending_io().push(
                voice_update(SPU_KEYOFF, self.number(), true),
            ),
    {
        let m = self.mask();
        spu.push(SpuIo::Update32 { addr: SPU_KEYOFF, mask: m, bits: m });
    }

    /// Enable or disable noise mode on a specific channel. If enabled, the
    /// channel will stop outputting ADPCM samples and instead output noise
    /// samples from the SPU's Noise Generator.
    ///
    /// The Noise Generator can be configured, using the
    /// [`Spu::noise_settings`] function.
    pub fn noise(&self, spu: &mut Spu, enable: bool)
        ensures
            final(spu).pending_io() == old(spu).pending_io().push(
                voice_update(SPU_NON, self.number(), enable),
            ),
    {
        let m = self.mask();
        let bits = if enable {
            m
        } else {
            0
        };
        spu.push(SpuIo::Update32 { addr: SPU_NON, mask: m, bits });
    }

    /// Enables or disables pitch modulation of the specified channel from the
    /// amplitude of the previous channel.
    ///
    /// Note: Setting pitch modulation on channel 0 will do nothing, as there
    /// is no previous channel.
    pub fn pitch_mod(&self, spu: &mut Spu, enable: bool)
        ensures
            final(spu).pending_io() == old(spu).pending_io().push(
                voice_update(SPU_PMON, self.number(), enable),
            ),
    {
        let m = self.mask();
        let bits = if enable {
            m
        } else {
            0
        };
        spu.push(SpuIo::Update32 { addr: SPU_PMON, mask: m, bits });
    }
}

/// SPU channel iterator
pub struct ChannelIterator {
    next: usize,
    end: usize,
}

impl ChannelIterator {
    #[verifier::type_invariant]
    spec fn in_range(self) -> bool {
        self.next <= self.end <= SPU_CHANNELS
    }

    /// The number of the next channel to hand out.
    pub closed spec fn position(&self) -> nat {
        self.next as nat
    }

    /// One past the number of the last channel to hand out.
    pub closed spec fn end(&self) -> nat {
        self.end as nat
    }

    /// The next channel, if any is left.
    pub fn next(&mut self) -> (r: Option<SpuChannel>)
        ensures
            old(self).position() < old(self).end() ==> (r matches Some(c) && c.number()
                == old(self).position() && final(self).position() == old(self).position() + 1
                && final(self).end() == old(self).end()),
            old(self).position() >= old(self).end() ==> r is None && *final(self) == *old(self),
    {
        proof {
            use_type_invariant(&*self);
        }
        if self.next < self.end {
            let num = self.next;
            self.next = self.next + 1;
            Some(SpuChannel { num })
        } else {
            None
        }
    }

    /// The number of channels left.
    pub fn len(&self) -> (r: usize)
        ensures
            r == self.end() - self.position(),
    {
        proof {
            use_type_invariant(self);
        }
        self.end - self.next
    }
}

} // verus!
