//! The SPU register map and the register accesses that the SPU model queues
//! for the hardware.
use crate::control::field_read;
use crate::memory::bit16;
use vstd::prelude::*;

verus! {

/// Address of the register block of voice 0; voice `n` follows at
/// `n * SPU_CHANNEL_REGS_SIZE`.
pub const SPU_CHANNEL_REGS: u32 = 0x1F80_1C00;
/// Size in bytes of the register block of one voice.
pub const SPU_CHANNEL_REGS_SIZE: u32 = 16;
/// Offset of a voice's left volume register.
pub const VOLUME_LEFT_OFFSET: u32 = 0;
/// Offset of a voice's right volume register.
pub const VOLUME_RIGHT_OFFSET: u32 = 2;
/// Offset of a voice's ADPCM sample rate register.
pub const FREQUENCY_OFFSET: u32 = 4;
/// Offset of a voice's sample start address register.
pub const SAMPLE_START_OFFSET: u32 = 6;
/// Offset of a voice's ADSR register (32 bits).
pub const ADSR_OFFSET: u32 = 8;
/// Offset of a voice's current ADSR volume register.
pub const ADSR_VOLUME_OFFSET: u32 = 12;
/// Offset of a voice's sample repeat address register.
pub const SAMPLE_REPEAT_OFFSET: u32 = 14;

/// Key on register (32 bits, one bit per voice).
pub const SPU_KEYON: u32 = 0x1F80_1D88;
/// Key off register (32 bits, one bit per voice).
pub const SPU_KEYOFF: u32 = 0x1F80_1D8C;
/// Noise mode register (32 bits, one bit per voice).
pub const SPU_NON: u32 = 0x1F80_1D94;
/// Pitch modulation register (32 bits, one bit per voice).
pub const SPU_PMON: u32 = 0x1F80_1D90;
/// SPU RAM transfer address register.
pub const SPU_TRANSADDR: u32 = 0x1F80_1DA6;
/// SPU RAM transfer FIFO.
pub const SPU_FIFO: u32 = 0x1F80_1DA8;
/// SPU control register (SPUCNT).
pub const SPU_CNT: u32 = 0x1F80_1DAA;
/// SPU RAM transfer control register.
pub const SPU_TRANSCNT: u32 = 0x1F80_1DAC;
/// SPU status register (SPUSTAT).
pub const SPU_STAT: u32 = 0x1F80_1DAE;
/// Main volume, left.
pub const SPU_MVOLL: u32 = 0x1F80_1D80;
/// Main volume, right.
pub const SPU_MVOLR: u32 = 0x1F80_1D82;

/// One access to the SPU's registers.
#[derive(Clone, Copy, Debug, PartialEq, Eq, Structural)]
pub enum SpuIo {
    /// Store `value` to the 16-bit register at `addr`.
    Write { addr: u32, value: u16 },
    /// Read the 16-bit register at `addr`, replace the bits that `mask`
    /// selects by those of `bits`, and store the result back.
    Update { addr: u32, mask: u16, bits: u16 },
    /// Read the 32-bit register at `addr` (low half, then high half), replace
    /// the bits that `mask` selects by those of `bits`, and store the result
    /// back (low half, then high half).
    Update32 { addr: u32, mask: u32, bits: u32 },
    /// Read SPUSTAT until its RAM transfer field equals `mode`.
    WaitRamTransfer { mode: u16 },
    /// Read SPUSTAT until its transfer busy flag is clear.
    WaitTransferIdle,
}

impl SpuIo {
    /// Whether the access is done once SPUSTAT reads `status`: a store or an
    /// update is done at once, a wait is done when SPUSTAT shows what it waits for.
    pub open spec fn completed_by(self, status: u16) -> bool {
        match self {
            SpuIo::Write { .. } | SpuIo::Update { .. } | SpuIo::Update32 { .. } => true,
            SpuIo::WaitRamTransfer { mode } => field_read(status, 0b11, 4) == mode,
            SpuIo::WaitTransferIdle => !bit16(status, 10),
        }
    }

    /// Whether the access is done once SPUSTAT reads `status`.
    pub fn is_complete(&self, status: u16) -> (r: bool)
        ensures
            r == self.completed_by(status),
            self matches SpuIo::WaitRamTransfer { mode } ==> (r <==> (status >> 4u16) & 3u16 == mode),
            self is WaitTransferIdle ==> (r <==> status & 0x400u16 == 0),
            !(self is WaitRamTransfer || self is WaitTransferIdle) ==> r,
    {
        proof {
            lemma_wait_completion(status, 0);
        }
        let stat = crate::control::SpuStatusRegs::new(status);
        match self {
            SpuIo::Write { .. } | SpuIo::Update { .. } | SpuIo::Update32 { .. } => true,
            SpuIo::WaitRamTransfer { mode } => stat.ram_transfer() == *mode,
            SpuIo::WaitTransferIdle => !stat.transfer_busy(),
        }
    }
}

/// `current` with the bits that `mask` selects replaced by those of `bits`.
pub open spec fn updated16(current: u16, mask: u16, bits: u16) -> u16 {
    (current & !mask) | (bits & mask)
}

/// `current` with the bits that `mask` selects replaced by those of `bits`.
pub open spec fn updated32(current: u32, mask: u32, bits: u32) -> u32 {
    (current & !mask) | (bits & mask)
}

impl SpuIo {
    /// The value that a 16-bit update stores back when its register reads
    /// `current`; any other access leaves `current` as it is.
    pub fn update16(&self, current: u16) -> (r: u16)
        ensures
            r == (match *self {
                SpuIo::Update { mask, bits, .. } => updated16(current, mask, bits),
                _ => current,
            }),
    {
        match self {
            SpuIo::Update { mask, bits, .. } => (current & !*mask) | (*bits & *mask),
            _ => current,
        }
    }

    /// The value that a 32-bit update stores back when its register reads
    /// `current`; any other access leaves `current` as it is.
    pub fn update32(&self, current: u32) -> (r: u32)
        ensures
            r == (match *self {
                SpuIo::Update32 { mask, bits, .. } => updated32(current, mask, bits),
                _ => current,
            }),
    {
        match self {
            SpuIo::Update32 { mask, bits, .. } => (current & !*mask) | (*bits & *mask),
            _ => current,
        }
    }
}

/// An update gives the masked bits of `bits` and keeps the other bits of the
/// register as they read.
pub proof fn lemma_update(current: u16, mask: u16, bits: u16, current32: u32, mask32: u32, bits32: u32)
    ensures
        updated16(current, mask, bits) & mask == bits & mask,
        updated16(current, mask, bits) & !mask == current & !mask,
        updated32(current32, mask32, bits32) & mask32 == bits32 & mask32,
        updated32(current32, mask32, bits32) & !mask32 == current32 & !mask32,
{
    assert(((current & !mask) | (bits & mask)) & mask == bits & mask && ((current & !mask) | (bits
        & mask)) & !mask == current & !mask) by (bit_vector);
    assert(((current32 & !mask32) | (bits32 & mask32)) & mask32 == bits32 & mask32 && ((current32
        & !mask32) | (bits32 & mask32)) & !mask32 == current32 & !mask32) by (bit_vector);
}

/// The two halves of a 32-bit register value, low half first.
pub fn halves(value: u32) -> (r: (u16, u16))
    ensures
        r.0 == value % 0x10000,
        r.1 == value / 0x10000,
{
    proof {
        assert((value as u16) == value % 0x10000 && ((value >> 16) as u16) == value / 0x10000)
            by (bit_vector);
    }
    (value as u16, (value >> 16) as u16)
}

/// A store of `value` to the register at `addr`.
pub open spec fn store(addr: u32, value: u16) -> SpuIo {
    SpuIo::Write { addr, value }
}

/// The address of the register at `offset` in the block of voice `num`.
pub open spec fn channel_register(num: nat, offset: u32) -> u32 {
    (SPU_CHANNEL_REGS + SPU_CHANNEL_REGS_SIZE * num + offset) as u32
}

/// The address of the register at `offset` in the block of voice `num`.
pub fn channel_register_address(num: usize, offset: u32) -> (r: u32)
    requires
        num < crate::SPU_CHANNELS,
        offset < SPU_CHANNEL_REGS_SIZE,
    ensures
        r == channel_register(num as nat, offset),
        r == 0x1F80_1C00 + 16 * num + offset,
{
    proof {
        lemma_channel_register(num as nat, offset, num as nat, offset);
    }
    SPU_CHANNEL_REGS + SPU_CHANNEL_REGS_SIZE * (num as u32) + offset
}

/// The register at `offset` of voice `num` (below 24) lies at
/// `0x1F80_1C00 + 16 * num + offset`, inside the voice register area that
/// ends below the main volume registers; two different voice/offset pairs
/// never share an address.
pub proof fn lemma_channel_register(num: nat, offset: u32, other: nat, other_offset: u32)
    requires
        num < crate::SPU_CHANNELS,
        other < crate::SPU_CHANNELS,
        offset < 16,
        other_offset < 16,
    ensures
        channel_register(num, offset) == 0x1F80_1C00 + 16 * num + offset,
        0x1F80_1C00 <= channel_register(num, offset) < SPU_MVOLL,
        (num != other || offset != other_offset) ==> channel_register(num, offset) != channel_register(
            other,
            other_offset,
        ),
{
}

/// A wait for RAM transfer mode `mode` (at most 3) is over exactly when
/// SPUSTAT's bits 5..=4 read `mode`, so exactly one mode's wait is over on
/// any status; a wait for the transfer to end is over exactly when SPUSTAT's
/// bit 10 is clear, whatever its other bits.
pub proof fn lemma_wait_completion(status: u16, mode: u16)
    ensures
        (SpuIo::WaitRamTransfer { mode }).completed_by(status) <==> (status >> 4u16) & 3u16 == mode,
        (SpuIo::WaitRamTransfer { mode: (status >> 4u16) & 3u16 }).completed_by(status),
        SpuIo::WaitTransferIdle.completed_by(status) <==> status & 0x400u16 == 0,
        SpuIo::WaitTransferIdle.completed_by(status) == SpuIo::WaitTransferIdle.completed_by(
            status & 0x400u16,
        ),
{
    assert((status & (1u16 << 10u16) != 0) == (status & 0x400u16 != 0) && ((status & 0x400u16) & (1u16
        << 10u16) != 0) == (status & 0x400u16 != 0)) by (bit_vector);
}

} // verus!
