//! The SPU control register (SPUCNT) and status register (SPUSTAT).
use crate::memory::{bit16, with_bit16, VolatileU16};
use vstd::prelude::*;

verus! {

/// The field that `mask` covers at bit `shift` of `value`.
pub open spec fn field_read(value: u16, mask: u16, shift: u16) -> u16 {
    (value >> shift) & mask
}

/// What a field write leaves in the register: the field that `mask` covers
/// at bit `shift` holds `value & mask`, and every other bit is kept.
pub open spec fn field_write(old: u16, mask: u16, shift: u16, value: u16) -> u16 {
    (old & !(mask << shift)) | ((value & mask) << shift)
}

fn read_field(regs: &VolatileU16, mask: u16, shift: u16) -> (r: u16)
    requires
        shift < 16,
    ensures
        r == field_read(regs@, mask, shift),
{
    (regs.get() >> shift) & mask
}

fn write_field(regs: &mut VolatileU16, mask: u16, shift: u16, value: u16)
    requires
        shift < 16,
    ensures
        final(regs)@ == field_write(old(regs)@, mask, shift, value),
{
    let old_value = regs.get();
    regs.set((old_value & !(mask << shift)) | ((value & mask) << shift));
}

/// A field write (of a field that fits in the register) makes the field read
/// back `value & mask` and keeps every bit outside the field.
pub proof fn lemma_field_write(old: u16, mask: u16, shift: u16, value: u16)
    requires
        shift < 16,
        (mask << shift) >> shift == mask,
    ensures
        field_read(field_write(old, mask, shift, value), mask, shift) == value & mask,
        field_write(old, mask, shift, value) & !(mask << shift) == old & !(mask << shift),
{
    assert((((old & !(mask << shift)) | ((value & mask) << shift)) >> shift) & mask == value & mask
        && ((old & !(mask << shift)) | ((value & mask) << shift)) & !(mask << shift) == old & !(mask
        << shift)) by (bit_vector)
        requires shift < 16u16, (mask << shift) >> shift == mask;
}

/// The SPU control register (SPUCNT).
#[derive(Clone, Copy, Debug)]
pub struct SpuControlRegs {
    regs: VolatileU16,
}

impl View for SpuControlRegs {
    type V = u16;

    closed spec fn view(&self) -> u16 {
        self.regs@
    }
}

impl SpuControlRegs {
    /// A control register that holds `value`.
    pub fn new(value: u16) -> (r: Self)
        ensures
            r@ == value,
    {
        SpuControlRegs { regs: VolatileU16::new(value) }
    }

    /// The value of the register.
    pub fn get(&self) -> (r: u16)
        ensures
            r == self@,
    {
        self.regs.get()
    }

    /// The SPU enable (bit 15).
    pub fn enable(&self) -> (r: bool)
        ensures
            r == bit16(self@, 15),
    {
        self.regs.get_bit(15)
    }

    /// Sets the SPU enable (bit 15) to `value`.
    pub fn set_enable(&mut self, value: bool)
        ensures
            final(self)@ == with_bit16(old(self)@, 15, value),
    {
        self.regs.set_bit(15, value);
    }

    /// The mute (clear means muted output) (bit 14).
    pub fn mute(&self) -> (r: bool)
        ensures
            r == bit16(self@, 14),
    {
        self.regs.get_bit(14)
    }

    /// Sets the mute (clear means muted output) (bit 14) to `value`.
    pub fn set_mute(&mut self, value: bool)
        ensures
            final(self)@ == with_bit16(old(self)@, 14, value),
    {
        self.regs.set_bit(14, value);
    }

    /// The noise generator frequency shift (mask `0b1111` at bit 10).
    pub fn noise_freq_shift(&self) -> (r: u16)
        ensures
            r == field_read(self@, 0b1111, 10),
    {
        read_field(&self.regs, 0b1111, 10)
    }

    /// Writes the noise generator frequency shift, as [`field_write`] describes.
    pub fn set_noise_freq_shift(&mut self, value: u16)
        ensures
            final(self)@ == field_write(old(self)@, 0b1111, 10, value),
    {
        write_field(&mut self.regs, 0b1111, 10, value);
    }

    /// The noise generator frequency step (mask `0b11` at bit 8).
    pub fn noise_freq_step(&self) -> (r: u16)
        ensures
            r == field_read(self@, 0b11, 8),
    {
        read_field(&self.regs, 0b11, 8)
    }

    /// Writes the noise generator frequency step, as [`field_write`] describes.
    pub fn set_noise_freq_step(&mut self, value: u16)
        ensures
            final(self)@ == field_write(old(self)@, 0b11, 8, value),
    {
        write_field(&mut self.regs, 0b11, 8, value);
    }

    /// The reverb master enable (bit 7).
    pub fn reverb_master(&self) -> (r: bool)
        ensures
            r == bit16(self@, 7),
    {
        self.regs.get_bit(7)
    }

    /// Sets the reverb master enable (bit 7) to `value`.
    pub fn set_reverb_master(&mut self, value: bool)
        ensures
            final(self)@ == with_bit16(old(self)@, 7, value),
    {
        self.regs.set_bit(7, value);
    }

    /// The IRQ9 flag (bit 6).
    pub fn irq9(&self) -> (r: bool)
        ensures
            r == bit16(self@, 6),
    {
        self.regs.get_bit(6)
    }

    /// Sets the IRQ9 flag (bit 6) to `value`.
    pub fn set_irq9(&mut self, value: bool)
        ensures
            final(self)@ == with_bit16(old(self)@, 6, value),
    {
        self.regs.set_bit(6, value);
    }

    /// The SPU RAM transfer mode (mask `0b11` at bit 4).
    pub fn ram_transfer(&self) -> (r: u16)
        ensures
            r == field_read(self@, 0b11, 4),
    {
        read_field(&self.regs, 0b11, 4)
    }

    /// Writes the SPU RAM transfer mode, as [`field_write`] describes.
    pub fn set_ram_transfer(&mut self, value: u16)
        ensures
            final(self)@ == field_write(old(self)@, 0b11, 4, value),
    {
        write_field(&mut self.regs, 0b11, 4, value);
    }

    /// The external audio reverb (bit 3).
    pub fn ext_reverb(&self) -> (r: bool)
        ensures
            r == bit16(self@, 3),
    {
        self.regs.get_bit(3)
    }

    /// Sets the external audio reverb (bit 3) to `value`.
    pub fn set_ext_reverb(&mut self, value: bool)
        ensures
            final(self)@ == with_bit16(old(self)@, 3, value),
    {
        self.regs.set_bit(3, value);
    }

    /// The CD audio reverb (bit 2).
    pub fn cdda_reverb(&self) -> (r: bool)
        ensures
            r == bit16(self@, 2),
    {
        self.regs.get_bit(2)
    }

    /// Sets the CD audio reverb (bit 2) to `value`.
    pub fn set_cdda_reverb(&mut self, value: bool)
        ensures
            final(self)@ == with_bit16(old(self)@, 2, value),
    {
        self.regs.set_bit(2, value);
    }

    /// The external audio enable (bit 1).
    pub fn ext_enable(&self) -> (r: bool)
        ensures
            r == bit16(self@, 1),
    {
        self.regs.get_bit(1)
    }

    /// Sets the external audio enable (bit 1) to `value`.
    pub fn set_ext_enable(&mut self, value: bool)
        ensures
            final(self)@ == with_bit16(old(self)@, 1, value),
    {
        self.regs.set_bit(1, value);
    }

    /// The CD audio enable (bit 0).
    pub fn cdda_enable(&self) -> (r: bool)
        ensures
            r == bit16(self@, 0),
    {
        self.regs.get_bit(0)
    }

    /// Sets the CD audio enable (bit 0) to `value`.
    pub fn set_cdda_enable(&mut self, value: bool)
        ensures
            final(self)@ == with_bit16(old(self)@, 0, value),
    {
        self.regs.set_bit(0, value);
    }
}

/// The SPU status register (SPUSTAT).
#[derive(Clone, Copy, Debug)]
pub struct SpuStatusRegs {
    regs: VolatileU16,
}

impl View for SpuStatusRegs {
    type V = u16;

    closed spec fn view(&self) -> u16 {
        self.regs@
    }
}

impl SpuStatusRegs {
    /// A status register that holds `value`, as read from the SPU.
    pub fn new(value: u16) -> (r: Self)
        ensures
            r@ == value,
    {
        SpuStatusRegs { regs: VolatileU16::new(value) }
    }

    /// The capture buffer half being written (bit 11).
    pub fn capture_buffer(&self) -> (r: bool)
        ensures
            r == bit16(self@, 11),
    {
        self.regs.get_bit(11)
    }

    /// Sets the capture buffer half being written (bit 11) to `value`.
    pub fn set_capture_buffer(&mut self, value: bool)
        ensures
            final(self)@ == with_bit16(old(self)@, 11, value),
    {
        self.regs.set_bit(11, value);
    }

    /// The data transfer busy flag (bit 10).
    pub fn transfer_busy(&self) -> (r: bool)
        ensures
            r == bit16(self@, 10),
    {
        self.regs.get_bit(10)
    }

    /// Sets the data transfer busy flag (bit 10) to `value`.
    pub fn set_transfer_busy(&mut self, value: bool)
        ensures
            final(self)@ == with_bit16(old(self)@, 10, value),
    {
        self.regs.set_bit(10, value);
    }

    /// The DMA read request (bit 9).
    pub fn dma_read_request(&self) -> (r: bool)
        ensures
            r == bit16(self@, 9),
    {
        self.regs.get_bit(9)
    }

    /// Sets the DMA read request (bit 9) to `value`.
    pub fn set_dma_read_request(&mut self, value: bool)
        ensures
            final(self)@ == with_bit16(old(self)@, 9, value),
    {
        self.regs.set_bit(9, value);
    }

    /// The DMA write request (bit 8).
    pub fn dma_write_request(&self) -> (r: bool)
        ensures
            r == bit16(self@, 8),
    {
        self.regs.get_bit(8)
    }

    /// Sets the DMA write request (bit 8) to `value`.
    pub fn set_dma_write_request(&mut self, value: bool)
        ensures
            final(self)@ == with_bit16(old(self)@, 8, value),
    {
        self.regs.set_bit(8, value);
    }

    /// The DMA read/write request (bit 7).
    pub fn dma_rw_request(&self) -> (r: bool)
        ensures
            r == bit16(self@, 7),
    {
        self.regs.get_bit(7)
    }

    /// Sets the DMA read/write request (bit 7) to `value`.
    pub fn set_dma_rw_request(&mut self, value: bool)
        ensures
            final(self)@ == with_bit16(old(self)@, 7, value),
    {
        self.regs.set_bit(7, value);
    }

    /// The IRQ9 flag (bit 6).
    pub fn irq9(&self) -> (r: bool)
        ensures
            r == bit16(self@, 6),
    {
        self.regs.get_bit(6)
    }

    /// Sets the IRQ9 flag (bit 6) to `value`.
    pub fn set_irq9(&mut self, value: bool)
        ensures
            final(self)@ == with_bit16(old(self)@, 6, value),
    {
        self.regs.set_bit(6, value);
    }

    /// The SPU RAM transfer mode (mask `0b11` at bit 4).
    pub fn ram_transfer(&self) -> (r: u16)
        ensures
            r == field_read(self@, 0b11, 4),
    {
        read_field(&self.regs, 0b11, 4)
    }

    /// Writes the SPU RAM transfer mode, as [`field_write`] describes.
    pub fn set_ram_transfer(&mut self, value: u16)
        ensures
            final(self)@ == field_write(old(self)@, 0b11, 4, value),
    {
        write_field(&mut self.regs, 0b11, 4, value);
    }
}

} // verus!
