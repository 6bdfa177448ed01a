//! Register cells of the SPU register file.
//!
//! A cell holds the value that the CPU last wrote to a hardware register (or
//! that was read from it); the SPU model reads these cells for its
//! read-modify-write updates.
use vstd::prelude::*;

verus! {

/// The value of bit `index` of a 16-bit word.
pub open spec fn bit16(x: u16, index: u16) -> bool {
    x & (1u16 << index) != 0
}

/// The value of bit `index` of a 32-bit word.
pub open spec fn bit32(x: u32, index: u16) -> bool {
    x & (1u32 << index) != 0
}

/// `x` with bit `index` set to `value`.
pub open spec fn with_bit16(x: u16, index: u16, value: bool) -> u16 {
    if value {
        x | (1u16 << index)
    } else {
        x & !(1u16 << index)
    }
}

/// `x` with bit `index` set to `value`.
pub open spec fn with_bit32(x: u32, index: u16, value: bool) -> u32 {
    if value {
        x | (1u32 << index)
    } else {
        x & !(1u32 << index)
    }
}

/// A 16-bit register cell.
#[derive(Clone, Copy, Debug)]
pub struct VolatileU16 {
    value: u16,
}

impl View for VolatileU16 {
    type V = u16;

    closed spec fn view(&self) -> u16 {
        self.value
    }
}

impl VolatileU16 {
    /// A cell that holds `value`.
    pub fn new(value: u16) -> (r: Self)
        ensures
            r@ == value,
    {
        VolatileU16 { value }
    }

    /// Reads the register.
    pub fn get(&self) -> (r: u16)
        ensures
            r == self@,
    {
        self.value
    }

    /// Writes the register.
    pub fn set(&mut self, value: u16)
        ensures
            final(self)@ == value,
    {
        self.value = value;
    }

    /// Makes bit `index` equal to `value` and keeps every other bit.
    pub fn set_bit(&mut self, index: u16, value: bool)
        requires
            index < 16,
        ensures
            final(self)@ == with_bit16(old(self)@, index, value),
    {
        let old_value = self.get();
        if value {
            self.set(old_value | (1u16 << index));
        } else {
            self.set(old_value & !(1u16 << index));
        }
    }

    /// Reads bit `index` of the register.
    pub fn get_bit(&self, index: u16) -> (r: bool)
        requires
            index < 16,
        ensures
            r == bit16(self@, index),
    {
        if (self.get() & 1 << index) != 0 {
            true
        } else {
            false
        }
    }
}

/// A 32-bit register, made of two 16-bit halves (low half first).
#[derive(Clone, Copy, Debug)]
pub struct VolatileU32 {
    low: u16,
    high: u16,
}

impl View for VolatileU32 {
    type V = u32;

    closed spec fn view(&self) -> u32 {
        ((self.high as u32) * 0x10000 + self.low as u32) as u32
    }
}

impl VolatileU32 {
    /// A register that holds `value`.
    pub fn new(value: u32) -> (r: Self)
        ensures
            r@ == value,
    {
        let mut r = VolatileU32 { low: 0, high: 0 };
        r.set(value);
        r
    }

    /// The low half of the register.
    pub closed spec fn low_half(&self) -> u16 {
        self.low
    }

    /// The high half of the register.
    pub closed spec fn high_half(&self) -> u16 {
        self.high
    }

    /// The two halves make up the value.
    pub proof fn lemma_halves(&self)
        ensures
            self.low_half() == self@ % 0x10000,
            self.high_half() == self@ / 0x10000,
    {
    }

    /// Reads the register.
    pub fn get(&self) -> (r: u32)
        ensures
            r == self@,
    {
        let low = self.low;
        let high = self.high;
        proof {
            assert((low as u32) | ((high as u32) << 16) == (high as u32) * 0x10000 + low as u32)
                by (bit_vector);
        }
        (self.low as u32) | ((self.high as u32) << 16)
    }

    /// Writes the register: first the low half, then the high half.
    pub fn set(&mut self, value: u32)
        ensures
            final(self)@ == value,
            final(self).low_half() == value % 0x10000,
            final(self).high_half() == value / 0x10000,
    {
        proof {
            assert((value as u16) == value % 0x10000 && ((value >> 16) as u16) == value / 0x10000)
                by (bit_vector);
        }
        self.low = value as u16;
        self.high = (value >> 16) as u16;
    }

    /// Makes bit `index` equal to `value` and keeps every other bit.
    pub fn set_bit(&mut self, index: u16, value: bool)
        requires
            index < 32,
        ensures
            final(self)@ == with_bit32(old(self)@, index, value),
    {
        let old_value = self.get();
        if value {
            self.set(old_value | (1u32 << index));
        } else {
            self.set(old_value & !(1u32 << index));
        }
    }

    /// Reads bit `index` of the register.
    pub fn get_bit(&self, index: u16) -> (r: bool)
        requires
            index < 32,
        ensures
            r == bit32(self@, index),
    {
        if (self.get() & 1 << index) != 0 {
            true
        } else {
            false
        }
    }
}

/// Writing bit `i` makes it read back as written, and every other bit keeps
/// its value.
pub proof fn lemma_set_bit16(x: u16, i: u16, j: u16, v: bool)
    requires
        i < 16,
        j < 16,
    ensures
        bit16(with_bit16(x, i, v), i) == v,
        i != j ==> bit16(with_bit16(x, i, v), j) == bit16(x, j),
{
    assert(((x | (1u16 << i)) & (1u16 << i)) != 0 && ((x & !(1u16 << i)) & (1u16 << i)) == 0 && (i
        != j ==> (((x | (1u16 << i)) & (1u16 << j)) != 0) == ((x & (1u16 << j)) != 0) && (((x & !(1u16
        << i)) & (1u16 << j)) != 0) == ((x & (1u16 << j)) != 0))) by (bit_vector)
        requires i < 16, j < 16;
}

/// Writing bit `i` of a 32-bit register makes it read back as written, and
/// every other bit keeps its value.
pub proof fn lemma_set_bit32(x: u32, i: u16, j: u16, v: bool)
    requires
        i < 32,
        j < 32,
    ensures
        bit32(with_bit32(x, i, v), i) == v,
        i != j ==> bit32(with_bit32(x, i, v), j) == bit32(x, j),
{
    assert(((x | (1u32 << i)) & (1u32 << i)) != 0 && ((x & !(1u32 << i)) & (1u32 << i)) == 0 && (i
        != j ==> (((x | (1u32 << i)) & (1u32 << j)) != 0) == ((x & (1u32 << j)) != 0) && (((x & !(1u32
        << i)) & (1u32 << j)) != 0) == ((x & (1u32 << j)) != 0))) by (bit_vector)
        requires i < 32, j < 32;
}

} // verus!
