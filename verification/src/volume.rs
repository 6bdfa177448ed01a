//! SPU volume module.
//!
//! A volume register of the SPU is a 16-bit word. With bit 15 clear, bits
//! 0..=14 hold a fixed volume, a 15-bit signed number. With bit 15 set, the
//! word describes a volume sweep, laid out (most significant bit first) as:
//!
//! | bit  | 15   | 14   | 13        | 12    | 11..=7 | 6..=2 | 1..=0 |
//! |------|------|------|-----------|-------|--------|-------|-------|
//! | use  | type | mode | direction | phase | zero   | shift | step  |
use vstd::prelude::*;

verus! {

/// Volume sweep mode.
#[derive(Debug, Clone, Copy, PartialEq, Eq, Structural)]
pub enum SweepMode {
    /// The volume sweeps linearly
    Linear,
    /// The volume sweeps exponentially
    Exponential,
}

impl SweepMode {
    /// The bit that encodes this mode.
    pub open spec fn bit(self) -> u16 {
        match self {
            SweepMode::Linear => 0,
            SweepMode::Exponential => 1,
        }
    }

    /// The mode that bit `b` encodes.
    pub open spec fn of_bit(b: u16) -> SweepMode {
        if b == 0 {
            SweepMode::Linear
        } else {
            SweepMode::Exponential
        }
    }

    fn into_bits(self) -> (r: u8)
        ensures
            r == self.bit(),
    {
        match self {
            SweepMode::Linear => 0,
            SweepMode::Exponential => 1,
        }
    }

    fn from_bits(value: u8) -> (r: Self)
        requires
            value <= 1,
        ensures
            r.bit() == value,
            r == Self::of_bit(value as u16),
    {
        match value {
            0 => SweepMode::Linear,
            _ => SweepMode::Exponential,
        }
    }
}

/// Volume direction sweep
#[derive(Debug, Clone, Copy, PartialEq, Eq, Structural)]
pub enum SweepDirection {
    /// The volume increases up to `+0x7FFF`
    Increase,
    /// The volume decreases down to `0x0000`
    Decrease,
}

impl SweepDirection {
    /// The bit that encodes this direction.
    pub open spec fn bit(self) -> u16 {
        match self {
            SweepDirection::Increase => 0,
            SweepDirection::Decrease => 1,
        }
    }

    /// The direction that bit `b` encodes.
    pub open spec fn of_bit(b: u16) -> SweepDirection {
        if b == 0 {
            SweepDirection::Increase
        } else {
            SweepDirection::Decrease
        }
    }

    fn into_bits(self) -> (r: u8)
        ensures
            r == self.bit(),
    {
        match self {
            SweepDirection::Increase => 0,
            SweepDirection::Decrease => 1,
        }
    }

    fn from_bits(value: u8) -> (r: Self)
        requires
            value <= 1,
        ensures
            r.bit() == value,
            r == Self::of_bit(value as u16),
    {
        match value {
            0 => SweepDirection::Increase,
            _ => SweepDirection::Decrease,
        }
    }
}

/// Volume sweep phase
#[derive(Debug, Clone, Copy, PartialEq, Eq, Structural)]
pub enum SweepPhase {
    /// The volume sweeps normally (increase => +0x7FFF, decrease => 0x0000)
    Positive,
    /// The volume sweeps from the negative sign (increase => -0x7FFF, decrease => 0x0000)
    Negative,
}

impl SweepPhase {
    /// The bit that encodes this phase.
    pub open spec fn bit(self) -> u16 {
        match self {
            SweepPhase::Positive => 0,
            SweepPhase::Negative => 1,
        }
    }

    /// The phase that bit `b` encodes.
    pub open spec fn of_bit(b: u16) -> SweepPhase {
        if b == 0 {
            SweepPhase::Positive
        } else {
            SweepPhase::Negative
        }
    }

    fn into_bits(self) -> (r: u8)
        ensures
            r == self.bit(),
    {
        match self {
            SweepPhase::Positive => 0,
            SweepPhase::Negative => 1,
        }
    }

    fn from_bits(value: u8) -> (r: Self)
        requires
            value <= 1,
        ensures
            r.bit() == value,
            r == Self::of_bit(value as u16),
    {
        match value {
            0 => SweepPhase::Positive,
            _ => SweepPhase::Negative,
        }
    }
}

/// Bit offset of the mode field.
pub const MODE_OFFSET: u16 = 14;
/// Bit offset of the direction field.
pub const DIRECTION_OFFSET: u16 = 13;
/// Bit offset of the phase field.
pub const PHASE_OFFSET: u16 = 12;
/// Bit offset of the shift field.
pub const SHIFT_OFFSET: u16 = 2;
/// Bit offset of the step field.
pub const STEP_OFFSET: u16 = 0;
/// Mask of the shift field, at offset 0.
pub const SHIFT_MASK: u16 = 0x1f;
/// Mask of the step field, at offset 0.
pub const STEP_MASK: u16 = 0x3;

/// The field of `bits` that starts at `offset` and that `mask` covers.
pub open spec fn field(bits: u16, offset: u16, mask: u16) -> u16 {
    (bits >> offset) & mask
}

/// `bits` with the field at `offset` (covered by `mask`) replaced by `value`.
pub open spec fn with_field(bits: u16, offset: u16, mask: u16, value: u16) -> u16 {
    (bits & !(mask << offset)) | ((value & mask) << offset)
}

/// The volume sweep structure: a 16-bit word with the layout of the module
/// documentation.
#[derive(Clone, Copy, Debug)]
pub struct VolumeSweep(pub u16);

impl View for VolumeSweep {
    type V = u16;

    open spec fn view(&self) -> u16 {
        self.0
    }
}

impl VolumeSweep {
    /// The mode field.
    pub open spec fn mode_spec(self) -> SweepMode {
        SweepMode::of_bit(field(self@, MODE_OFFSET, 1))
    }

    /// The direction field.
    pub open spec fn direction_spec(self) -> SweepDirection {
        SweepDirection::of_bit(field(self@, DIRECTION_OFFSET, 1))
    }

    /// The phase field.
    pub open spec fn phase_spec(self) -> SweepPhase {
        SweepPhase::of_bit(field(self@, PHASE_OFFSET, 1))
    }

    /// The shift field.
    pub open spec fn shift_spec(self) -> u16 {
        field(self@, SHIFT_OFFSET, SHIFT_MASK)
    }

    /// The step field.
    pub open spec fn step_spec(self) -> u16 {
        field(self@, STEP_OFFSET, STEP_MASK)
    }

    /// Creates a new default initialized bitfield: every bit is zero.
    pub fn new() -> (r: Self)
        ensures
            r@ == 0,
    {
        VolumeSweep(0)
    }

    /// Convert from bits.
    pub fn from_bits(bits: u16) -> (r: Self)
        ensures
            r@ == bits,
    {
        VolumeSweep(bits)
    }

    /// Convert into bits.
    pub fn into_bits(self) -> (r: u16)
        ensures
            r == self@,
    {
        self.0
    }

    fn get_field(&self, offset: u16, mask: u16) -> (r: u16)
        requires
            offset < 16,
        ensures
            r == field(self@, offset, mask),
    {
        (self.0 >> offset) & mask
    }

    fn set_field_checked(&mut self, offset: u16, mask: u16, value: u16) -> (r: Result<(), ()>)
        requires
            offset < 16,
        ensures
            value > mask ==> r is Err && final(self)@ == old(self)@,
            value <= mask ==> r is Ok && final(self)@ == with_field(old(self)@, offset, mask, value),
    {
        if value > mask {
            return Err(());
        }
        self.0 = self.0 & !(mask << offset) | (value & mask) << offset;
        Ok(())
    }

    /// The sweep mode (bit 14).
    pub fn mode(&self) -> (r: SweepMode)
        ensures
            r == self.mode_spec(),
    {
        let b = self.get_field(MODE_OFFSET, 1);
        let bits = self.0;
        proof {
            assert(((bits >> 14u16) & 1u16) <= 1) by (bit_vector);
        }
        SweepMode::from_bits(b as u8)
    }

    /// Sets the sweep mode, reporting an out-of-range value (never the case).
    pub fn set_mode_checked(&mut self, value: SweepMode) -> (r: Result<(), ()>)
        ensures
            r is Ok,
            final(self)@ == with_field(old(self)@, MODE_OFFSET, 1, value.bit()),
    {
        let v = value.into_bits() as u16;
        self.set_field_checked(MODE_OFFSET, 1, v)
    }

    /// Sets the sweep mode.
    pub fn set_mode(&mut self, value: SweepMode)
        ensures
            final(self)@ == with_field(old(self)@, MODE_OFFSET, 1, value.bit()),
    {
        let _ = self.set_mode_checked(value);
    }

    /// This sweep with its mode replaced.
    pub fn with_mode(self, value: SweepMode) -> (r: Self)
        ensures
            r@ == with_field(self@, MODE_OFFSET, 1, value.bit()),
    {
        let mut s = self;
        s.set_mode(value);
        s
    }

    /// This sweep with its mode replaced, or an error for an out-of-range value
    /// (never the case).
    pub fn with_mode_checked(self, value: SweepMode) -> (r: Result<Self, ()>)
        ensures
            r matches Ok(s) && s@ == with_field(self@, MODE_OFFSET, 1, value.bit()),
    {
        let mut s = self;
        match s.set_mode_checked(value) {
            Ok(_) => Ok(s),
            Err(_) => Err(()),
        }
    }

    /// The sweep direction (bit 13).
    pub fn direction(&self) -> (r: SweepDirection)
        ensures
            r == self.direction_spec(),
    {
        let b = self.get_field(DIRECTION_OFFSET, 1);
        let bits = self.0;
        proof {
            assert(((bits >> 13u16) & 1u16) <= 1) by (bit_vector);
        }
        SweepDirection::from_bits(b as u8)
    }

    /// Sets the sweep direction, reporting an out-of-range value (never the case).
    pub fn set_direction_checked(&mut self, value: SweepDirection) -> (r: Result<(), ()>)
        ensures
            r is Ok,
            final(self)@ == with_field(old(self)@, DIRECTION_OFFSET, 1, value.bit()),
    {
        let v = value.into_bits() as u16;
        self.set_field_checked(DIRECTION_OFFSET, 1, v)
    }

    /// Sets the sweep direction.
    pub fn set_direction(&mut self, value: SweepDirection)
        ensures
            final(self)@ == with_field(old(self)@, DIRECTION_OFFSET, 1, value.bit()),
    {
        let _ = self.set_direction_checked(value);
    }

    /// This sweep with its direction replaced.
    pub fn with_direction(self, value: SweepDirection) -> (r: Self)
        ensures
            r@ == with_field(self@, DIRECTION_OFFSET, 1, value.bit()),
    {
        let mut s = self;
        s.set_direction(value);
        s
    }

    /// This sweep with its direction replaced, or an error for an out-of-range
    /// value (never the case).
    pub fn with_direction_checked(self, value: SweepDirection) -> (r: Result<Self, ()>)
        ensures
            r matches Ok(s) && s@ == with_field(self@, DIRECTION_OFFSET, 1, value.bit()),
    {
        let mut s = self;
        match s.set_direction_checked(value) {
            Ok(_) => Ok(s),
            Err(_) => Err(()),
        }
    }

    /// The sweep phase (bit 12).
    pub fn phase(&self) -> (r: SweepPhase)
        ensures
            r == self.phase_spec(),
    {
        let b = self.get_field(PHASE_OFFSET, 1);
        let bits = self.0;
        proof {
            assert(((bits >> 12u16) & 1u16) <= 1) by (bit_vector);
        }
        SweepPhase::from_bits(b as u8)
    }

    /// Sets the sweep phase, reporting an out-of-range value (never the case).
    pub fn set_phase_checked(&mut self, value: SweepPhase) -> (r: Result<(), ()>)
        ensures
            r is Ok,
            final(self)@ == with_field(old(self)@, PHASE_OFFSET, 1, value.bit()),
    {
        let v = value.into_bits() as u16;
        self.set_field_checked(PHASE_OFFSET, 1, v)
    }

    /// Sets the sweep phase.
    pub fn set_phase(&mut self, value: SweepPhase)
        ensures
            final(self)@ == with_field(old(self)@, PHASE_OFFSET, 1, value.bit()),
    {
        let _ = self.set_phase_checked(value);
    }

    /// This sweep with its phase replaced.
    pub fn with_phase(self, value: SweepPhase) -> (r: Self)
        ensures
            r@ == with_field(self@, PHASE_OFFSET, 1, value.bit()),
    {
        let mut s = self;
        s.set_phase(value);
        s
    }

    /// This sweep with its phase replaced, or an error for an out-of-range
    /// value (never the case).
    pub fn with_phase_checked(self, value: SweepPhase) -> (r: Result<Self, ()>)
        ensures
            r matches Ok(s) && s@ == with_field(self@, PHASE_OFFSET, 1, value.bit()),
    {
        let mut s = self;
        match s.set_phase_checked(value) {
            Ok(_) => Ok(s),
            Err(_) => Err(()),
        }
    }

    /// The shift field (bits 2..=6).
    pub fn shift(&self) -> (r: usize)
        ensures
            r == self.shift_spec(),
    {
        self.get_field(SHIFT_OFFSET, SHIFT_MASK) as usize
    }

    /// Sets the shift field; the value, taken modulo 2^16, must be at most 31,
    /// else the field is left as it was and an error is returned.
    pub fn set_shift_checked(&mut self, value: usize) -> (r: Result<(), ()>)
        ensures
            (value as u16) > SHIFT_MASK ==> r is Err && final(self)@ == old(self)@,
            (value as u16) <= SHIFT_MASK ==> r is Ok && final(self)@ == with_field(
                old(self)@,
                SHIFT_OFFSET,
                SHIFT_MASK,
                value as u16,
            ),
    {
        self.set_field_checked(SHIFT_OFFSET, SHIFT_MASK, value as u16)
    }

    /// Sets the shift field.
    pub fn set_shift(&mut self, value: usize)
        requires
            (value as u16) <= SHIFT_MASK,
        ensures
            final(self)@ == with_field(old(self)@, SHIFT_OFFSET, SHIFT_MASK, value as u16),
    {
        let _ = self.set_shift_checked(value);
    }

    /// This sweep with its shift field replaced.
    pub fn with_shift(self, value: usize) -> (r: Self)
        requires
            (value as u16) <= SHIFT_MASK,
        ensures
            r@ == with_field(self@, SHIFT_OFFSET, SHIFT_MASK, value as u16),
    {
        let mut s = self;
        s.set_shift(value);
        s
    }

    /// This sweep with its shift field replaced, or an error for a value
    /// that, taken modulo 2^16, exceeds 31.
    pub fn with_shift_checked(self, value: usize) -> (r: Result<Self, ()>)
        ensures
            (value as u16) > SHIFT_MASK ==> r is Err,
            (value as u16) <= SHIFT_MASK ==> (r matches Ok(s) && s@ == with_field(
                self@,
                SHIFT_OFFSET,
                SHIFT_MASK,
                value as u16,
            )),
    {
        let mut s = self;
        match s.set_shift_checked(value) {
            Ok(_) => Ok(s),
            Err(_) => Err(()),
        }
    }

    /// The step field (bits 0..=1).
    pub fn step(&self) -> (r: usize)
        ensures
            r == self.step_spec(),
    {
        self.get_field(STEP_OFFSET, STEP_MASK) as usize
    }

    /// Sets the step field; the value, taken modulo 2^16, must be at most 3,
    /// else the field is left as it was and an error is returned.
    pub fn set_step_checked(&mut self, value: usize) -> (r: Result<(), ()>)
        ensures
            (value as u16) > STEP_MASK ==> r is Err && final(self)@ == old(self)@,
            (value as u16) <= STEP_MASK ==> r is Ok && final(self)@ == with_field(
                old(self)@,
                STEP_OFFSET,
                STEP_MASK,
                value as u16,
            ),
    {
        self.set_field_checked(STEP_OFFSET, STEP_MASK, value as u16)
    }

    /// Sets the step field.
    pub fn set_step(&mut self, value: usize)
        requires
            (value as u16) <= STEP_MASK,
        ensures
            final(self)@ == with_field(old(self)@, STEP_OFFSET, STEP_MASK, value as u16),
    {
        let _ = self.set_step_checked(value);
    }

    /// This sweep with its step field replaced.
    pub fn with_step(self, value: usize) -> (r: Self)
        requires
            (value as u16) <= STEP_MASK,
        ensures
            r@ == with_field(self@, STEP_OFFSET, STEP_MASK, value as u16),
    {
        let mut s = self;
        s.set_step(value);
        s
    }

    /// This sweep with its step field replaced, or an error for a value that,
    /// taken modulo 2^16, exceeds 3.
    pub fn with_step_checked(self, value: usize) -> (r: Result<Self, ()>)
        ensures
            (value as u16) > STEP_MASK ==> r is Err,
            (value as u16) <= STEP_MASK ==> (r matches Ok(s) && s@ == with_field(
                self@,
                STEP_OFFSET,
                STEP_MASK,
                value as u16,
            )),
    {
        let mut s = self;
        match s.set_step_checked(value) {
            Ok(_) => Ok(s),
            Err(_) => Err(()),
        }
    }
}

impl Default for VolumeSweep {
    fn default() -> (r: Self)
        ensures
            r@ == 0,
    {
        VolumeSweep(0)
    }
}

impl From<u16> for VolumeSweep {
    fn from(v: u16) -> (r: Self) {
        VolumeSweep(v)
    }
}

impl vstd::std_specs::convert::FromSpecImpl<u16> for VolumeSweep {
    open spec fn obeys_from_spec() -> bool {
        true
    }

    open spec fn from_spec(v: u16) -> VolumeSweep {
        VolumeSweep(v)
    }
}

impl From<VolumeSweep> for u16 {
    fn from(v: VolumeSweep) -> (r: u16) {
        v.0
    }
}

impl vstd::std_specs::convert::FromSpecImpl<VolumeSweep> for u16 {
    open spec fn obeys_from_spec() -> bool {
        true
    }

    open spec fn from_spec(v: VolumeSweep) -> u16 {
        v@
    }
}

/// SPU volume setting.
#[derive(Clone, Copy)]
pub enum Volume {
    /// Normal volume.
    Normal(i16),
    /// Sweeping volume.
    Sweep(VolumeSweep),
}

/// The 15-bit two's complement number that `x` (below `0x8000`) holds.
pub open spec fn sign_extend_15(x: u16) -> i16 {
    if x < 0x4000 {
        x as i16
    } else {
        (x - 0x8000) as i16
    }
}

/// The volume that a register word holds.
pub open spec fn volume_of_bits(x: u16) -> Volume {
    if x < 0x8000 {
        Volume::Normal(sign_extend_15(x))
    } else {
        Volume::Sweep(VolumeSweep(x))
    }
}

/// The register word that encodes a volume: a fixed volume is kept modulo
/// 2^15 with bit 15 clear, a sweep gets bit 15 set.
pub open spec fn volume_bits(v: Volume) -> u16 {
    match v {
        Volume::Normal(n) => ((n as int) % 0x8000) as u16,
        Volume::Sweep(s) => s@ | 0x8000,
    }
}

impl From<u16> for Volume {
    fn from(value: u16) -> (r: Self) {
        match value >> 15 {
            // Sign-extend the 15-bit signed volume
            0 => {
                proof {
                    lemma_sign_extend(value);
                }
                Volume::Normal(((value << 1) as i16) >> 1)
            },
            _ => {
                proof {
                    assert(value >> 15 != 0 ==> value >= 0x8000) by (bit_vector);
                }
                Volume::Sweep(value.into())
            },
        }
    }
}

impl vstd::std_specs::convert::FromSpecImpl<u16> for Volume {
    open spec fn obeys_from_spec() -> bool {
        true
    }

    open spec fn from_spec(v: u16) -> Volume {
        volume_of_bits(v)
    }
}

impl From<Volume> for u16 {
    fn from(val: Volume) -> (r: u16) {
        match val {
            Volume::Normal(vol) => {
                proof {
                    lemma_low_15(vol);
                }
                (vol as u16) & 0x7FFF
            },
            Volume::Sweep(sweep) => sweep.into_bits() | 0x8000,
        }
    }
}

impl vstd::std_specs::convert::FromSpecImpl<Volume> for u16 {
    open spec fn obeys_from_spec() -> bool {
        true
    }

    open spec fn from_spec(v: Volume) -> u16 {
        volume_bits(v)
    }
}


/// Every register word reads back unchanged after it is decoded into a
/// volume and encoded again.
pub proof fn lemma_bits_round_trip(x: u16)
    ensures
        volume_bits(volume_of_bits(x)) == x,
{
    if x < 0x8000 {
        assert(x < 0x4000 ==> ((x as i16) as int) % 0x8000 == x);
        assert(x >= 0x4000 ==> (((x - 0x8000) as i16) as int) % 0x8000 == x);
    } else {
        assert(x | 0x8000u16 == x) by (bit_vector)
            requires x >= 0x8000u16;
    }
}

/// A fixed volume in the 15-bit range `-0x4000..0x4000` is decoded back to
/// itself from its register word.
pub proof fn lemma_normal_round_trip(n: i16)
    requires
        -0x4000 <= n < 0x4000,
    ensures
        volume_of_bits(volume_bits(Volume::Normal(n))) == Volume::Normal(n),
{
}

/// A sweep is decoded from its register word with bit 15 (the type bit) set
/// and every other bit kept, so all its fields survive; a sweep whose type
/// bit is already set is decoded back to itself.
pub proof fn lemma_sweep_round_trip(s: VolumeSweep)
    ensures
        volume_of_bits(volume_bits(Volume::Sweep(s))) == Volume::Sweep(VolumeSweep(s@ | 0x8000)),
        ({
            let t = VolumeSweep(s@ | 0x8000);
            &&& t.mode_spec() == s.mode_spec()
            &&& t.direction_spec() == s.direction_spec()
            &&& t.phase_spec() == s.phase_spec()
            &&& t.shift_spec() == s.shift_spec()
            &&& t.step_spec() == s.step_spec()
        }),
        s@ >= 0x8000 ==> volume_of_bits(volume_bits(Volume::Sweep(s))) == Volume::Sweep(s),
{
    let b = s@;
    assert((b | 0x8000u16) >= 0x8000u16
        && ((b | 0x8000u16) >> 14u16) & 1u16 == (b >> 14u16) & 1u16
        && ((b | 0x8000u16) >> 13u16) & 1u16 == (b >> 13u16) & 1u16
        && ((b | 0x8000u16) >> 12u16) & 1u16 == (b >> 12u16) & 1u16
        && ((b | 0x8000u16) >> 2u16) & 0x1fu16 == (b >> 2u16) & 0x1fu16
        && ((b | 0x8000u16) >> 0u16) & 0x3u16 == (b >> 0u16) & 0x3u16
        && (b >= 0x8000u16 ==> (b | 0x8000u16) == b)) by (bit_vector);
}

/// Writing a field of a sweep word (one that fits in the word) makes it read
/// back as written, cut to its mask, and keeps every bit outside it; so every
/// field that does not overlap it keeps its value.
pub proof fn lemma_with_field(
    bits: u16,
    offset: u16,
    mask: u16,
    value: u16,
    other_offset: u16,
    other_mask: u16,
)
    requires
        offset < 16,
        other_offset < 16,
        (mask << offset) >> offset == mask,
        (other_mask << other_offset) >> other_offset == other_mask,
        (mask << offset) & (other_mask << other_offset) == 0,
    ensures
        field(with_field(bits, offset, mask, value), offset, mask) == value & mask,
        with_field(bits, offset, mask, value) & !(mask << offset) == bits & !(mask << offset),
        field(with_field(bits, offset, mask, value), other_offset, other_mask) == field(
            bits,
            other_offset,
            other_mask,
        ),
{
    assert((((bits & !(mask << offset)) | ((value & mask) << offset)) >> offset) & mask == value & mask
        && ((bits & !(mask << offset)) | ((value & mask) << offset)) & !(mask << offset) == bits & !(
    mask << offset) && (((bits & !(mask << offset)) | ((value & mask) << offset)) >> other_offset)
        & other_mask == (bits >> other_offset) & other_mask) by (bit_vector)
        requires
            offset < 16u16,
            other_offset < 16u16,
            (mask << offset) >> offset == mask,
            (other_mask << other_offset) >> other_offset == other_mask,
            (mask << offset) & (other_mask << other_offset) == 0u16,
    ;
}

pub(crate) proof fn lemma_sign_extend(value: u16)
    requires
        value >> 15 == 0,
    ensures
        value < 0x8000,
        (((value << 1) as i16) >> 1) == sign_extend_15(value),
{
    assert((value >> 15 == 0 ==> value < 0x8000)
        && (value < 0x4000 ==> (((value << 1) as i16) >> 1) == value as i16)
        && (0x4000 <= value < 0x8000 ==> (((value << 1) as i16) >> 1) == (value - 0x8000) as i16))
        by (bit_vector);
}

proof fn lemma_low_15(vol: i16)
    ensures
        (vol as u16) & 0x7FFF == ((vol as int) % 0x8000) as u16,
{
    assert((vol as u16) & 0x7FFF == ((vol as int) % 0x8000) as u16) by (bit_vector);
}

} // verus!
