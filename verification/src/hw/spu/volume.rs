//! SPU volume module.
//!
//! A volume register holds either a fixed volume (bit 15 clear, a 15-bit
//! signed number in bits 0..=14) or a volume sweep (bit 15 set): mode in
//! bit 14, direction in bit 13, phase in bit 12, shift in bits 2..=6 and step
//! in bits 0..=1. Bits 7..=11 carry nothing.
use crate::volume::{lemma_sign_extend, sign_extend_15};
use vstd::prelude::*;

verus! {

/// Volume sweep mode.
#[derive(Debug, Clone, Copy, PartialEq, Eq, Structural)]
pub enum SweepMode {
    /// The volume sweeps linearly
    Linear,
    /// The volume sweeps exponentially
    Exponential,
}

impl SweepMode {
    /// The bit that encodes this mode.
    pub open spec fn bit(self) -> u16 {
        match self {
            SweepMode::Linear => 0,
            SweepMode::Exponential => 1,
        }
    }

    /// The mode that bit `b` encodes.
    pub open spec fn of_bit(b: u16) -> SweepMode {
        if b == 0 {
            SweepMode::Linear
        } else {
            SweepMode::Exponential
        }
    }
}

/// Volume direction sweep
#[derive(Debug, Clone, Copy, PartialEq, Eq, Structural)]
pub enum SweepDirection {
    /// The volume increases up to `+0x7FFF`
    Increase,
    /// The volume decreases down to `0x0000`
    Decrease,
}

impl SweepDirection {
    /// The bit that encodes this direction.
    pub open spec fn bit(self) -> u16 {
        match self {
            SweepDirection::Increase => 0,
            SweepDirection::Decrease => 1,
        }
    }

    /// The direction that bit `b` encodes.
    pub open spec fn of_bit(b: u16) -> SweepDirection {
        if b == 0 {
            SweepDirection::Increase
        } else {
            SweepDirection::Decrease
        }
    }
}

/// Volume sweep phase
#[derive(Debug, Clone, Copy, PartialEq, Eq, Structural)]
pub enum SweepPhase {
    /// The volume sweeps normally (increase => +0x7FFF, decrease => 0x0000)
    Positive,
    /// The volume sweeps from the negative sign (increase => -0x7FFF, decrease
    /// => 0x0000)
    Negative,
}

impl SweepPhase {
    /// The bit that encodes this phase.
    pub open spec fn bit(self) -> u16 {
        match self {
            SweepPhase::Positive => 0,
            SweepPhase::Negative => 1,
        }
    }

    /// The phase that bit `b` encodes.
    pub open spec fn of_bit(b: u16) -> SweepPhase {
        if b == 0 {
            SweepPhase::Positive
        } else {
            SweepPhase::Negative
        }
    }
}

/// The fields of a sweep: mode, direction, phase, shift and step.
pub type SweepFields = (SweepMode, SweepDirection, SweepPhase, u8, u8);

/// The volume sweep structure.
pub struct VolumeSweep {
    mode: SweepMode,
    direction: SweepDirection,
    phase: SweepPhase,
    shift: u8,
    step: u8,
}

impl VolumeSweep {
    /// The shift fits in 5 bits and the step in 2.
    #[verifier::type_invariant]
    spec fn fits(self) -> bool {
        self.shift < 32 && self.step < 4
    }
}

impl View for VolumeSweep {
    type V = SweepFields;

    closed spec fn view(&self) -> SweepFields {
        (self.mode, self.direction, self.phase, self.shift, self.step)
    }
}

/// Two sweeps with the same fields are the same sweep.
pub proof fn lemma_sweep_view_injective(a: VolumeSweep, b: VolumeSweep)
    requires
        a@ == b@,
    ensures
        a == b,
{
}

/// The fields that a register word (with bit 15 set) describes.
pub open spec fn sweep_fields_of(value: u16) -> SweepFields {
    (
        SweepMode::of_bit((value >> 14) & 1),
        SweepDirection::of_bit((value >> 13) & 1),
        SweepPhase::of_bit((value >> 12) & 1),
        ((value >> 2) & 0x1F) as u8,
        (value & 3) as u8,
    )
}

/// The register word that describes a sweep with fields `f`.
pub open spec fn sweep_word(f: SweepFields) -> u16 {
    0x8000 | (f.0.bit() << 14) | (f.1.bit() << 13) | (f.2.bit() << 12) | ((f.3 as u16) << 2) | (
    f.4 as u16)
}

proof fn lemma_field_bounds(value: u16)
    ensures
        ((value >> 2) & 0x1F) < 32,
        (value & 3) < 4,
        ((value >> 14) & 1) <= 1,
        ((value >> 13) & 1) <= 1,
        ((value >> 12) & 1) <= 1,
{
    assert(((value >> 2u16) & 0x1Fu16) < 32 && (value & 3u16) < 4 && ((value >> 14u16) & 1u16) <= 1
        && ((value >> 13u16) & 1u16) <= 1 && ((value >> 12u16) & 1u16) <= 1) by (bit_vector);
}

fn parse_sweep(value: u16) -> (r: VolumeSweep)
    ensures
        r@ == sweep_fields_of(value),
{
    let shift = ((value >> 2) & 0x1F) as u8;
    let step = (value & 3) as u8;
    proof {
        lemma_field_bounds(value);
    }
    VolumeSweep {
        mode: match (value >> 14) & 1 {
            0 => SweepMode::Linear,
            _ => SweepMode::Exponential,
        },
        direction: match (value >> 13) & 1 {
            0 => SweepDirection::Increase,
            _ => SweepDirection::Decrease,
        },
        phase: match (value >> 12) & 1 {
            0 => SweepPhase::Positive,
            _ => SweepPhase::Negative,
        },
        shift,
        step,
    }
}

fn encode_sweep(sweep: &VolumeSweep) -> (r: u16)
    ensures
        r == sweep_word(sweep@),
{
    let mode: u16 = match sweep.mode {
        SweepMode::Linear => 0,
        SweepMode::Exponential => 1,
    };
    let direction: u16 = match sweep.direction {
        SweepDirection::Increase => 0,
        SweepDirection::Decrease => 1,
    };
    let phase: u16 = match sweep.phase {
        SweepPhase::Positive => 0,
        SweepPhase::Negative => 1,
    };
    0x8000 | (mode << 14) | (direction << 13) | (phase << 12) | ((sweep.shift as u16) << 2) | (
    sweep.step as u16)
}

/// SPU volume setting.
pub enum Volume {
    /// Normal volume.
    Normal(i16),
    /// Sweeping volume.
    Sweep(VolumeSweep),
}

/// The volume that a register word holds: a fixed volume below `0x8000`,
/// else a sweep with the fields of [`sweep_fields_of`].
pub closed spec fn volume_of_bits(x: u16) -> Volume {
    if x < 0x8000 {
        Volume::Normal(sign_extend_15(x))
    } else {
        let f = sweep_fields_of(x);
        Volume::Sweep(VolumeSweep { mode: f.0, direction: f.1, phase: f.2, shift: f.3, step: f.4 })
    }
}

/// What [`volume_of_bits`] is.
pub proof fn lemma_volume_of_bits(x: u16)
    ensures
        x < 0x8000 ==> volume_of_bits(x) == Volume::Normal(sign_extend_15(x)),
        x >= 0x8000 ==> (volume_of_bits(x) matches Volume::Sweep(s) && s@ == sweep_fields_of(x)),
{
}

/// The register word that encodes a volume: a fixed volume is kept modulo
/// 2^15 with bit 15 clear, a sweep is written with [`sweep_word`].
pub open spec fn volume_bits(v: Volume) -> u16 {
    match v {
        Volume::Normal(n) => ((n as int) % 0x8000) as u16,
        Volume::Sweep(s) => sweep_word(s@),
    }
}

impl From<u16> for Volume {
    fn from(value: u16) -> (r: Self) {
        match value >> 15 {
            // Sign-extend the 15-bit signed volume
            0 => {
                proof {
                    lemma_sign_extend(value);
                }
                Volume::Normal(((value << 1) as i16) >> 1)
            },
            _ => {
                proof {
                    assert(value >> 15 != 0 ==> value >= 0x8000) by (bit_vector);
                }
                Volume::Sweep(parse_sweep(value))
            },
        }
    }
}

impl vstd::std_specs::convert::FromSpecImpl<u16> for Volume {
    open spec fn obeys_from_spec() -> bool {
        true
    }

    open spec fn from_spec(v: u16) -> Volume {
        volume_of_bits(v)
    }
}

impl<'a> From<&'a Volume> for u16 {
    fn from(val: &'a Volume) -> (r: u16) {
        match val {
            Volume::Normal(vol) => {
                let v = *vol;
                proof {
                    assert((v as u16) & 0x7FFF == ((v as int) % 0x8000) as u16) by (bit_vector);
                }
                (*vol as u16) & 0x7FFF
            },
            Volume::Sweep(sweep) => encode_sweep(sweep),
        }
    }
}

impl<'a> vstd::std_specs::convert::FromSpecImpl<&'a Volume> for u16 {
    open spec fn obeys_from_spec() -> bool {
        true
    }

    open spec fn from_spec(v: &'a Volume) -> u16 {
        volume_bits(*v)
    }
}

/// Bit 15 and bits 7..=11 of a sweep word never change the fields it
/// describes.
pub proof fn lemma_sweep_fields_ignore_unused_bits(value: u16, m: u16)
    requires
        m & 0x707F == 0,
    ensures
        sweep_fields_of(value ^ m) == sweep_fields_of(value),
{
    let v = value ^ m;
    assert(((v >> 14u16) & 1u16) == ((value >> 14u16) & 1u16) && ((v >> 13u16) & 1u16) == ((value
        >> 13u16) & 1u16) && ((v >> 12u16) & 1u16) == ((value >> 12u16) & 1u16) && ((v >> 2u16)
        & 0x1Fu16) == ((value >> 2u16) & 0x1Fu16) && (v & 3u16) == (value & 3u16)) by (bit_vector)
        requires
            m & 0x707Fu16 == 0,
            v == value ^ m,
    ;
}

/// Decoding a sweep word and encoding it again keeps bits 0..=6 and 12..=14,
/// sets bit 15 and clears bits 7..=11.
pub proof fn lemma_sweep_word_round_trip(value: u16)
    ensures
        sweep_word(sweep_fields_of(value)) == (value & 0x707F) | 0x8000,
        sweep_word(sweep_fields_of(value)) == (value | 0x8000) & 0xF07F,
{
    assert((value & 0x707Fu16) | 0x8000u16 == (value | 0x8000u16) & 0xF07Fu16) by (bit_vector);
    let m = (value >> 14) & 1;
    let d = (value >> 13) & 1;
    let p = (value >> 12) & 1;
    lemma_field_bounds(value);
    assert(SweepMode::of_bit(m).bit() == m);
    assert(SweepDirection::of_bit(d).bit() == d);
    assert(SweepPhase::of_bit(p).bit() == p);
    let sh = ((value >> 2) & 0x1F) as u8;
    let st = (value & 3) as u8;
    assert(sh as u16 == (value >> 2) & 0x1F);
    assert(st as u16 == value & 3);
    assert(0x8000u16 | (((value >> 14u16) & 1u16) << 14u16) | (((value >> 13u16) & 1u16) << 13u16)
        | (((value >> 12u16) & 1u16) << 12u16) | (((value >> 2u16) & 0x1Fu16) << 2u16) | (value
        & 3u16) == (value & 0x707Fu16) | 0x8000u16) by (bit_vector);
}

/// Encoding a sweep (shift below 32, step below 4) and decoding the word
/// again gives back every field.
pub proof fn lemma_sweep_fields_round_trip(f: SweepFields)
    requires
        f.3 < 32,
        f.4 < 4,
    ensures
        sweep_fields_of(sweep_word(f)) == f,
{
    let m = f.0.bit();
    let d = f.1.bit();
    let p = f.2.bit();
    let sh = f.3 as u16;
    let st = f.4 as u16;
    let w = 0x8000u16 | (m << 14u16) | (d << 13u16) | (p << 12u16) | (sh << 2u16) | st;
    assert(w == sweep_word(f));
    assert(((w >> 14u16) & 1u16) == m && ((w >> 13u16) & 1u16) == d && ((w >> 12u16) & 1u16) == p
        && ((w >> 2u16) & 0x1Fu16) == sh && (w & 3u16) == st) by (bit_vector)
        requires
            m <= 1,
            d <= 1,
            p <= 1,
            sh < 32,
            st < 4,
            w == 0x8000u16 | (m << 14u16) | (d << 13u16) | (p << 12u16) | (sh << 2u16) | st,
    ;
}

/// Every register word survives decoding and re-encoding, except that a sweep
/// word loses bits 7..=11.
pub proof fn lemma_bits_round_trip(x: u16)
    ensures
        volume_bits(volume_of_bits(x)) == (if x < 0x8000 { x } else { (x & 0x707F) | 0x8000 }),
{
    if x < 0x8000 {
        assert(x < 0x4000 ==> ((x as i16) as int) % 0x8000 == x);
        assert(x >= 0x4000 ==> (((x - 0x8000) as i16) as int) % 0x8000 == x);
    } else {
        lemma_sweep_word_round_trip(x);
    }
}

/// A fixed volume in the 15-bit range `-0x4000..0x4000` is decoded back to
/// itself from its register word.
pub proof fn lemma_normal_round_trip(n: i16)
    requires
        -0x4000 <= n < 0x4000,
    ensures
        volume_of_bits(volume_bits(Volume::Normal(n))) == Volume::Normal(n),
{
}

/// A sweep (shift below 32, step below 4) is decoded back to itself from its
/// register word.
pub proof fn lemma_sweep_round_trip(s: VolumeSweep)
    requires
        s@.3 < 32,
        s@.4 < 4,
    ensures
        volume_of_bits(volume_bits(Volume::Sweep(s))) == Volume::Sweep(s),
{
    lemma_sweep_fields_round_trip(s@);
    let f = s@;
    let m = f.0.bit();
    let d = f.1.bit();
    let p = f.2.bit();
    let sh = f.3 as u16;
    let st = f.4 as u16;
    let w = 0x8000u16 | (m << 14u16) | (d << 13u16) | (p << 12u16) | (sh << 2u16) | st;
    assert(w == sweep_word(f));
    assert(w >= 0x8000u16) by (bit_vector)
        requires
            w == 0x8000u16 | (m << 14u16) | (d << 13u16) | (p << 12u16) | (sh << 2u16) | st,
    ;
}

} // verus!
