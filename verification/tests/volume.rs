use psx_spu::volume::{SweepDirection, SweepMode, SweepPhase, Volume, VolumeSweep};

fn bits(v: Volume) -> u16 {
    u16::from(v)
}

#[test]
fn normal_volume_encodes_low_15_bits() {
    assert_eq!(bits(Volume::Normal(0)), 0);
    assert_eq!(bits(Volume::Normal(0x3FFF)), 0x3FFF);
    assert_eq!(bits(Volume::Normal(-1)), 0x7FFF);
    assert_eq!(bits(Volume::Normal(-0x4000)), 0x4000);
    // Out of the 15-bit range, the value is kept modulo 2^15.
    assert_eq!(bits(Volume::Normal(0x4000)), 0x4000);
    assert_eq!(bits(Volume::Normal(i16::MIN)), 0);
    assert_eq!(bits(Volume::Normal(i16::MAX)), 0x7FFF);
}

#[test]
fn normal_volume_decodes_sign_extended() {
    assert!(matches!(Volume::from(0u16), Volume::Normal(0)));
    assert!(matches!(Volume::from(0x3FFFu16), Volume::Normal(0x3FFF)));
    assert!(matches!(Volume::from(0x4000u16), Volume::Normal(-0x4000)));
    assert!(matches!(Volume::from(0x7FFFu16), Volume::Normal(-1)));
}

#[test]
fn sweep_volume_keeps_every_bit() {
    match Volume::from(0x8000u16 | 0x5A5A) {
        Volume::Sweep(s) => assert_eq!(s.into_bits(), 0xDA5A),
        Volume::Normal(_) => panic!("a word with bit 15 set is a sweep"),
    }
    assert_eq!(bits(Volume::Sweep(VolumeSweep::from_bits(0x1234))), 0x9234);
    assert_eq!(bits(Volume::Sweep(VolumeSweep::new())), 0x8000);
}

#[test]
fn every_word_round_trips() {
    for x in 0..=u16::MAX {
        assert_eq!(bits(Volume::from(x)), x);
    }
}

#[test]
fn normal_volumes_in_range_round_trip() {
    for n in -0x4000i16..0x4000 {
        assert!(matches!(Volume::from(bits(Volume::Normal(n))), Volume::Normal(m) if m == n));
    }
}

#[test]
fn sweep_fields_follow_the_layout() {
    let s = VolumeSweep::new()
        .with_mode(SweepMode::Exponential)
        .with_direction(SweepDirection::Decrease)
        .with_phase(SweepPhase::Negative)
        .with_shift(0x1F)
        .with_step(2);
    assert_eq!(s.into_bits(), 0x7000 | (0x1F << 2) | 2);
    assert_eq!(s.mode(), SweepMode::Exponential);
    assert_eq!(s.direction(), SweepDirection::Decrease);
    assert_eq!(s.phase(), SweepPhase::Negative);
    assert_eq!(s.shift(), 0x1F);
    assert_eq!(s.step(), 2);

    let t = s.with_mode(SweepMode::Linear).with_shift(3);
    assert_eq!(t.into_bits(), 0x3000 | (3 << 2) | 2);
    assert_eq!(t.mode(), SweepMode::Linear);
    assert_eq!(t.direction(), SweepDirection::Decrease);
    assert_eq!(t.shift(), 3);
}

#[test]
fn sweep_setters_keep_padding_bits() {
    let mut s = VolumeSweep::from_bits(0x8F80);
    s.set_step(3);
    s.set_shift(1);
    s.set_phase(SweepPhase::Negative);
    s.set_direction(SweepDirection::Decrease);
    s.set_mode(SweepMode::Exponential);
    assert_eq!(s.into_bits(), 0xFF87);
}

#[test]
fn checked_setters_report_out_of_range_values() {
    let mut s = VolumeSweep::new();
    assert_eq!(s.set_shift_checked(32), Err(()));
    assert_eq!(s.into_bits(), 0);
    assert_eq!(s.set_step_checked(4), Err(()));
    assert_eq!(s.set_step_checked(3), Ok(()));
    assert_eq!(s.into_bits(), 3);
    assert!(s.with_shift_checked(40).is_err());
    assert_eq!(s.with_shift_checked(31).map(|t| t.into_bits()), Ok(0x7F));
    // The value is taken modulo 2^16 before the range check.
    assert_eq!(s.with_step_checked(0x1_0001).map(|t| t.into_bits()), Ok(1));
    assert_eq!(s.set_mode_checked(SweepMode::Exponential), Ok(()));
    assert_eq!(s.with_phase_checked(SweepPhase::Negative).map(|t| t.into_bits()), Ok(0x5003));
    assert_eq!(s.with_direction_checked(SweepDirection::Decrease).map(|t| t.into_bits()), Ok(0x6003));
}

#[test]
fn sweep_conversions() {
    let s: VolumeSweep = 0xABCDu16.into();
    let w: u16 = s.into();
    assert_eq!(w, 0xABCD);
    assert_eq!(VolumeSweep::default().into_bits(), 0);
}
