use psx_spu::hw::spu::volume::Volume;

fn bits(v: &Volume) -> u16 {
    u16::from(v)
}

#[test]
fn psx_normal_volume() {
    assert_eq!(bits(&Volume::Normal(-1)), 0x7FFF);
    assert_eq!(bits(&Volume::Normal(0x1234)), 0x1234);
    assert!(matches!(Volume::from(0x4001u16), Volume::Normal(-0x3FFF)));
    assert!(matches!(Volume::from(0x2000u16), Volume::Normal(0x2000)));
}

#[test]
fn psx_sweep_drops_unused_bits() {
    // Bits 7..=11 carry nothing and are cleared on the way back.
    assert_eq!(bits(&Volume::from(0xFFFFu16)), 0xF07F);
    assert_eq!(bits(&Volume::from(0x8F80u16)), 0x8000);
    assert_eq!(bits(&Volume::from(0xC00Eu16)), 0xC00E);
}

#[test]
fn psx_every_word_round_trips_but_unused_bits() {
    for x in 0..=u16::MAX {
        let expected = if x < 0x8000 { x } else { (x & 0x707F) | 0x8000 };
        assert_eq!(bits(&Volume::from(x)), expected);
    }
}

#[test]
fn psx_sweeps_round_trip() {
    for x in 0x8000..=u16::MAX {
        let once = bits(&Volume::from(x));
        assert_eq!(bits(&Volume::from(once)), once);
    }
}
