use psx_spu::bus::SpuIo;
use psx_spu::hw::spu::reverb::{SpuReverb, REVERB_OUT_VOLUME_LEFT, REVERB_OUT_VOLUME_RIGHT, REVERB_WORK_AREA, SPU_REVERB_SETTINGS};

#[test]
fn reverb_volumes_and_work_area() {
    let mut r = SpuReverb::new();
    r.volume_left(-2);
    r.volume_right(0x1234);
    r.work_ram_addr(0xF000);
    assert_eq!(
        r.take_pending(),
        vec![
            SpuIo::Write { addr: REVERB_OUT_VOLUME_LEFT, value: 0xFFFE },
            SpuIo::Write { addr: REVERB_OUT_VOLUME_RIGHT, value: 0x1234 },
            SpuIo::Write { addr: REVERB_WORK_AREA, value: 0xF000 },
        ]
    );
    assert!(r.take_pending().is_empty());
}

#[test]
fn reverb_config_writes_every_register_in_order() {
    let mut r = SpuReverb::new();
    let mut config = [0u16; 0x1F];
    for (i, c) in config.iter_mut().enumerate() {
        *c = 0x100 * i as u16 + 1;
    }
    r.config(&config);
    let ops = r.take_pending();
    assert_eq!(ops.len(), 0x1F);
    for i in 0..0x1F {
        assert_eq!(ops[i], SpuIo::Write { addr: SPU_REVERB_SETTINGS + 2 * i as u32, value: config[i] });
    }
    assert_eq!(ops[0x1E], SpuIo::Write { addr: 0x1F80_1DFC, value: 0x1E01 });
}
