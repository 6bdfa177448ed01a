use psx_spu::control::{SpuControlRegs, SpuStatusRegs};
use psx_spu::memory::{VolatileU16, VolatileU32};

#[test]
fn u16_cell_get_set() {
    let mut r = VolatileU16::new(0x1234);
    assert_eq!(r.get(), 0x1234);
    r.set(0xBEEF);
    assert_eq!(r.get(), 0xBEEF);
}

#[test]
fn u16_set_bit_sets_and_clears() {
    let mut r = VolatileU16::new(0b1000);
    r.set_bit(0, true);
    assert_eq!(r.get(), 0b1001);
    assert!(r.get_bit(0));
    assert!(r.get_bit(3));
    assert!(!r.get_bit(1));
    r.set_bit(3, false);
    assert_eq!(r.get(), 0b0001);
    assert!(!r.get_bit(3));
    r.set_bit(3, false);
    assert_eq!(r.get(), 0b0001);
    r.set_bit(15, true);
    assert_eq!(r.get(), 0x8001);
    assert!(r.get_bit(15));
    r.set_bit(0, false);
    assert_eq!(r.get(), 0x8000);
}

#[test]
fn u32_cell_halves() {
    let mut r = VolatileU32::new(0xDEAD_BEEF);
    assert_eq!(r.get(), 0xDEAD_BEEF);
    r.set(0x0001_0002);
    assert_eq!(r.get(), 0x0001_0002);
    r.set_bit(31, true);
    assert_eq!(r.get(), 0x8001_0002);
    assert!(r.get_bit(16));
    assert!(!r.get_bit(17));
    r.set_bit(16, false);
    assert_eq!(r.get(), 0x8000_0002);
    assert!(!r.get_bit(16));
    r.set_bit(1, false);
    assert_eq!(r.get(), 0x8000_0000);
}

#[test]
fn control_flags() {
    let mut c = SpuControlRegs::new(0);
    c.set_enable(true);
    c.set_mute(true);
    c.set_cdda_enable(true);
    assert_eq!(c.get(), 0xC001);
    assert!(c.enable() && c.mute() && c.cdda_enable());
    assert!(!c.ext_enable() && !c.cdda_reverb() && !c.ext_reverb());
    assert!(!c.irq9() && !c.reverb_master());
    c.set_reverb_master(true);
    c.set_irq9(true);
    c.set_ext_reverb(true);
    c.set_cdda_reverb(true);
    c.set_ext_enable(true);
    assert_eq!(c.get(), 0xC0CF);
}

#[test]
fn control_fields_replace_only_their_bits() {
    let mut c = SpuControlRegs::new(0x000F);
    c.set_noise_freq_shift(0b1010);
    assert_eq!(c.get(), 0x280F);
    assert_eq!(c.noise_freq_shift(), 0b1010);
    c.set_noise_freq_step(0b11);
    assert_eq!(c.get(), 0x2B0F);
    assert_eq!(c.noise_freq_step(), 0b11);
    c.set_noise_freq_shift(0b0101);
    assert_eq!(c.get(), 0x170F);
    assert_eq!(c.noise_freq_shift(), 0b0101);
    assert_eq!(c.noise_freq_step(), 0b11);
    c.set_ram_transfer(1);
    assert_eq!(c.ram_transfer(), 1);
    assert_eq!(c.get(), 0x171F);
    c.set_ram_transfer(0);
    assert_eq!(c.ram_transfer(), 0);
    assert_eq!(c.get(), 0x170F);
    // Only the low bits of the value reach the field.
    c.set_noise_freq_step(0b110);
    assert_eq!(c.noise_freq_step(), 0b10);
}

#[test]
fn control_flags_clear() {
    let mut c = SpuControlRegs::new(0xFFFF);
    c.set_enable(false);
    c.set_cdda_enable(false);
    assert_eq!(c.get(), 0x7FFE);
    assert!(!c.enable() && !c.cdda_enable() && c.mute());
}

#[test]
fn status_fields() {
    let s = SpuStatusRegs::new(0x0420);
    assert!(s.transfer_busy());
    assert_eq!(s.ram_transfer(), 0b10);
    assert!(!s.capture_buffer());
    assert!(!s.dma_read_request() && !s.dma_write_request() && !s.dma_rw_request() && !s.irq9());
    let mut t = SpuStatusRegs::new(0);
    t.set_capture_buffer(true);
    t.set_dma_read_request(true);
    t.set_dma_write_request(true);
    t.set_dma_rw_request(true);
    t.set_irq9(true);
    t.set_transfer_busy(false);
    t.set_ram_transfer(3);
    assert!(t.capture_buffer() && t.dma_read_request() && t.dma_write_request());
    assert!(t.dma_rw_request() && t.irq9() && !t.transfer_busy());
    assert_eq!(t.ram_transfer(), 3);
}
