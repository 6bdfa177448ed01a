//! SPU reverb module.
use crate::bus::{store, SpuIo};
use vstd::prelude::*;

verus! {

/// Reverb output volume, left.
pub const REVERB_OUT_VOLUME_LEFT: u32 = 0x1F80_1D84;
/// Reverb output volume, right.
pub const REVERB_OUT_VOLUME_RIGHT: u32 = 0x1F80_1D86;
/// Reverb work area start address.
pub const REVERB_WORK_AREA: u32 = 0x1F80_1DA2;
/// First of the 0x1F reverb configuration registers.
pub const SPU_REVERB_SETTINGS: u32 = 0x1F80_1DC0;

/// The register bits of a signed 16-bit value.
pub open spec fn i16_bits(v: i16) -> u16 {
    ((v as int) % 0x10000) as u16
}

proof fn lemma_i16_bits(v: i16)
    ensures
        (v as u16) == i16_bits(v),
{
    assert((v as u16) == ((v as int) % 0x10000) as u16) by (bit_vector);
}

/// The stores that write `config` to the reverb configuration registers, in
/// order.
pub open spec fn config_ops(config: Seq<u16>) -> Seq<SpuIo> {
    Seq::new(config.len(), |i: int| store((SPU_REVERB_SETTINGS + 2 * i) as u32, config[i]))
}

/// The SPU's reverb structure.
pub struct SpuReverb {
    pub(crate) out_volume_left: i16,
    pub(crate) out_volume_right: i16,
    pub(crate) work_ram: u16,
    pending: Vec<SpuIo>,
}

impl SpuReverb {
    /// The reverb output volume last set, left.
    pub closed spec fn left(&self) -> i16 {
        self.out_volume_left
    }

    /// The reverb output volume last set, right.
    pub closed spec fn right(&self) -> i16 {
        self.out_volume_right
    }

    /// The reverb work area address last set.
    pub closed spec fn work_area(&self) -> u16 {
        self.work_ram
    }

    /// The register accesses queued so far, oldest first.
    pub closed spec fn pending_io(&self) -> Seq<SpuIo> {
        self.pending@
    }

    /// The reverb block with its registers at zero and nothing queued.
    pub fn new() -> (r: Self)
        ensures
            r.left() == 0,
            r.right() == 0,
            r.work_area() == 0,
            r.pending_io() == Seq::<SpuIo>::empty(),
    {
        SpuReverb { out_volume_left: 0, out_volume_right: 0, work_ram: 0, pending: Vec::new() }
    }

    /// Hands out the queued register accesses, oldest first, and empties the
    /// queue.
    pub fn take_pending(&mut self) -> (r: Vec<SpuIo>)
        ensures
            r@ == old(self).pending_io(),
            final(self).pending_io() == Seq::<SpuIo>::empty(),
            final(self).left() == old(self).left(),
            final(self).right() == old(self).right(),
            final(self).work_area() == old(self).work_area(),
    {
        let mut out: Vec<SpuIo> = Vec::new();
        std::mem::swap(&mut out, &mut self.pending);
        out
    }

    /// Sets the reverb output volume, left.
    pub fn volume_left(&mut self, volume: i16)
        ensures
            final(self).left() == volume,
            final(self).right() == old(self).right(),
            final(self).work_area() == old(self).work_area(),
            final(self).pending_io() == old(self).pending_io().push(
                store(REVERB_OUT_VOLUME_LEFT, i16_bits(volume)),
            ),
    {
        proof {
            lemma_i16_bits(volume);
        }
        self.out_volume_left = volume;
        self.pending.push(SpuIo::Write { addr: REVERB_OUT_VOLUME_LEFT, value: volume as u16 });
    }

    /// Sets the reverb output volume, right.
    pub fn volume_right(&mut self, volume: i16)
        ensures
            final(self).right() == volume,
            final(self).left() == old(self).left(),
            final(self).work_area() == old(self).work_area(),
            final(self).pending_io() == old(self).pending_io().push(
                store(REVERB_OUT_VOLUME_RIGHT, i16_bits(volume)),
            ),
    {
        proof {
            lemma_i16_bits(volume);
        }
        self.out_volume_right = volume;
        self.pending.push(SpuIo::Write { addr: REVERB_OUT_VOLUME_RIGHT, value: volume as u16 });
    }

    /// Sets the start address of the reverb work area.
    pub fn work_ram_addr(&mut self, address: u16)
        ensures
            final(self).work_area() == address,
            final(self).left() == old(self).left(),
            final(self).right() == old(self).right(),
            final(self).pending_io() == old(self).pending_io().push(
                store(REVERB_WORK_AREA, address),
            ),
    {
        self.work_ram = address;
        self.pending.push(SpuIo::Write { addr: REVERB_WORK_AREA, value: address });
    }

    /// Writes the 0x1F reverb configuration registers, in order.
    pub fn config(&mut self, config: &[u16; 0x1F])
        ensures
            final(self).left() == old(self).left(),
            final(self).right() == old(self).right(),
            final(self).work_area() == old(self).work_area(),
            final(self).pending_io() == old(self).pending_io() + config_ops(config@),
    {
        let mut i: usize = 0;
        while i < 0x1F
            invariant
                i <= 0x1F,
                config@.len() == 0x1F,
                self.left() == old(self).left(),
                self.right() == old(self).right(),
                self.work_area() == old(self).work_area(),
                self.pending_io() == old(self).pending_io() + config_ops(config@.take(i as int)),
            decreases 0x1F - i,
        {
            let addr = SPU_REVERB_SETTINGS + 2 * (i as u32);
            self.pending.push(SpuIo::Write { addr, value: config[i] });
            assert(config_ops(config@.take(i + 1)) =~= config_ops(config@.take(i as int)).push(
                store(addr, config@[i as int]),
            ));
            i = i + 1;
        }
        assert(config@.take(0x1F) =~= config@);
    }
}

} // verus!
