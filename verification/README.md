# psx_spu

A verified model of the PlayStation 1's Sound Processing Unit driver.

- `src/` is the verified library. `Spu` and `SpuChannel` (in `lib.rs`)
  queue every register access as a `bus::SpuIo` (stores, read-modify-write
  updates of the live registers, and waits on SPUSTAT), and `after_io` says
  what performing a queue does to the registers; `volume` and `hw::spu::volume` encode volumes into
  register words; `control` and `memory` describe register fields and bits;
  `hw::spu::reverb` drives the reverb registers.
- `app/` performs the queued accesses on the memory-mapped registers.
- `tests/` exercises the library on concrete values.
