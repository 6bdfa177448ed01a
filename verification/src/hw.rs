//! Hardware blocks of the PlayStation 1.
pub mod spu;
