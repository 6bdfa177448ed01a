//! The Sound Processing Unit.
pub mod reverb;
pub mod volume;
