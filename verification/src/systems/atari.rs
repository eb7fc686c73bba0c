//! Atari cartridge systems.

pub mod a2600;
pub mod a5200;
pub mod a7800;
pub mod lynx;
