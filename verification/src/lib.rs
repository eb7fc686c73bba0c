//! Retro game ROM and disc image inspection: header parsing, checksums and
//! catalogue metadata for a range of cartridge and optical-disc systems.

pub mod bytes;
pub mod ext;
pub mod text;
pub mod traits;
pub mod systems;
pub mod bits;
pub mod output;
pub mod report;
