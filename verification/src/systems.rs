//! Per-system ROM and disc parsers and the registry that chooses among them.

pub mod helpers;
pub mod registry;
pub mod nes;
pub mod snes;
pub mod disc;
pub mod fds;
pub mod odyssey2;
pub mod intellivision;
pub mod colecovision;
pub mod gameboy;
pub mod n64;
pub mod nds;
pub mod sms;
pub mod genesis;
pub mod gamecube;
pub mod wii;
pub mod playstation;
pub mod cdi;
pub mod iso;
pub mod saturn;
pub mod dreamcast;
pub mod segacd;
pub mod atari;
pub mod jaguar;
pub mod gba;
pub mod gamecom;
pub mod virtualboy;

use registry::{spec_detect_defined_from, spec_detect_from, spec_system_of, detected_matches, DetectedRom, SystemId};
use vstd::prelude::*;

verus! {

/// Identify the system of raw ROM or disc data: the first match in
/// detection order, without the generic ISO 9660 fallback (it fits almost
/// any disc image and says nothing of the game).
pub fn detect_rom(data: &[u8]) -> (r: Option<DetectedRom>)
    requires
        spec_detect_defined_from(data@, 0, false),
    ensures
        match r {
            Some(d) => spec_detect_from(data@, 0, false) == Some(spec_system_of(d))
                && detected_matches(data@, d),
            None => spec_detect_from(data@, 0, false) is None,
        },
{
    registry::detect_rom(data, false)
}

/// Identify the system of raw ROM or disc data, the generic ISO 9660
/// fallback included.
pub fn detect_rom_with_generic_fallback(data: &[u8]) -> (r: Option<DetectedRom>)
    requires
        spec_detect_defined_from(data@, 0, true),
    ensures
        match r {
            Some(d) => spec_detect_from(data@, 0, true) == Some(spec_system_of(d))
                && detected_matches(data@, d),
            None => spec_detect_from(data@, 0, true) is None,
        },
{
    registry::detect_rom(data, true)
}

/// The system a `--system` name or alias selects.
pub fn lookup_detector(name: &str) -> (r: Option<SystemId>)
    ensures
        r == registry::spec_lookup_from(name@, 0),
{
    registry::lookup_detector(name)
}

/// `(primary name, aliases)` of all registered systems but the generic fallback.
pub fn system_names() -> (r: Vec<(&'static str, Vec<&'static str>)>)
    ensures
        registry::names_view(r@) == registry::spec_system_names_upto(registry::SYSTEM_COUNT as int),
{
    registry::system_names()
}

} // verus!
