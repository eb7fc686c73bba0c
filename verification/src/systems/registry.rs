//! The detectors of all systems, in the order in which they are tried.

use crate::bytes::spec_u32_be;
use crate::ext::spec_sha1;
use crate::systems::disc::nintendo_disc::nd_header_matches;
use crate::systems::disc::pvd::{pvd_matches, spec_parse_pvd_ok};
use crate::text::{ascii_lower, spec_eq_ignore_ascii_case, str_eq_ignore_ascii_case};
use crate::traits::{meta_view, opt_view, DatMeta, ParseError, RomInfo};
use crate::systems::wii::{WiiDisc, wii_parse_error};
use crate::systems::gamecube::{GameCubeDisc, gamecube_parse_error};
use crate::systems::saturn::{SaturnDisc, saturn_error, saturn_matches};
use crate::systems::dreamcast::{DreamcastDisc, dreamcast_error, dreamcast_matches};
use crate::systems::n64::{N64RomInfo, n64_info_matches, n64_parse_error};
use crate::systems::gamecom::{GamecomRomInfo, gamecom_info_matches, spec_gamecom_error};
use crate::systems::gba::{GbaRomInfo, gba_info_matches, spec_is_gba_rom};
use crate::systems::gameboy::{GameboyInfo, gb_info_matches, spec_is_gb_rom};
use crate::systems::genesis::{SegaRomInfo, sega_info_matches, sega_detect_defined, sega_parse_error, sega_detect_is_defined};
use crate::systems::sms::{SmsRomInfo, sms_header_from, sms_info_matches};
use crate::systems::nds::{NdsRomInfo, nds_info_matches, spec_nds_header_error};
use crate::systems::fds::{FdsRomInfo, fds_info_matches, fds_parse_error};
use crate::systems::nes::{NesRomInfo, nes_info_matches, nes_parse_defined, nes_parse_error, nes_parse_is_defined};
use crate::systems::virtualboy::{VirtualBoyRomInfo, vb_info_matches, vb_parse_error};
use crate::systems::snes::detection::spec_detect_header_offset;
use crate::systems::snes::{snes_info_matches, SNESRomInfo};
use crate::systems::jaguar::{AtariJaguarInfo, jaguar_parse_error};
use crate::systems::intellivision::{IntellivisionInfo, intv_info_matches, intv_parse_error};
use crate::systems::colecovision::{ColecoVisionInfo, cv_info_matches, cv_parse_error};
use crate::systems::odyssey2::{MagnavoxOdyssey2Info, o2_info_matches, o2_parse_error};
use crate::systems::atari::a7800::{Atari7800Info, a7800_info_matches, a7800_parse_error};
use crate::systems::atari::lynx::{AtariLynxInfo, lynx_info_matches, lynx_parse_error};
use crate::systems::atari::a5200::{Atari5200Info, a5200_info_matches, a5200_parse_error};
use crate::systems::atari::a2600::{Atari2600Info, a2600_parse_error};
use crate::systems::segacd::{SegaCdDisc, scd_matches, spec_find_header_base};
use crate::systems::playstation::{PlaystationDisc, spec_playstation_error};
use crate::systems::cdi::{CdiDisc, spec_cdi_error};
use crate::systems::iso::{IsoImage};
use vstd::prelude::*;

verus! {

/// The systems a buffer can be detected as, in detection order.
#[derive(Clone, Copy, Debug, PartialEq, Eq, Structural)]
pub enum SystemId {
    Wii,
    GameCube,
    Saturn,
    Dreamcast,
    N64,
    Gamecom,
    Gba,
    Gameboy,
    Genesis,
    Sms,
    Nds,
    Fds,
    Nes,
    VirtualBoy,
    Snes,
    Jaguar,
    Intellivision,
    ColecoVision,
    Odyssey2,
    Atari7800,
    Lynx,
    Atari5200,
    Atari2600,
    SegaCd,
    Playstation,
    Cdi,
    Iso,
}

/// Number of registered systems.
pub const SYSTEM_COUNT: usize = 27;

/// The system tried `k`-th.
pub open spec fn spec_registry_entry(k: int) -> SystemId {
    if k == 0 {
        SystemId::Wii
    } else if k == 1 {
        SystemId::GameCube
    } else if k == 2 {
        SystemId::Saturn
    } else if k == 3 {
        SystemId::Dreamcast
    } else if k == 4 {
        SystemId::N64
    } else if k == 5 {
        SystemId::Gamecom
    } else if k == 6 {
        SystemId::Gba
    } else if k == 7 {
        SystemId::Gameboy
    } else if k == 8 {
        SystemId::Genesis
    } else if k == 9 {
        SystemId::Sms
    } else if k == 10 {
        SystemId::Nds
    } else if k == 11 {
        SystemId::Fds
    } else if k == 12 {
        SystemId::Nes
    } else if k == 13 {
        SystemId::VirtualBoy
    } else if k == 14 {
        SystemId::Snes
    } else if k == 15 {
        SystemId::Jaguar
    } else if k == 16 {
        SystemId::Intellivision
    } else if k == 17 {
        SystemId::ColecoVision
    } else if k == 18 {
        SystemId::Odyssey2
    } else if k == 19 {
        SystemId::Atari7800
    } else if k == 20 {
        SystemId::Lynx
    } else if k == 21 {
        SystemId::Atari5200
    } else if k == 22 {
        SystemId::Atari2600
    } else if k == 23 {
        SystemId::SegaCd
    } else if k == 24 {
        SystemId::Playstation
    } else if k == 25 {
        SystemId::Cdi
    } else {
        SystemId::Iso
    }
}

pub fn registry_entry(k: usize) -> (r: SystemId)
    ensures
        r == spec_registry_entry(k as int),
{
    if k == 0 {
        SystemId::Wii
    } else if k == 1 {
        SystemId::GameCube
    } else if k == 2 {
        SystemId::Saturn
    } else if k == 3 {
        SystemId::Dreamcast
    } else if k == 4 {
        SystemId::N64
    } else if k == 5 {
        SystemId::Gamecom
    } else if k == 6 {
        SystemId::Gba
    } else if k == 7 {
        SystemId::Gameboy
    } else if k == 8 {
        SystemId::Genesis
    } else if k == 9 {
        SystemId::Sms
    } else if k == 10 {
        SystemId::Nds
    } else if k == 11 {
        SystemId::Fds
    } else if k == 12 {
        SystemId::Nes
    } else if k == 13 {
        SystemId::VirtualBoy
    } else if k == 14 {
        SystemId::Snes
    } else if k == 15 {
        SystemId::Jaguar
    } else if k == 16 {
        SystemId::Intellivision
    } else if k == 17 {
        SystemId::ColecoVision
    } else if k == 18 {
        SystemId::Odyssey2
    } else if k == 19 {
        SystemId::Atari7800
    } else if k == 20 {
        SystemId::Lynx
    } else if k == 21 {
        SystemId::Atari5200
    } else if k == 22 {
        SystemId::Atari2600
    } else if k == 23 {
        SystemId::SegaCd
    } else if k == 24 {
        SystemId::Playstation
    } else if k == 25 {
        SystemId::Cdi
    } else {
        SystemId::Iso
    }
}

/// The names a system is selected by; the first is its primary name.
pub open spec fn spec_aliases(id: SystemId) -> Seq<Seq<char>> {
    match id {
        SystemId::Wii => seq!["wii"@],
        SystemId::GameCube => seq!["gamecube"@, "gc"@],
        SystemId::Saturn => seq!["saturn"@],
        SystemId::Dreamcast => seq!["dreamcast"@, "dc"@],
        SystemId::N64 => seq!["n64"@],
        SystemId::Gamecom => seq!["gamecom"@],
        SystemId::Gba => seq!["gba"@],
        SystemId::Gameboy => seq!["gameboy"@, "gb"@, "gbc"@],
        SystemId::Genesis => seq!["genesis"@, "megadrive"@],
        SystemId::Sms => seq!["sms"@],
        SystemId::Nds => seq!["nds"@, "ds"@],
        SystemId::Fds => seq!["fds"@],
        SystemId::Nes => seq!["nes"@],
        SystemId::VirtualBoy => seq!["virtualboy"@, "vb"@],
        SystemId::Snes => seq!["snes"@],
        SystemId::Jaguar => seq!["jaguar"@],
        SystemId::Intellivision => seq!["intellivision"@, "intv"@],
        SystemId::ColecoVision => seq!["colecovision"@, "cv"@],
        SystemId::Odyssey2 => seq!["odyssey2"@, "o2"@],
        SystemId::Atari7800 => seq!["atari7800"@, "7800"@],
        SystemId::Lynx => seq!["lynx"@],
        SystemId::Atari5200 => seq!["atari5200"@, "5200"@],
        SystemId::Atari2600 => seq!["atari2600"@, "2600"@],
        SystemId::SegaCd => seq!["segacd"@, "scd"@],
        SystemId::Playstation => seq!["playstation"@, "psx"@],
        SystemId::Cdi => seq!["cdi"@],
        SystemId::Iso => seq!["iso"@],
    }
}

pub fn aliases(id: SystemId) -> (r: Vec<&'static str>)
    ensures
        r@.map_values(|s: &str| s@) == spec_aliases(id),
{
    let r: Vec<&'static str> = match id {
        SystemId::Wii => vec!["wii"],
        SystemId::GameCube => vec!["gamecube", "gc"],
        SystemId::Saturn => vec!["saturn"],
        SystemId::Dreamcast => vec!["dreamcast", "dc"],
        SystemId::N64 => vec!["n64"],
        SystemId::Gamecom => vec!["gamecom"],
        SystemId::Gba => vec!["gba"],
        SystemId::Gameboy => vec!["gameboy", "gb", "gbc"],
        SystemId::Genesis => vec!["genesis", "megadrive"],
        SystemId::Sms => vec!["sms"],
        SystemId::Nds => vec!["nds", "ds"],
        SystemId::Fds => vec!["fds"],
        SystemId::Nes => vec!["nes"],
        SystemId::VirtualBoy => vec!["virtualboy", "vb"],
        SystemId::Snes => vec!["snes"],
        SystemId::Jaguar => vec!["jaguar"],
        SystemId::Intellivision => vec!["intellivision", "intv"],
        SystemId::ColecoVision => vec!["colecovision", "cv"],
        SystemId::Odyssey2 => vec!["odyssey2", "o2"],
        SystemId::Atari7800 => vec!["atari7800", "7800"],
        SystemId::Lynx => vec!["lynx"],
        SystemId::Atari5200 => vec!["atari5200", "5200"],
        SystemId::Atari2600 => vec!["atari2600", "2600"],
        SystemId::SegaCd => vec!["segacd", "scd"],
        SystemId::Playstation => vec!["playstation", "psx"],
        SystemId::Cdi => vec!["cdi"],
        SystemId::Iso => vec!["iso"],
    };
    proof {
        reveal_strlit("x");
    }
    assert(r@.map_values(|s: &str| s@) =~= spec_aliases(id));
    r
}

/// The generic fallback, tried only when asked for.
pub open spec fn spec_is_generic(id: SystemId) -> bool {
    id == SystemId::Iso
}

/// Whether the system is tried on a buffer of `len` bytes: some cartridge
/// systems are skipped for files far larger than any of their cartridges.
pub open spec fn spec_accepts_len(id: SystemId, len: nat) -> bool {
    match id {
        SystemId::Gamecom => len <= 0x40_0000,
        SystemId::ColecoVision => len <= 0x10_0000,
        _ => true,
    }
}

pub fn accepts_len(id: SystemId, len: usize) -> (r: bool)
    ensures
        r == spec_accepts_len(id, len as nat),
{
    match id {
        SystemId::Gamecom => len <= 0x40_0000,
        SystemId::ColecoVision => len <= 0x10_0000,
        _ => true,
    }
}

/// The system's parser accepts the buffer.
pub open spec fn spec_parses(id: SystemId, b: Seq<u8>) -> bool {
    match id {
        SystemId::Wii => wii_parse_error(b) is None,
        SystemId::GameCube => gamecube_parse_error(b) is None,
        SystemId::Saturn => saturn_error(b) is None,
        SystemId::Dreamcast => dreamcast_error(b) is None,
        SystemId::N64 => n64_parse_error(b) is None,
        SystemId::Gamecom => spec_gamecom_error(b) is None,
        SystemId::Gba => spec_is_gba_rom(b),
        SystemId::Gameboy => spec_is_gb_rom(b),
        SystemId::Genesis => sega_parse_error(b) is None,
        SystemId::Sms => sms_header_from(b, 0) is Some,
        SystemId::Nds => spec_nds_header_error(b) is None,
        SystemId::Fds => fds_parse_error(b) is None,
        SystemId::Nes => nes_parse_error(b) is None,
        SystemId::VirtualBoy => vb_parse_error(b) is None,
        SystemId::Snes => spec_detect_header_offset(b) is Some,
        SystemId::Jaguar => jaguar_parse_error(b) is None,
        SystemId::Intellivision => intv_parse_error(b) is None,
        SystemId::ColecoVision => cv_parse_error(b) is None,
        SystemId::Odyssey2 => o2_parse_error(b) is None,
        SystemId::Atari7800 => a7800_parse_error(b) is None,
        SystemId::Lynx => lynx_parse_error(b) is None,
        SystemId::Atari5200 => a5200_parse_error(b) is None,
        SystemId::Atari2600 => a2600_parse_error(b) is None,
        SystemId::SegaCd => spec_find_header_base(b) is Some,
        SystemId::Playstation => spec_playstation_error(b) is None,
        SystemId::Cdi => spec_cdi_error(b) is None,
        SystemId::Iso => spec_parse_pvd_ok(b),
    }
}

/// The system's parser is defined on the buffer (does not panic on it).
pub open spec fn spec_defined(id: SystemId, b: Seq<u8>) -> bool {
    match id {
        SystemId::Genesis => sega_detect_defined(b),
        SystemId::Nes => nes_parse_defined(b),
        _ => true,
    }
}

/// A buffer identified as one system, with what that system's parser read.
pub enum DetectedRom {
    Wii(WiiDisc),
    GameCube(GameCubeDisc),
    Saturn(SaturnDisc),
    Dreamcast(DreamcastDisc),
    N64(N64RomInfo),
    Gamecom(GamecomRomInfo),
    Gba(GbaRomInfo),
    Gameboy(GameboyInfo),
    Genesis(SegaRomInfo),
    Sms(SmsRomInfo),
    Nds(NdsRomInfo),
    Fds(FdsRomInfo),
    Nes(NesRomInfo),
    VirtualBoy(VirtualBoyRomInfo),
    Snes(SNESRomInfo),
    Jaguar(AtariJaguarInfo),
    Intellivision(IntellivisionInfo),
    ColecoVision(ColecoVisionInfo),
    Odyssey2(MagnavoxOdyssey2Info),
    Atari7800(Atari7800Info),
    Lynx(AtariLynxInfo),
    Atari5200(Atari5200Info),
    Atari2600(Atari2600Info),
    SegaCd(SegaCdDisc),
    Playstation(PlaystationDisc),
    Cdi(CdiDisc),
    Iso(IsoImage),
}

/// The system a detection result belongs to.
pub open spec fn spec_system_of(d: DetectedRom) -> SystemId {
    match d {
        DetectedRom::Wii(_) => SystemId::Wii,
        DetectedRom::GameCube(_) => SystemId::GameCube,
        DetectedRom::Saturn(_) => SystemId::Saturn,
        DetectedRom::Dreamcast(_) => SystemId::Dreamcast,
        DetectedRom::N64(_) => SystemId::N64,
        DetectedRom::Gamecom(_) => SystemId::Gamecom,
        DetectedRom::Gba(_) => SystemId::Gba,
        DetectedRom::Gameboy(_) => SystemId::Gameboy,
        DetectedRom::Genesis(_) => SystemId::Genesis,
        DetectedRom::Sms(_) => SystemId::Sms,
        DetectedRom::Nds(_) => SystemId::Nds,
        DetectedRom::Fds(_) => SystemId::Fds,
        DetectedRom::Nes(_) => SystemId::Nes,
        DetectedRom::VirtualBoy(_) => SystemId::VirtualBoy,
        DetectedRom::Snes(_) => SystemId::Snes,
        DetectedRom::Jaguar(_) => SystemId::Jaguar,
        DetectedRom::Intellivision(_) => SystemId::Intellivision,
        DetectedRom::ColecoVision(_) => SystemId::ColecoVision,
        DetectedRom::Odyssey2(_) => SystemId::Odyssey2,
        DetectedRom::Atari7800(_) => SystemId::Atari7800,
        DetectedRom::Lynx(_) => SystemId::Lynx,
        DetectedRom::Atari5200(_) => SystemId::Atari5200,
        DetectedRom::Atari2600(_) => SystemId::Atari2600,
        DetectedRom::SegaCd(_) => SystemId::SegaCd,
        DetectedRom::Playstation(_) => SystemId::Playstation,
        DetectedRom::Cdi(_) => SystemId::Cdi,
        DetectedRom::Iso(_) => SystemId::Iso,
    }
}

/// The result holds what its system's parser reads from the buffer.
pub open spec fn detected_matches(b: Seq<u8>, d: DetectedRom) -> bool {
    match d {
        DetectedRom::Wii(x) => nd_header_matches(b, x.header),
        DetectedRom::GameCube(x) => nd_header_matches(b, x.header),
        DetectedRom::Saturn(x) => saturn_matches(b, x),
        DetectedRom::Dreamcast(x) => dreamcast_matches(b, x),
        DetectedRom::N64(x) => n64_info_matches(b, x),
        DetectedRom::Gamecom(x) => gamecom_info_matches(b, x),
        DetectedRom::Gba(x) => gba_info_matches(b, x),
        DetectedRom::Gameboy(x) => gb_info_matches(b, x),
        DetectedRom::Genesis(x) => sega_info_matches(b, x),
        DetectedRom::Sms(x) => sms_info_matches(b, x),
        DetectedRom::Nds(x) => nds_info_matches(b, x),
        DetectedRom::Fds(x) => fds_info_matches(b, x),
        DetectedRom::Nes(x) => nes_info_matches(b, x),
        DetectedRom::VirtualBoy(x) => vb_info_matches(b, x),
        DetectedRom::Snes(x) => snes_info_matches(b, spec_detect_header_offset(b)->0, x),
        DetectedRom::Jaguar(x) => x.start_address == spec_u32_be(b, 0x404) && x.rom_sha1@ == spec_sha1(b),
        DetectedRom::Intellivision(x) => intv_info_matches(b, x),
        DetectedRom::ColecoVision(x) => cv_info_matches(b, x),
        DetectedRom::Odyssey2(x) => o2_info_matches(b, x),
        DetectedRom::Atari7800(x) => a7800_info_matches(b, x),
        DetectedRom::Lynx(x) => lynx_info_matches(b, x),
        DetectedRom::Atari5200(x) => a5200_info_matches(b, x),
        DetectedRom::Atari2600(x) => x.rom_sha1@ == spec_sha1(b),
        DetectedRom::SegaCd(x) => scd_matches(b, x),
        DetectedRom::Playstation(x) => pvd_matches(b, x.pvd) && x.rom_sha1@ == spec_sha1(b),
        DetectedRom::Cdi(x) => pvd_matches(b, x.pvd),
        DetectedRom::Iso(x) => pvd_matches(b, x.pvd),
    }
}

fn detect_group0(id: SystemId, data: &[u8]) -> (r: Result<DetectedRom, ParseError>)
    requires
        id == SystemId::Wii || id == SystemId::GameCube || id == SystemId::Saturn || id == SystemId::Dreamcast || id == SystemId::N64 || id == SystemId::Gamecom || id == SystemId::Gba || id == SystemId::Gameboy || id == SystemId::Genesis,
        spec_defined(id, data@),
    ensures
        match r {
            Ok(d) => spec_parses(id, data@) && spec_system_of(d) == id && detected_matches(data@, d),
            Err(_) => !spec_parses(id, data@),
        },
{
    match id {
        SystemId::Wii => match WiiDisc::try_from(data) {
            Ok(x) => Ok(DetectedRom::Wii(x)),
            Err(e) => Err(e),
        },
        SystemId::GameCube => match GameCubeDisc::try_from(data) {
            Ok(x) => Ok(DetectedRom::GameCube(x)),
            Err(e) => Err(e),
        },
        SystemId::Saturn => match SaturnDisc::try_from(data) {
            Ok(x) => Ok(DetectedRom::Saturn(x)),
            Err(e) => Err(e),
        },
        SystemId::Dreamcast => match DreamcastDisc::try_from(data) {
            Ok(x) => Ok(DetectedRom::Dreamcast(x)),
            Err(e) => Err(e),
        },
        SystemId::N64 => match N64RomInfo::try_from(data) {
            Ok(x) => Ok(DetectedRom::N64(x)),
            Err(e) => Err(e),
        },
        SystemId::Gamecom => match GamecomRomInfo::try_from(data) {
            Ok(x) => Ok(DetectedRom::Gamecom(x)),
            Err(e) => Err(e),
        },
        SystemId::Gba => match GbaRomInfo::try_from(data) {
            Ok(x) => Ok(DetectedRom::Gba(x)),
            Err(e) => Err(e),
        },
        SystemId::Gameboy => match GameboyInfo::try_from(data) {
            Ok(x) => Ok(DetectedRom::Gameboy(x)),
            Err(e) => Err(e),
        },
        SystemId::Genesis => match SegaRomInfo::try_from(data) {
            Ok(x) => Ok(DetectedRom::Genesis(x)),
            Err(e) => Err(e),
        },
        _ => Err(ParseError::MagicNotFound),
    }
}

fn detect_group1(id: SystemId, data: &[u8]) -> (r: Result<DetectedRom, ParseError>)
    requires
        id == SystemId::Sms || id == SystemId::Nds || id == SystemId::Fds || id == SystemId::Nes || id == SystemId::VirtualBoy || id == SystemId::Snes || id == SystemId::Jaguar || id == SystemId::Intellivision || id == SystemId::ColecoVision,
        spec_defined(id, data@),
    ensures
        match r {
            Ok(d) => spec_parses(id, data@) && spec_system_of(d) == id && detected_matches(data@, d),
            Err(_) => !spec_parses(id, data@),
        },
{
    match id {
        SystemId::Sms => match SmsRomInfo::try_from(data) {
            Ok(x) => Ok(DetectedRom::Sms(x)),
            Err(e) => Err(e),
        },
        SystemId::Nds => match NdsRomInfo::try_from(data) {
            Ok(x) => Ok(DetectedRom::Nds(x)),
            Err(e) => Err(e),
        },
        SystemId::Fds => match FdsRomInfo::try_from(data) {
            Ok(x) => Ok(DetectedRom::Fds(x)),
            Err(e) => Err(e),
        },
        SystemId::Nes => match NesRomInfo::try_from(data) {
            Ok(x) => Ok(DetectedRom::Nes(x)),
            Err(e) => Err(e),
        },
        SystemId::VirtualBoy => match VirtualBoyRomInfo::try_from(data) {
            Ok(x) => Ok(DetectedRom::VirtualBoy(x)),
            Err(e) => Err(e),
        },
        SystemId::Snes => match SNESRomInfo::try_from(data) {
            Ok(x) => Ok(DetectedRom::Snes(x)),
            Err(e) => Err(e),
        },
        SystemId::Jaguar => match AtariJaguarInfo::try_from(data) {
            Ok(x) => Ok(DetectedRom::Jaguar(x)),
            Err(e) => Err(e),
        },
        SystemId::Intellivision => match IntellivisionInfo::try_from(data) {
            Ok(x) => Ok(DetectedRom::Intellivision(x)),
            Err(e) => Err(e),
        },
        SystemId::ColecoVision => match ColecoVisionInfo::try_from(data) {
            Ok(x) => Ok(DetectedRom::ColecoVision(x)),
            Err(e) => Err(e),
        },
        _ => Err(ParseError::MagicNotFound),
    }
}

fn detect_group2(id: SystemId, data: &[u8]) -> (r: Result<DetectedRom, ParseError>)
    requires
        id == SystemId::Odyssey2 || id == SystemId::Atari7800 || id == SystemId::Lynx || id == SystemId::Atari5200 || id == SystemId::Atari2600 || id == SystemId::SegaCd || id == SystemId::Playstation || id == SystemId::Cdi || id == SystemId::Iso,
        spec_defined(id, data@),
    ensures
        match r {
            Ok(d) => spec_parses(id, data@) && spec_system_of(d) == id && detected_matches(data@, d),
            Err(_) => !spec_parses(id, data@),
        },
{
    match id {
        SystemId::Odyssey2 => match MagnavoxOdyssey2Info::try_from(data) {
            Ok(x) => Ok(DetectedRom::Odyssey2(x)),
            Err(e) => Err(e),
        },
        SystemId::Atari7800 => match Atari7800Info::try_from(data) {
            Ok(x) => Ok(DetectedRom::Atari7800(x)),
            Err(e) => Err(e),
        },
        SystemId::Lynx => match AtariLynxInfo::try_from(data) {
            Ok(x) => Ok(DetectedRom::Lynx(x)),
            Err(e) => Err(e),
        },
        SystemId::Atari5200 => match Atari5200Info::try_from(data) {
            Ok(x) => Ok(DetectedRom::Atari5200(x)),
            Err(e) => Err(e),
        },
        SystemId::Atari2600 => match Atari2600Info::try_from(data) {
            Ok(x) => Ok(DetectedRom::Atari2600(x)),
            Err(e) => Err(e),
        },
        SystemId::SegaCd => match SegaCdDisc::try_from(data) {
            Ok(x) => Ok(DetectedRom::SegaCd(x)),
            Err(e) => Err(e),
        },
        SystemId::Playstation => match PlaystationDisc::try_from(data) {
            Ok(x) => Ok(DetectedRom::Playstation(x)),
            Err(e) => Err(e),
        },
        SystemId::Cdi => match CdiDisc::try_from(data) {
            Ok(x) => Ok(DetectedRom::Cdi(x)),
            Err(e) => Err(e),
        },
        SystemId::Iso => match IsoImage::try_from(data) {
            Ok(x) => Ok(DetectedRom::Iso(x)),
            Err(e) => Err(e),
        },
        _ => Err(ParseError::MagicNotFound),
    }
}

/// Run the parser of one system on the buffer.
pub fn detect_with(id: SystemId, data: &[u8]) -> (r: Result<DetectedRom, ParseError>)
    requires
        spec_defined(id, data@),
    ensures
        match r {
            Ok(d) => spec_parses(id, data@) && spec_system_of(d) == id && detected_matches(data@, d),
            Err(_) => !spec_parses(id, data@),
        },
{
    match id {
        SystemId::Wii | SystemId::GameCube | SystemId::Saturn | SystemId::Dreamcast | SystemId::N64 | SystemId::Gamecom | SystemId::Gba | SystemId::Gameboy | SystemId::Genesis => detect_group0(id, data),
        SystemId::Sms | SystemId::Nds | SystemId::Fds | SystemId::Nes | SystemId::VirtualBoy | SystemId::Snes | SystemId::Jaguar | SystemId::Intellivision | SystemId::ColecoVision => detect_group1(id, data),
        SystemId::Odyssey2 | SystemId::Atari7800 | SystemId::Lynx | SystemId::Atari5200 | SystemId::Atari2600 | SystemId::SegaCd | SystemId::Playstation | SystemId::Cdi | SystemId::Iso => detect_group2(id, data),
    }
}

impl DetectedRom {
    /// The system this result belongs to.
    pub fn system(&self) -> (r: SystemId)
        ensures
            r == spec_system_of(*self),
    {
        match self {
            DetectedRom::Wii(_) => SystemId::Wii,
            DetectedRom::GameCube(_) => SystemId::GameCube,
            DetectedRom::Saturn(_) => SystemId::Saturn,
            DetectedRom::Dreamcast(_) => SystemId::Dreamcast,
            DetectedRom::N64(_) => SystemId::N64,
            DetectedRom::Gamecom(_) => SystemId::Gamecom,
            DetectedRom::Gba(_) => SystemId::Gba,
            DetectedRom::Gameboy(_) => SystemId::Gameboy,
            DetectedRom::Genesis(_) => SystemId::Genesis,
            DetectedRom::Sms(_) => SystemId::Sms,
            DetectedRom::Nds(_) => SystemId::Nds,
            DetectedRom::Fds(_) => SystemId::Fds,
            DetectedRom::Nes(_) => SystemId::Nes,
            DetectedRom::VirtualBoy(_) => SystemId::VirtualBoy,
            DetectedRom::Snes(_) => SystemId::Snes,
            DetectedRom::Jaguar(_) => SystemId::Jaguar,
            DetectedRom::Intellivision(_) => SystemId::Intellivision,
            DetectedRom::ColecoVision(_) => SystemId::ColecoVision,
            DetectedRom::Odyssey2(_) => SystemId::Odyssey2,
            DetectedRom::Atari7800(_) => SystemId::Atari7800,
            DetectedRom::Lynx(_) => SystemId::Lynx,
            DetectedRom::Atari5200(_) => SystemId::Atari5200,
            DetectedRom::Atari2600(_) => SystemId::Atari2600,
            DetectedRom::SegaCd(_) => SystemId::SegaCd,
            DetectedRom::Playstation(_) => SystemId::Playstation,
            DetectedRom::Cdi(_) => SystemId::Cdi,
            DetectedRom::Iso(_) => SystemId::Iso,
        }
    }
}

/// The console name a detection result reports.
pub open spec fn spec_console_name(d: DetectedRom) -> Seq<char> {
    match d {
        DetectedRom::Wii(_) => "Nintendo Wii"@,
        DetectedRom::GameCube(_) => "Nintendo GameCube"@,
        DetectedRom::Saturn(_) => "Sega Saturn"@,
        DetectedRom::Dreamcast(_) => "Sega Dreamcast"@,
        DetectedRom::N64(_) => "Nintendo 64"@,
        DetectedRom::Gamecom(_) => "game.com"@,
        DetectedRom::Gba(_) => "Game Boy Advance"@,
        DetectedRom::Gameboy(_) => "Game Boy"@,
        DetectedRom::Genesis(x) => match x.console {
            crate::systems::genesis::SegaConsole::Genesis => "Sega Genesis/Mega Drive"@,
            crate::systems::genesis::SegaConsole::X32 => "Sega 32X"@,
        },
        DetectedRom::Sms(x) => match x.console {
            crate::systems::sms::SmsConsole::MasterSystem => "Sega Master System"@,
            crate::systems::sms::SmsConsole::GameGear => "Sega Game Gear"@,
        },
        DetectedRom::Nds(_) => "Nintendo DS"@,
        DetectedRom::Fds(_) => "Famicom Disk System"@,
        DetectedRom::Nes(_) => "Nintendo Entertainment System (NES)"@,
        DetectedRom::VirtualBoy(_) => "Virtual Boy"@,
        DetectedRom::Snes(_) => "Super Nintendo/Super Famicom"@,
        DetectedRom::Jaguar(_) => "Atari Jaguar"@,
        DetectedRom::Intellivision(_) => "Intellivision"@,
        DetectedRom::ColecoVision(_) => "ColecoVision"@,
        DetectedRom::Odyssey2(x) => if x.g7400_only {
            "Philips Videopac+ G7400"@
        } else {
            "Magnavox Odyssey²"@
        },
        DetectedRom::Atari7800(_) => "Atari 7800"@,
        DetectedRom::Lynx(_) => "Atari Lynx"@,
        DetectedRom::Atari5200(_) => "Atari 5200"@,
        DetectedRom::Atari2600(_) => "Atari 2600"@,
        DetectedRom::SegaCd(_) => "Sega CD/Mega CD"@,
        DetectedRom::Playstation(_) => "Sony PlayStation"@,
        DetectedRom::Cdi(_) => "Philips CD-i"@,
        DetectedRom::Iso(_) => "ISO Image"@,
    }
}

/// The catalogue metadata (title, region, version, date, manufacturer,
/// serial, machine id) a detection result reports.
pub open spec fn spec_dat_meta_of(d: DetectedRom) -> (
    Option<Seq<char>>,
    Option<Seq<char>>,
    Option<Seq<char>>,
    Option<Seq<char>>,
    Option<Seq<char>>,
    Option<Seq<char>>,
    Option<Seq<char>>,
) {
    let n = None::<Seq<char>>;
    match d {
        DetectedRom::Wii(x) => nintendo_disc_meta(x.header),
        DetectedRom::GameCube(x) => nintendo_disc_meta(x.header),
        DetectedRom::Saturn(x) => (
            crate::systems::helpers::spec_non_empty(x.ip_bin.title@),
            crate::systems::disc::sega_ip::spec_dat_region(
                x.ip_bin.area_codes@.contains('J'),
                x.ip_bin.area_codes@.contains('U'),
                x.ip_bin.area_codes@.contains('E'),
            ),
            crate::systems::helpers::spec_non_empty(x.ip_bin.version@),
            crate::systems::helpers::spec_non_empty(x.ip_bin.release_date@),
            crate::systems::helpers::spec_non_empty(x.ip_bin.maker_id@),
            crate::systems::helpers::spec_non_empty(x.ip_bin.product_number@),
            n,
        ),
        DetectedRom::Dreamcast(x) => (
            crate::systems::helpers::spec_non_empty(x.ip_bin.title@),
            crate::systems::disc::sega_ip::spec_dat_region(
                x.ip_bin.area_codes@.contains('J'),
                x.ip_bin.area_codes@.contains('U'),
                x.ip_bin.area_codes@.contains('E'),
            ),
            crate::systems::helpers::spec_non_empty(x.ip_bin.version@),
            crate::systems::helpers::spec_non_empty(x.ip_bin.release_date@),
            match x.ip_bin.producer {
                Some(p) => crate::systems::helpers::spec_non_empty(p@),
                None => None,
            },
            crate::systems::helpers::spec_non_empty(x.ip_bin.product_number@),
            n,
        ),
        DetectedRom::N64(x) => (
            crate::systems::helpers::spec_non_empty(x.stored_title@),
            crate::systems::n64::spec_n64_region(x.country_code),
            crate::systems::helpers::spec_dat_revision(x.revision),
            n,
            n,
            Some(seq![x.media] + x.stored_format@),
            Some(seq![x.media] + x.stored_format@),
        ),
        DetectedRom::Gba(x) => (
            crate::systems::helpers::spec_non_empty(x.title@),
            crate::systems::helpers::spec_nintendo_region_dat(x.game_code@[3]),
            crate::systems::helpers::spec_dat_revision(x.version),
            n,
            n,
            crate::systems::helpers::spec_utf8_serial(x.game_code@),
            crate::systems::helpers::spec_utf8_serial(x.game_code@),
        ),
        DetectedRom::Gameboy(x) => (
            crate::systems::helpers::spec_non_empty(x.title@),
            if x.region@ == "Japan"@ {
                Some("Japan"@)
            } else {
                None
            },
            crate::systems::helpers::spec_dat_revision(x.mask_rom_version),
            n,
            n,
            n,
            n,
        ),
        DetectedRom::Genesis(x) => (
            crate::systems::helpers::spec_first_non_empty(seq![x.overseas_title@, x.domestic_title@]),
            crate::systems::disc::sega_ip::spec_dat_region(
                crate::systems::genesis::sega_region_flags(x.regions@).0,
                crate::systems::genesis::sega_region_flags(x.regions@).1,
                crate::systems::genesis::sega_region_flags(x.regions@).2,
            ),
            n,
            n,
            n,
            n,
            n,
        ),
        DetectedRom::Sms(x) => (
            n,
            n,
            n,
            n,
            n,
            if x.product_code > 0 {
                Some(crate::text::spec_decimal(x.product_code as nat))
            } else {
                n
            },
            n,
        ),
        DetectedRom::Nds(x) => (
            crate::systems::helpers::spec_non_empty(x.title@),
            crate::systems::helpers::spec_nintendo_region_dat(x.game_code@[3]),
            crate::systems::helpers::spec_dat_revision(x.version),
            n,
            n,
            crate::systems::helpers::spec_utf8_serial(x.game_code@),
            crate::systems::helpers::spec_utf8_serial(x.game_code@),
        ),
        DetectedRom::VirtualBoy(x) => (
            crate::systems::helpers::spec_non_empty(x.title@),
            crate::systems::helpers::spec_nintendo_region_dat(x.game_code@[3]),
            crate::systems::helpers::spec_dat_revision(x.version),
            n,
            n,
            crate::systems::helpers::spec_utf8_serial(x.game_code@),
            crate::systems::helpers::spec_utf8_serial(x.game_code@),
        ),
        DetectedRom::Snes(x) => (
            crate::systems::helpers::spec_non_empty(x.game_title@),
            crate::systems::snes::spec_snes_region_dat(x.region),
            crate::systems::helpers::spec_dat_revision(x.revision),
            n,
            n,
            crate::systems::snes::spec_code_serial(x.game_code),
            crate::systems::snes::spec_code_serial(x.game_code),
        ),
        DetectedRom::Intellivision(x) => (
            opt_view(x.title),
            n,
            n,
            match x.year {
                Some(y) => Some(crate::text::spec_decimal(y as nat)),
                None => n,
            },
            n,
            n,
            n,
        ),
        DetectedRom::Atari7800(x) => (crate::systems::helpers::spec_non_empty(x.title@), n, n, n, n, n, n),
        DetectedRom::Lynx(x) => (crate::systems::helpers::spec_non_empty(x.title@), n, n, n, crate::systems::helpers::spec_non_empty(x.manufacturer@), n, n),
        DetectedRom::Atari5200(x) => (crate::systems::helpers::spec_non_empty(x.title@), n, n, n, n, n, n),
        DetectedRom::SegaCd(x) => (
            crate::systems::helpers::spec_first_non_empty(seq![x.overseas_title@, x.domestic_title@]),
            crate::systems::disc::sega_ip::spec_dat_region(
                x.regions@.contains('J'),
                x.regions@.contains('U'),
                x.regions@.contains('E'),
            ),
            n,
            n,
            n,
            crate::systems::helpers::spec_non_empty(x.product_code@),
            n,
        ),
        _ => (n, n, n, n, n, n, n),
    }
}

/// The catalogue metadata of a GameCube or Wii disc header.
pub open spec fn nintendo_disc_meta(h: crate::systems::disc::nintendo_disc::NintendoDiscHeader) -> (
    Option<Seq<char>>,
    Option<Seq<char>>,
    Option<Seq<char>>,
    Option<Seq<char>>,
    Option<Seq<char>>,
    Option<Seq<char>>,
    Option<Seq<char>>,
) {
    (
        crate::systems::helpers::spec_non_empty(h.title@),
        crate::systems::disc::nintendo_disc::spec_dat_region_char(h.region_code),
        crate::systems::helpers::spec_dat_revision(h.version),
        None,
        None,
        crate::systems::helpers::spec_non_empty(h.game_id@),
        crate::systems::helpers::spec_non_empty(h.game_id@),
    )
}

impl RomInfo for DetectedRom {
    fn console(&self) -> (r: &'static str)
        ensures
            r@ == spec_console_name(*self),
    {
        match self {
            DetectedRom::Wii(x) => x.console(),
            DetectedRom::GameCube(x) => x.console(),
            DetectedRom::Saturn(x) => x.console(),
            DetectedRom::Dreamcast(x) => x.console(),
            DetectedRom::N64(x) => x.console(),
            DetectedRom::Gamecom(x) => x.console(),
            DetectedRom::Gba(x) => x.console(),
            DetectedRom::Gameboy(x) => x.console(),
            DetectedRom::Genesis(x) => x.console(),
            DetectedRom::Sms(x) => x.console(),
            DetectedRom::Nds(x) => x.console(),
            DetectedRom::Fds(x) => x.console(),
            DetectedRom::Nes(x) => x.console(),
            DetectedRom::VirtualBoy(x) => x.console(),
            DetectedRom::Snes(x) => x.console(),
            DetectedRom::Jaguar(x) => x.console(),
            DetectedRom::Intellivision(x) => x.console(),
            DetectedRom::ColecoVision(x) => x.console(),
            DetectedRom::Odyssey2(x) => x.console(),
            DetectedRom::Atari7800(x) => x.console(),
            DetectedRom::Lynx(x) => x.console(),
            DetectedRom::Atari5200(x) => x.console(),
            DetectedRom::Atari2600(x) => x.console(),
            DetectedRom::SegaCd(x) => x.console(),
            DetectedRom::Playstation(x) => x.console(),
            DetectedRom::Cdi(x) => x.console(),
            DetectedRom::Iso(x) => x.console(),
        }
    }

    fn dat_meta(&self) -> (r: DatMeta)
        ensures
            meta_view(r) == spec_dat_meta_of(*self),
    {
        match self {
            DetectedRom::Wii(x) => x.dat_meta(),
            DetectedRom::GameCube(x) => x.dat_meta(),
            DetectedRom::Saturn(x) => x.dat_meta(),
            DetectedRom::Dreamcast(x) => x.dat_meta(),
            DetectedRom::N64(x) => x.dat_meta(),
            DetectedRom::Gamecom(x) => x.dat_meta(),
            DetectedRom::Gba(x) => x.dat_meta(),
            DetectedRom::Gameboy(x) => x.dat_meta(),
            DetectedRom::Genesis(x) => x.dat_meta(),
            DetectedRom::Sms(x) => x.dat_meta(),
            DetectedRom::Nds(x) => x.dat_meta(),
            DetectedRom::Fds(x) => x.dat_meta(),
            DetectedRom::Nes(x) => x.dat_meta(),
            DetectedRom::VirtualBoy(x) => x.dat_meta(),
            DetectedRom::Snes(x) => x.dat_meta(),
            DetectedRom::Jaguar(x) => x.dat_meta(),
            DetectedRom::Intellivision(x) => x.dat_meta(),
            DetectedRom::ColecoVision(x) => x.dat_meta(),
            DetectedRom::Odyssey2(x) => x.dat_meta(),
            DetectedRom::Atari7800(x) => x.dat_meta(),
            DetectedRom::Lynx(x) => x.dat_meta(),
            DetectedRom::Atari5200(x) => x.dat_meta(),
            DetectedRom::Atari2600(x) => x.dat_meta(),
            DetectedRom::SegaCd(x) => x.dat_meta(),
            DetectedRom::Playstation(x) => x.dat_meta(),
            DetectedRom::Cdi(x) => x.dat_meta(),
            DetectedRom::Iso(x) => x.dat_meta(),
        }
    }
}

/// Some alias of the system equals `name` up to ASCII case.
pub open spec fn spec_matches_name(id: SystemId, name: Seq<char>) -> bool {
    exists|i: int| 0 <= i < spec_aliases(id).len() && #[trigger] spec_eq_ignore_ascii_case(
        spec_aliases(id)[i],
        name,
    )
}

/// The first system from the `k`-th on that `name` selects.
pub open spec fn spec_lookup_from(name: Seq<char>, k: int) -> Option<SystemId>
    decreases SYSTEM_COUNT - k,
{
    if k < 0 || k >= SYSTEM_COUNT {
        None
    } else if spec_matches_name(spec_registry_entry(k), name) {
        Some(spec_registry_entry(k))
    } else {
        spec_lookup_from(name, k + 1)
    }
}

fn matches_name(id: SystemId, name: &str) -> (r: bool)
    ensures
        r == spec_matches_name(id, name@),
{
    let al = aliases(id);
    let mut i: usize = 0;
    while i < al.len()
        invariant
            i <= al.len(),
            al@.map_values(|s: &str| s@) == spec_aliases(id),
            forall|j: int| 0 <= j < i ==> !#[trigger] spec_eq_ignore_ascii_case(spec_aliases(id)[j], name@),
        decreases al.len() - i,
    {
        assert(spec_aliases(id)[i as int] == al@[i as int]@);
        if str_eq_ignore_ascii_case(al[i], name) {
            return true;
        }
        i += 1;
    }
    false
}

/// The system a name or alias (as given to `--system`) selects, matched
/// without regard to ASCII case.
pub fn lookup_detector(name: &str) -> (r: Option<SystemId>)
    ensures
        r == spec_lookup_from(name@, 0),
{
    let mut k: usize = 0;
    while k < SYSTEM_COUNT
        invariant
            k <= SYSTEM_COUNT,
            spec_lookup_from(name@, 0) == spec_lookup_from(name@, k as int),
        decreases SYSTEM_COUNT - k,
    {
        let id = registry_entry(k);
        if matches_name(id, name) {
            return Some(id);
        }
        k += 1;
    }
    None
}

/// The primary name and aliases of every system but the generic fallback, in order.
pub open spec fn spec_system_names_upto(n: int) -> Seq<(Seq<char>, Seq<Seq<char>>)>
    decreases n,
{
    if n <= 0 {
        Seq::empty()
    } else {
        let id = spec_registry_entry(n - 1);
        let r = spec_system_names_upto(n - 1);
        if spec_is_generic(id) {
            r
        } else {
            r.push((spec_aliases(id)[0], spec_aliases(id)))
        }
    }
}

/// The views of a list of names and aliases.
pub open spec fn names_view(v: Seq<(&'static str, Vec<&'static str>)>) -> Seq<(Seq<char>, Seq<Seq<char>>)> {
    v.map_values(|e: (&'static str, Vec<&'static str>)| (e.0@, e.1@.map_values(|s: &str| s@)))
}

/// `(primary name, aliases)` of every registered system but the generic
/// fallback, in detection order.
pub fn system_names() -> (r: Vec<(&'static str, Vec<&'static str>)>)
    ensures
        names_view(r@) == spec_system_names_upto(SYSTEM_COUNT as int),
{
    let mut out: Vec<(&'static str, Vec<&'static str>)> = Vec::new();
    let mut k: usize = 0;
    while k < SYSTEM_COUNT
        invariant
            k <= SYSTEM_COUNT,
            names_view(out@) == spec_system_names_upto(k as int),
        decreases SYSTEM_COUNT - k,
    {
        let id = registry_entry(k);
        let al = aliases(id);
        if id != SystemId::Iso {
            let ghost prev = out@;
            assert(spec_aliases(id).len() >= 1);
            assert(al@.map_values(|s: &str| s@).len() == al@.len());
            let first = al[0];
            assert(first@ == spec_aliases(id)[0]);
            out.push((first, al));
            proof {
                let want = spec_system_names_upto(k + 1);
                assert(names_view(prev).len() == prev.len());
                assert forall|j: int| 0 <= j < out@.len() implies #[trigger] names_view(out@)[j]
                    == want[j] by {
                    if j < prev.len() {
                        assert(out@[j] == prev[j]);
                        assert(names_view(prev)[j] == spec_system_names_upto(k as int)[j]);
                    }
                }
                assert(names_view(out@) =~= want);
            }
        }
        k += 1;
    }
    out
}

/// The first system from the `k`-th on that is tried on the buffer and
/// parses it; the generic fallback only when `generic` is set.
pub open spec fn spec_detect_from(b: Seq<u8>, k: int, generic: bool) -> Option<SystemId>
    decreases SYSTEM_COUNT - k,
{
    if k < 0 || k >= SYSTEM_COUNT {
        None
    } else {
        let id = spec_registry_entry(k);
        if (!generic && spec_is_generic(id)) || !spec_accepts_len(id, b.len()) {
            spec_detect_from(b, k + 1, generic)
        } else if spec_parses(id, b) {
            Some(id)
        } else {
            spec_detect_from(b, k + 1, generic)
        }
    }
}

/// Every parser the detection reaches from the `k`-th on is defined on the
/// buffer: four formats have malformed headers that cannot be read at all.
pub open spec fn spec_detect_defined_from(b: Seq<u8>, k: int, generic: bool) -> bool
    decreases SYSTEM_COUNT - k,
{
    if k < 0 || k >= SYSTEM_COUNT {
        true
    } else {
        let id = spec_registry_entry(k);
        if (!generic && spec_is_generic(id)) || !spec_accepts_len(id, b.len()) {
            spec_detect_defined_from(b, k + 1, generic)
        } else {
            spec_defined(id, b) && (spec_parses(id, b) || spec_detect_defined_from(b, k + 1, generic))
        }
    }
}

/// Identify the system of a buffer: the first registered system, in order,
/// whose size limit admits the buffer and whose parser accepts it.
pub fn detect_rom(data: &[u8], include_generic_fallback: bool) -> (r: Option<DetectedRom>)
    requires
        spec_detect_defined_from(data@, 0, include_generic_fallback),
    ensures
        match r {
            Some(d) => spec_detect_from(data@, 0, include_generic_fallback) == Some(spec_system_of(d))
                && detected_matches(data@, d),
            None => spec_detect_from(data@, 0, include_generic_fallback) is None,
        },
{
    let mut k: usize = 0;
    while k < SYSTEM_COUNT
        invariant
            k <= SYSTEM_COUNT,
            spec_detect_from(data@, 0, include_generic_fallback) == spec_detect_from(
                data@,
                k as int,
                include_generic_fallback,
            ),
            spec_detect_defined_from(data@, k as int, include_generic_fallback),
        decreases SYSTEM_COUNT - k,
    {
        let id = registry_entry(k);
        let skip = (!include_generic_fallback && id == SystemId::Iso) || !accepts_len(id, data.len());
        if !skip {
            match detect_with(id, data) {
                Ok(d) => {
                    return Some(d);
                },
                Err(_) => {},
            }
        }
        k += 1;
    }
    None
}

/// Whether the system's parser is defined on the buffer.
pub fn parser_is_defined(id: SystemId, data: &[u8]) -> (r: bool)
    ensures
        r == spec_defined(id, data@),
{
    match id {
        SystemId::Genesis => sega_detect_is_defined(data),
        SystemId::Nes => nes_parse_is_defined(data),
        _ => true,
    }
}

/// Whether detection is defined on the buffer: every parser that it
/// reaches, in order, is defined there.
pub fn detection_is_defined(data: &[u8], include_generic_fallback: bool) -> (r: bool)
    ensures
        r == spec_detect_defined_from(data@, 0, include_generic_fallback),
{
    let mut k: usize = 0;
    while k < SYSTEM_COUNT
        invariant
            k <= SYSTEM_COUNT,
            spec_detect_defined_from(data@, 0, include_generic_fallback) == spec_detect_defined_from(
                data@,
                k as int,
                include_generic_fallback,
            ),
        decreases SYSTEM_COUNT - k,
    {
        let id = registry_entry(k);
        let skip = (!include_generic_fallback && id == SystemId::Iso) || !accepts_len(id, data.len());
        if !skip {
            if !parser_is_defined(id, data) {
                return false;
            }
            match detect_with(id, data) {
                Ok(_) => {
                    return true;
                },
                Err(_) => {},
            }
        }
        k += 1;
    }
    true
}

/// System names are matched without regard to ASCII case: two names that
/// differ only in the case of ASCII letters select the same system (or none).
pub proof fn law_lookup_ignores_ascii_case(a: Seq<char>, b: Seq<char>)
    requires
        spec_eq_ignore_ascii_case(a, b),
    ensures
        spec_lookup_from(a, 0) == spec_lookup_from(b, 0),
{
    lemma_lookup_ignores_ascii_case_from(a, b, 0);
}

proof fn lemma_lookup_ignores_ascii_case_from(a: Seq<char>, b: Seq<char>, k: int)
    requires
        spec_eq_ignore_ascii_case(a, b),
    ensures
        spec_lookup_from(a, k) == spec_lookup_from(b, k),
    decreases SYSTEM_COUNT - k,
{
    if 0 <= k < SYSTEM_COUNT {
        let id = spec_registry_entry(k);
        let al = spec_aliases(id);
        assert forall|i: int| 0 <= i < al.len() implies #[trigger] spec_eq_ignore_ascii_case(al[i], a)
            == spec_eq_ignore_ascii_case(al[i], b) by {
            if spec_eq_ignore_ascii_case(al[i], a) {
                assert forall|j: int| 0 <= j < al[i].len() implies #[trigger] ascii_lower(al[i][j])
                    == ascii_lower(b[j]) by {
                    assert(ascii_lower(al[i][j]) == ascii_lower(a[j]));
                    assert(ascii_lower(a[j]) == ascii_lower(b[j]));
                }
            }
            if spec_eq_ignore_ascii_case(al[i], b) {
                assert forall|j: int| 0 <= j < al[i].len() implies #[trigger] ascii_lower(al[i][j])
                    == ascii_lower(a[j]) by {
                    assert(ascii_lower(al[i][j]) == ascii_lower(b[j]));
                    assert(ascii_lower(a[j]) == ascii_lower(b[j]));
                }
            }
        }
        if spec_matches_name(id, a) {
            let i = choose|i: int| 0 <= i < al.len() && #[trigger] spec_eq_ignore_ascii_case(al[i], a);
            assert(spec_eq_ignore_ascii_case(al[i], b));
        }
        if spec_matches_name(id, b) {
            let i = choose|i: int| 0 <= i < al.len() && #[trigger] spec_eq_ignore_ascii_case(al[i], b);
            assert(spec_eq_ignore_ascii_case(al[i], a));
        }
        assert(spec_matches_name(id, a) == spec_matches_name(id, b));
        lemma_lookup_ignores_ascii_case_from(a, b, k + 1);
    }
}

proof fn lemma_generic_fallback_from(b: Seq<u8>, k: int)
    requires
        0 <= k,
    ensures
        spec_detect_from(b, k, false) is Some ==> spec_detect_from(b, k, true) == spec_detect_from(
            b,
            k,
            false,
        ),
        spec_detect_from(b, k, false) is None ==> (spec_detect_from(b, k, true) is None
            || spec_detect_from(b, k, true) == Some(SystemId::Iso)),
    decreases SYSTEM_COUNT - k,
{
    if k < SYSTEM_COUNT {
        lemma_generic_fallback_from(b, k + 1);
        if k < SYSTEM_COUNT - 1 {
            assert(spec_registry_entry(k) != SystemId::Iso);
        } else {
            assert(spec_detect_from(b, k + 1, false) is None);
        }
    }
}

/// The generic ISO 9660 fallback only adds to detection: where detection
/// without it finds a system, detection with it finds the same one; where it
/// finds none, the fallback finds a plain ISO image or nothing.
pub proof fn law_generic_fallback_only_adds_iso(b: Seq<u8>)
    ensures
        spec_detect_from(b, 0, false) is Some ==> spec_detect_from(b, 0, true) == spec_detect_from(
            b,
            0,
            false,
        ),
        spec_detect_from(b, 0, false) is None ==> (spec_detect_from(b, 0, true) is None
            || spec_detect_from(b, 0, true) == Some(SystemId::Iso)),
{
    lemma_generic_fallback_from(b, 0);
}

proof fn lemma_no_fallback_never_iso_from(b: Seq<u8>, k: int)
    ensures
        spec_detect_from(b, k, false) != Some(SystemId::Iso),
    decreases SYSTEM_COUNT - k,
{
    if 0 <= k < SYSTEM_COUNT {
        lemma_no_fallback_never_iso_from(b, k + 1);
    }
}

/// Detection without the generic fallback never answers with a plain ISO
/// 9660 image: that result only comes from the fallback.
pub proof fn law_detection_without_fallback_never_iso(b: Seq<u8>)
    ensures
        spec_detect_from(b, 0, false) != Some(SystemId::Iso),
{
    lemma_no_fallback_never_iso_from(b, 0);
}

} // verus!
