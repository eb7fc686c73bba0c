//! NES cartridge board (mapper) identification from the iNES mapper number.

use vstd::prelude::*;

verus! {

/// NES cartridge boards, identified by their iNES mapper number.
#[allow(non_camel_case_types)]
#[derive(Clone, Copy, Debug, PartialEq, Eq, Structural)]
pub enum Mapper {
    NROM,
    MMC1,
    SxROM,
    UxROM,
    CNROM,
    MMC3,
    TxSROM,
    MMC5,
    AxROM,
    MMC2,
    PxROM,
    MMC4,
    ColorDreams,
    CPROM,
    ContraFunction16,
    BandaiEPROM,
    BandaiEPROM24C01,
    UNROM512,
    JalecoSS8806,
    Namco163,
    VRC2a,
    VRC2b,
    VRC4e,
    VRC4a,
    VRC4c,
    VRC4b,
    VRC4d,
    VRC6a,
    VRC6b,
    BNROM,
    NINA001,
    RAMBO1,
    GxROM,
    MxROM,
    AfterBurner,
    FME7,
    Camerica,
    VRC3,
    PirateMMC3,
    PirateMMC3_4k,
    VRC1,
    Namco109,
    NINA03,
    NINA06,
    VRC7,
    JALECOJF13,
    SenjouNoOokami,
    NESEVENT,
    TQROM,
    SUBOR166,
    SUBOR167,
    CrazyClimber,
    CNROMWithProtection,
    DxROM,
    Namco175,
    Action52,
    CodemastersQuattro,
    SuperRussianRoulette,
    Unif158B,
    /// A mapper number the library has no board name for.
    Unknown { ines_mapper_number: u16 },
    /// No usable mapper information.
    Unrecognized,
}

/// The board that an iNES mapper number denotes.
pub open spec fn spec_mapper_from_number(n: u16) -> Mapper {
    if n == 0 {
        Mapper::NROM
    } else if n == 1 {
        Mapper::MMC1
    } else if n == 2 {
        Mapper::UxROM
    } else if n == 3 {
        Mapper::CNROM
    } else if n == 4 {
        Mapper::MMC3
    } else if n == 5 {
        Mapper::MMC5
    } else if n == 7 {
        Mapper::AxROM
    } else if n == 9 {
        Mapper::MMC2
    } else if n == 10 {
        Mapper::MMC4
    } else if n == 11 {
        Mapper::ColorDreams
    } else if n == 13 {
        Mapper::CPROM
    } else if n == 16 {
        Mapper::BandaiEPROM
    } else if n == 18 {
        Mapper::JalecoSS8806
    } else if n == 19 {
        Mapper::Namco163
    } else if n == 21 {
        Mapper::VRC4a
    } else if n == 22 {
        Mapper::VRC2a
    } else if n == 23 {
        Mapper::VRC2b
    } else if n == 24 {
        Mapper::VRC6a
    } else if n == 25 {
        Mapper::VRC4b
    } else if n == 26 {
        Mapper::VRC6b
    } else if n == 30 {
        Mapper::UNROM512
    } else if n == 34 {
        Mapper::BNROM
    } else if n == 64 {
        Mapper::RAMBO1
    } else if n == 66 {
        Mapper::GxROM
    } else if n == 68 {
        Mapper::AfterBurner
    } else if n == 69 {
        Mapper::FME7
    } else if n == 71 {
        Mapper::Camerica
    } else if n == 73 {
        Mapper::VRC3
    } else if n == 74 {
        Mapper::PirateMMC3
    } else if n == 75 {
        Mapper::VRC1
    } else if n == 79 {
        Mapper::NINA03
    } else if n == 85 {
        Mapper::VRC7
    } else if n == 86 {
        Mapper::JALECOJF13
    } else if n == 94 {
        Mapper::SenjouNoOokami
    } else if n == 105 {
        Mapper::NESEVENT
    } else if n == 118 {
        Mapper::TxSROM
    } else if n == 119 {
        Mapper::TQROM
    } else if n == 159 {
        Mapper::BandaiEPROM24C01
    } else if n == 166 {
        Mapper::SUBOR166
    } else if n == 167 {
        Mapper::SUBOR167
    } else if n == 180 {
        Mapper::CrazyClimber
    } else if n == 185 {
        Mapper::CNROMWithProtection
    } else if n == 206 {
        Mapper::DxROM
    } else if n == 210 {
        Mapper::Namco175
    } else if n == 228 {
        Mapper::Action52
    } else if n == 232 {
        Mapper::CodemastersQuattro
    } else if n == 258 {
        Mapper::Unif158B
    } else {
        Mapper::Unknown { ines_mapper_number: n }
    }
}

impl Mapper {
    /// The board for an iNES mapper number.
    pub fn from_number(n: u16) -> (m: Mapper)
        ensures
            m == spec_mapper_from_number(n),
    {
        match n {
            0 => Mapper::NROM,
            1 => Mapper::MMC1,
            2 => Mapper::UxROM,
            3 => Mapper::CNROM,
            4 => Mapper::MMC3,
            5 => Mapper::MMC5,
            7 => Mapper::AxROM,
            9 => Mapper::MMC2,
            10 => Mapper::MMC4,
            11 => Mapper::ColorDreams,
            13 => Mapper::CPROM,
            16 => Mapper::BandaiEPROM,
            18 => Mapper::JalecoSS8806,
            19 => Mapper::Namco163,
            21 => Mapper::VRC4a,
            22 => Mapper::VRC2a,
            23 => Mapper::VRC2b,
            24 => Mapper::VRC6a,
            25 => Mapper::VRC4b,
            26 => Mapper::VRC6b,
            30 => Mapper::UNROM512,
            34 => Mapper::BNROM,
            64 => Mapper::RAMBO1,
            66 => Mapper::GxROM,
            68 => Mapper::AfterBurner,
            69 => Mapper::FME7,
            71 => Mapper::Camerica,
            73 => Mapper::VRC3,
            74 => Mapper::PirateMMC3,
            75 => Mapper::VRC1,
            79 => Mapper::NINA03,
            85 => Mapper::VRC7,
            86 => Mapper::JALECOJF13,
            94 => Mapper::SenjouNoOokami,
            105 => Mapper::NESEVENT,
            118 => Mapper::TxSROM,
            119 => Mapper::TQROM,
            159 => Mapper::BandaiEPROM24C01,
            166 => Mapper::SUBOR166,
            167 => Mapper::SUBOR167,
            180 => Mapper::CrazyClimber,
            185 => Mapper::CNROMWithProtection,
            206 => Mapper::DxROM,
            210 => Mapper::Namco175,
            228 => Mapper::Action52,
            232 => Mapper::CodemastersQuattro,
            258 => Mapper::Unif158B,
            _ => Mapper::Unknown { ines_mapper_number: n },
        }
    }
}

/// Largest PRG and CHR ROM sizes (in KiB) a board supports; `None` for
/// boards with no known limits.  A CHR maximum of 0 means CHR-RAM only.
pub open spec fn spec_mapper_limits(m: Mapper) -> Option<(u32, u32)> {
    match m {
        Mapper::NROM => Some((32u32, 8u32)),
        Mapper::MMC1 | Mapper::SxROM => Some((512u32, 128u32)),
        Mapper::UxROM => Some((256u32, 0u32)),
        Mapper::CNROM => Some((32u32, 32u32)),
        Mapper::MMC3 | Mapper::TxSROM => Some((512u32, 256u32)),
        Mapper::MMC5 => Some((1024u32, 1024u32)),
        Mapper::AxROM => Some((256u32, 0u32)),
        Mapper::MMC2 | Mapper::PxROM => Some((128u32, 128u32)),
        Mapper::MMC4 => Some((256u32, 128u32)),
        Mapper::ColorDreams => Some((128u32, 128u32)),
        Mapper::CPROM => Some((32u32, 0u32)),
        Mapper::ContraFunction16 => Some((1024u32, 0u32)),
        Mapper::BandaiEPROM | Mapper::BandaiEPROM24C01 => Some((256u32, 256u32)),
        Mapper::UNROM512 => Some((512u32, 0u32)),
        Mapper::JalecoSS8806 => Some((256u32, 256u32)),
        Mapper::Namco163 => Some((512u32, 256u32)),
        Mapper::VRC2a => Some((256u32, 128u32)),
        Mapper::VRC2b | Mapper::VRC4e => Some((256u32, 256u32)),
        Mapper::VRC4a | Mapper::VRC4c => Some((256u32, 256u32)),
        Mapper::VRC4b | Mapper::VRC4d => Some((256u32, 256u32)),
        Mapper::VRC6a => Some((256u32, 256u32)),
        Mapper::VRC6b => Some((256u32, 256u32)),
        Mapper::BNROM | Mapper::NINA001 => Some((128u32, 0u32)),
        Mapper::RAMBO1 => Some((512u32, 256u32)),
        Mapper::GxROM | Mapper::MxROM => Some((128u32, 32u32)),
        Mapper::AfterBurner => Some((128u32, 256u32)),
        Mapper::FME7 => Some((512u32, 256u32)),
        Mapper::Camerica => Some((256u32, 0u32)),
        Mapper::VRC3 => Some((128u32, 0u32)),
        Mapper::PirateMMC3 | Mapper::PirateMMC3_4k => Some((512u32, 256u32)),
        Mapper::VRC1 => Some((128u32, 128u32)),
        Mapper::Namco109 => Some((128u32, 64u32)),
        Mapper::NINA03 | Mapper::NINA06 => Some((64u32, 64u32)),
        Mapper::VRC7 => Some((512u32, 128u32)),
        Mapper::JALECOJF13 => Some((128u32, 64u32)),
        Mapper::SenjouNoOokami => Some((128u32, 0u32)),
        Mapper::NESEVENT => Some((256u32, 0u32)),
        Mapper::TQROM => Some((128u32, 64u32)),
        Mapper::SUBOR166 | Mapper::SUBOR167 => Some((1024u32, 0u32)),
        Mapper::CrazyClimber => Some((128u32, 0u32)),
        Mapper::CNROMWithProtection => Some((32u32, 8u32)),
        Mapper::DxROM => Some((128u32, 64u32)),
        Mapper::Namco175 => Some((512u32, 256u32)),
        Mapper::Action52 => Some((1536u32, 512u32)),
        Mapper::CodemastersQuattro => Some((256u32, 0u32)),
        Mapper::SuperRussianRoulette => Some((512u32, 0u32)),
        Mapper::Unif158B => Some((512u32, 0u32)),
        Mapper::Unknown { .. } | Mapper::Unrecognized => None,
    }
}

} // verus!
