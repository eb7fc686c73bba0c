//! NES image container formats (iNES, NES 2.0, TNES).

use crate::traits::ParseError;
use vstd::prelude::*;

verus! {

#[derive(Clone, Copy, Debug, PartialEq, Eq, Structural)]
pub enum FileType {
    INES,
    INES07,
    ArchaicINES,
    NES20,
    TNES,
    Raw,
}

pub open spec fn is_tnes_magic(b: Seq<u8>) -> bool {
    b[0] == 0x54 && b[1] == 0x4E && b[2] == 0x45 && b[3] == 0x53
}

pub open spec fn is_ines_magic(b: Seq<u8>) -> bool {
    b[0] == 0x4E && b[1] == 0x45 && b[2] == 0x53 && b[3] == 0x1A
}

/// The container format a 16-byte header declares.
pub open spec fn spec_file_type(b: Seq<u8>) -> Result<FileType, ParseError> {
    if b.len() < 16 {
        Err(ParseError::BufferTooSmall)
    } else if is_tnes_magic(b) {
        Ok(FileType::TNES)
    } else if is_ines_magic(b) {
        if (b[7] / 4) % 4 == 2 {
            Ok(FileType::NES20)
        } else if (b[7] / 4) % 4 == 1 {
            Ok(FileType::ArchaicINES)
        } else if (b[7] / 4) % 4 == 0 && b[12] == 0 && b[13] == 0 && b[14] == 0 && b[15] == 0 {
            Ok(FileType::INES)
        } else {
            Ok(FileType::INES07)
        }
    } else {
        Err(ParseError::MagicNotFound)
    }
}

/// Determine the container format from the 16-byte header.
pub fn parse_file_type(buffer: &[u8]) -> (r: Result<FileType, ParseError>)
    ensures
        r == spec_file_type(buffer@),
{
    if buffer.len() < 16 {
        return Err(ParseError::BufferTooSmall);
    }
    if buffer[0] == 0x54 && buffer[1] == 0x4E && buffer[2] == 0x45 && buffer[3] == 0x53 {
        return Ok(FileType::TNES);
    }
    if buffer[0] == 0x4E && buffer[1] == 0x45 && buffer[2] == 0x53 && buffer[3] == 0x1A {
        let format = (buffer[7] / 4) % 4;
        if format == 2 {
            Ok(FileType::NES20)
        } else if format == 1 {
            Ok(FileType::ArchaicINES)
        } else if format == 0 && buffer[12] == 0 && buffer[13] == 0 && buffer[14] == 0
            && buffer[15] == 0 {
            Ok(FileType::INES)
        } else {
            Ok(FileType::INES07)
        }
    } else {
        Err(ParseError::MagicNotFound)
    }
}

impl FileType {
    /// Display name of the format.
    /// Display name, as the report writes it.
    pub open spec fn name_text(self) -> Seq<char> {
        match self {
            FileType::ArchaicINES => "Archaic iNES"@,
            FileType::INES => "iNES"@,
            FileType::INES07 => "iNES 0.7"@,
            FileType::NES20 => "NES 2.0"@,
            FileType::TNES => "TNES"@,
            FileType::Raw => "Raw (no header)"@,
        }
    }

    pub fn name(&self) -> (r: &'static str)
        ensures
            r@ == self.name_text(),
    {
        match self {
            FileType::ArchaicINES => "Archaic iNES",
            FileType::INES => "iNES",
            FileType::INES07 => "iNES 0.7",
            FileType::NES20 => "NES 2.0",
            FileType::TNES => "TNES",
            FileType::Raw => "Raw (no header)",
        }
    }
}

} // verus!
