//! CD sector format detection and offset calculation.
//!
//! CD images come in three common layouts: cooked (2048 bytes/sector, user
//! data only), raw Mode 1 (2352 bytes/sector, 16 header bytes before the user
//! data) and raw Mode 2 Form 1 (2352 bytes/sector, 24 header bytes).

use crate::bytes::{all_eq, spec_all_eq};
use vstd::prelude::*;

verus! {

/// Sector format detected in the disc image.
#[derive(Clone, Copy, Debug, PartialEq, Eq, Structural)]
pub enum SectorFormat {
    /// 2048-byte data sectors (standard ISO)
    Mode1Cooked,
    /// 2352-byte raw sectors, Mode 1 (16-byte header before user data)
    Mode1Raw,
    /// 2352-byte raw sectors, Mode 2 Form 1 (24-byte header before user data)
    Mode2Form1,
}

/// Cooked sector size (user data only).
pub const SECTOR_COOKED: usize = 2048;
/// Raw sector size (full sector including sync, header, user data, ECC/EDC).
pub const SECTOR_RAW: usize = 2352;
/// Byte offset to user data in a raw Mode 1 sector (12 sync + 4 header).
pub const MODE1_HEADER: usize = 16;
/// Byte offset to user data in a raw Mode 2 Form 1 sector (12 sync + 4 header + 8 subheader).
pub const MODE2_HEADER: usize = 24;

/// The 12-byte sync pattern that begins every raw CD sector.
pub open spec fn has_sync_pattern(b: Seq<u8>) -> bool {
    b.len() >= 12 && b[0] == 0x00 && b[11] == 0x00 && spec_all_eq(b, 1, 11, 0xFF)
}

/// The sector format the first sector of the buffer shows.
pub open spec fn spec_detect_sector_format(b: Seq<u8>) -> SectorFormat {
    if has_sync_pattern(b) {
        if b.len() > 15 && b[15] == 2 {
            SectorFormat::Mode2Form1
        } else {
            SectorFormat::Mode1Raw
        }
    } else {
        SectorFormat::Mode1Cooked
    }
}

/// Detect sector format by examining the first sector of the buffer: the
/// 12-byte sync pattern marks a raw image, whose mode byte at offset 15
/// tells Mode 2 (value 2) from Mode 1.
pub fn detect_sector_format(buffer: &[u8]) -> (r: SectorFormat)
    ensures
        r == spec_detect_sector_format(buffer@),
{
    let sync = buffer.len() >= 12 && buffer[0] == 0x00 && buffer[11] == 0x00 && all_eq(
        buffer,
        1,
        11,
        0xFF,
    );
    if sync {
        if buffer.len() > 15 && buffer[15] == 2 {
            SectorFormat::Mode2Form1
        } else {
            SectorFormat::Mode1Raw
        }
    } else {
        SectorFormat::Mode1Cooked
    }
}

/// Byte offset to the start of user data for a sector number.
pub open spec fn spec_sector_data_offset(sector: int, format: SectorFormat) -> int {
    match format {
        SectorFormat::Mode1Cooked => sector * 2048,
        SectorFormat::Mode1Raw => sector * 2352 + 16,
        SectorFormat::Mode2Form1 => sector * 2352 + 24,
    }
}

pub fn sector_data_offset(sector: usize, format: SectorFormat) -> (r: usize)
    requires
        sector * 2352 + 24 <= usize::MAX,
    ensures
        r == spec_sector_data_offset(sector as int, format),
{
    match format {
        SectorFormat::Mode1Cooked => sector * SECTOR_COOKED,
        SectorFormat::Mode1Raw => sector * SECTOR_RAW + MODE1_HEADER,
        SectorFormat::Mode2Form1 => sector * SECTOR_RAW + MODE2_HEADER,
    }
}

/// Physical offset of a logical offset (continuous 2048-byte blocks): the
/// identity for cooked images, sector headers accounted for in raw ones.
pub open spec fn spec_logical_to_physical(logical: int, format: SectorFormat) -> int {
    match format {
        SectorFormat::Mode1Cooked => logical,
        SectorFormat::Mode1Raw => (logical / 2048) * 2352 + 16 + logical % 2048,
        SectorFormat::Mode2Form1 => (logical / 2048) * 2352 + 24 + logical % 2048,
    }
}

pub fn logical_to_physical(logical_offset: usize, format: SectorFormat) -> (r: usize)
    requires
        (logical_offset / 2048) * 2352 + 24 + 2048 <= usize::MAX,
    ensures
        r == spec_logical_to_physical(logical_offset as int, format),
{
    match format {
        SectorFormat::Mode1Cooked => logical_offset,
        SectorFormat::Mode1Raw => {
            let sector = logical_offset / SECTOR_COOKED;
            let offset_in_sector = logical_offset % SECTOR_COOKED;
            sector * SECTOR_RAW + MODE1_HEADER + offset_in_sector
        },
        SectorFormat::Mode2Form1 => {
            let sector = logical_offset / SECTOR_COOKED;
            let offset_in_sector = logical_offset % SECTOR_COOKED;
            sector * SECTOR_RAW + MODE2_HEADER + offset_in_sector
        },
    }
}

} // verus!
