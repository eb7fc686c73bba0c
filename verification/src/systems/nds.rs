//! Nintendo DS cartridge headers.

use crate::bytes::{read_u16_le, spec_u16_le};
use crate::ext::{crc16_modbus, spec_crc16_modbus, string_from_chars, utf8_strict};
use crate::systems::helpers::{
    dat_revision, nintendo_region_dat, non_empty, spec_dat_revision, spec_nintendo_region_dat,
    spec_non_empty, spec_utf8_serial, utf8_serial,
};
use crate::text::{trim_end, trim_end_chars, CharClass};
use crate::traits::{opt_view, DatMeta, ParseError, RomInfo, StoredChecksum};
use crate::ext::{spec_utf8_lossy, utf8_lossy};
use crate::report::{checksum_text, hex_padded, maker_code_line, push_checksum, push_dec, push_hex_padded, push_maker_code_line};
use crate::systems::helpers::{nintendo_region_display, spec_nintendo_region_display};
use crate::text::{append_chars, append_str, spec_decimal};
use vstd::prelude::*;
use vstd::utf8::{decode_utf8, valid_utf8};

verus! {

/// Bytes of header read.
pub const NDS_HEADER_MIN_BYTES: usize = 0x160;

/// The CRC-16 of the Nintendo logo that every retail header stores at 0x15C.
pub const NDS_EXPECTED_LOGO_CRC: u16 = 0xCF56;

/// The header size every retail header stores at 0x84.
pub const NDS_EXPECTED_HEADER_SIZE: u16 = 0x4000;

/// Why a header is rejected.
#[derive(Clone, Copy, Debug, PartialEq, Eq, Structural)]
pub enum NdsParseError {
    BufferTooSmall { minimum: usize },
    InvalidLogoChecksum { found: u16 },
    InvalidHeaderSize { found: u16 },
    InvalidTitleEncoding,
}

/// A parsed Nintendo DS header.
#[derive(Clone, Debug, PartialEq, Eq)]
pub struct NdsRomInfo {
    pub title: String,
    pub game_code: [u8; 4],
    pub maker_code: [u8; 2],
    pub capacity: u8,
    pub version: u8,
    pub stored_header_crc: u16,
    pub calced_header_crc: u16,
}

impl Default for NdsRomInfo {
    fn default() -> (r: NdsRomInfo)
        ensures
            r.title@ == Seq::<char>::empty(),
            r.game_code@ == seq![0u8, 0, 0, 0],
            r.maker_code@ == seq![0u8, 0],
            r.capacity == 0,
            r.version == 0,
            r.stored_header_crc == 0,
            r.calced_header_crc == 0,
    {
        let r = NdsRomInfo {
            title: String::new(),
            game_code: [0u8; 4],
            maker_code: [0u8; 2],
            capacity: 0,
            version: 0,
            stored_header_crc: 0,
            calced_header_crc: 0,
        };
        assert(r.game_code@ =~= seq![0u8, 0, 0, 0]);
        assert(r.maker_code@ =~= seq![0u8, 0]);
        r
    }
}

/// The declared ROM size in MiB: `2^(capacity - 3)` for capacities 3-34.
pub open spec fn spec_rom_size_mib(capacity: u8) -> Option<u32> {
    if 3 <= capacity && capacity - 3 < 32 {
        Some(crate::bits::pow2n((capacity - 3) as nat) as u32)
    } else {
        None
    }
}

impl NdsRomInfo {
    /// Device-declared ROM size in MiB, from the capacity byte at 0x14
    /// (the chip holds 128 KiB shifted left by the capacity).
    pub fn rom_size_mib(&self) -> (r: Option<u32>)
        ensures
            r == spec_rom_size_mib(self.capacity),
    {
        if self.capacity < 3 || self.capacity - 3 >= 32 {
            return None;
        }
        let shift = self.capacity - 3;
        let mut v: u32 = 1;
        let mut i: u8 = 0;
        proof {
            crate::bits::lemma_pow2n_bound(0);
        }
        while i < shift
            invariant
                i <= shift < 32,
                v == crate::bits::pow2n(i as nat),
                crate::bits::pow2n(i as nat) < 0x1_0000_0000,
            decreases shift - i,
        {
            proof {
                lemma_pow2_u32(i as nat);
            }
            v = v * 2;
            i += 1;
        }
        Some(v)
    }
}

proof fn lemma_pow2_u32(e: nat)
    requires
        e < 31,
    ensures
        crate::bits::pow2n(e + 1) == 2 * crate::bits::pow2n(e),
        crate::bits::pow2n(e + 1) < 0x1_0000_0000,
{
    crate::bits::lemma_pow2n_mono(e + 1, 31);
    reveal_with_fuel(crate::bits::pow2n, 32);
    assert(crate::bits::pow2n(31) == 0x8000_0000);
}

/// The title: the first twelve bytes as UTF-8, NULs and ASCII whitespace
/// trimmed from the end.
pub open spec fn nds_title(b: Seq<u8>) -> Seq<char> {
    trim_end(decode_utf8(b.subrange(0, 12)), CharClass::NulOrAsciiWhitespace)
}

/// The rejection of a header, when it is rejected.
pub open spec fn spec_nds_header_error(b: Seq<u8>) -> Option<NdsParseError> {
    if b.len() < 0x160 {
        Some(NdsParseError::BufferTooSmall { minimum: 0x160 })
    } else if spec_u16_le(b, 0x15C) != 0xCF56 {
        Some(NdsParseError::InvalidLogoChecksum { found: spec_u16_le(b, 0x15C) })
    } else if spec_u16_le(b, 0x84) != 0x4000 {
        Some(NdsParseError::InvalidHeaderSize { found: spec_u16_le(b, 0x84) })
    } else if !valid_utf8(b.subrange(0, 12)) {
        Some(NdsParseError::InvalidTitleEncoding)
    } else {
        None
    }
}

/// What a successful parse reads from the buffer.
pub open spec fn nds_info_matches(b: Seq<u8>, info: NdsRomInfo) -> bool {
    &&& info.title@ == nds_title(b)
    &&& info.game_code@ == b.subrange(0x0C, 0x10)
    &&& info.maker_code@ == b.subrange(0x10, 0x12)
    &&& info.capacity == b[0x14]
    &&& info.version == b[0x1E]
    &&& info.stored_header_crc == spec_u16_le(b, 0x15E)
    &&& info.calced_header_crc == spec_crc16_modbus(b.subrange(0, 0x15E))
}

/// Parse the header fields, checking the logo CRC, the header size and the
/// title's encoding.
pub fn parse_nds_header(buffer: &[u8]) -> (r: Result<NdsRomInfo, NdsParseError>)
    ensures
        match r {
            Ok(info) => spec_nds_header_error(buffer@) is None && nds_info_matches(buffer@, info),
            Err(e) => spec_nds_header_error(buffer@) == Some(e),
        },
{
    if buffer.len() < NDS_HEADER_MIN_BYTES {
        return Err(NdsParseError::BufferTooSmall { minimum: NDS_HEADER_MIN_BYTES });
    }
    let logo_checksum = read_u16_le(buffer, 0x15C);
    if logo_checksum != NDS_EXPECTED_LOGO_CRC {
        return Err(NdsParseError::InvalidLogoChecksum { found: logo_checksum });
    }
    let header_size = read_u16_le(buffer, 0x84);
    if header_size != NDS_EXPECTED_HEADER_SIZE {
        return Err(NdsParseError::InvalidHeaderSize { found: header_size });
    }
    let title_bytes = &buffer[0..12];
    assert(title_bytes@ =~= buffer@.subrange(0, 12));
    let title_chars = match utf8_strict(title_bytes) {
        Some(c) => c,
        None => {
            return Err(NdsParseError::InvalidTitleEncoding);
        },
    };
    let trimmed = trim_end_chars(&title_chars, CharClass::NulOrAsciiWhitespace);
    let title = string_from_chars(&trimmed);
    let game_code: [u8; 4] = [buffer[0x0C], buffer[0x0D], buffer[0x0E], buffer[0x0F]];
    assert(game_code@ =~= buffer@.subrange(0x0C, 0x10));
    let maker_code: [u8; 2] = [buffer[0x10], buffer[0x11]];
    assert(maker_code@ =~= buffer@.subrange(0x10, 0x12));
    let stored_header_crc = read_u16_le(buffer, 0x15E);
    let head = &buffer[0..0x15E];
    assert(head@ =~= buffer@.subrange(0, 0x15E));
    let calced_header_crc = crc16_modbus(head);
    Ok(
        NdsRomInfo {
            title,
            game_code,
            maker_code,
            capacity: buffer[0x14],
            version: buffer[0x1E],
            stored_header_crc,
            calced_header_crc,
        },
    )
}

/// The library error a header rejection maps to.
pub open spec fn nds_error_kind(e: NdsParseError) -> ParseError {
    match e {
        NdsParseError::BufferTooSmall { .. } => ParseError::BufferTooSmall,
        NdsParseError::InvalidLogoChecksum { .. } => ParseError::MagicNotFound,
        NdsParseError::InvalidHeaderSize { .. } => ParseError::MagicNotFound,
        NdsParseError::InvalidTitleEncoding => ParseError::InvalidHeader,
    }
}

impl NdsRomInfo {
    /// Parse a Nintendo DS header.
    pub fn try_from(buffer: &[u8]) -> (r: Result<NdsRomInfo, ParseError>)
        ensures
            match r {
                Ok(info) => spec_nds_header_error(buffer@) is None && nds_info_matches(
                    buffer@,
                    info,
                ),
                Err(e) => spec_nds_header_error(buffer@) matches Some(h) && e == nds_error_kind(
                    h,
                ),
            },
    {
        match parse_nds_header(buffer) {
            Ok(info) => Ok(info),
            Err(e) => Err(
                match e {
                    NdsParseError::BufferTooSmall { .. } => ParseError::BufferTooSmall,
                    NdsParseError::InvalidLogoChecksum { .. } => ParseError::MagicNotFound,
                    NdsParseError::InvalidHeaderSize { .. } => ParseError::MagicNotFound,
                    NdsParseError::InvalidTitleEncoding => ParseError::InvalidHeader,
                },
            ),
        }
    }
}

impl RomInfo for NdsRomInfo {
    fn console(&self) -> (r: &'static str)
        ensures
            r@ == "Nintendo DS"@,
    {
        "Nintendo DS"
    }

    fn dat_meta(&self) -> (r: DatMeta)
        ensures
            opt_view(r.title) == spec_non_empty(self.title@),
            opt_view(r.region) == spec_nintendo_region_dat(self.game_code@[3]),
            opt_view(r.version) == spec_dat_revision(self.version),
            opt_view(r.serial) == spec_utf8_serial(self.game_code@),
            opt_view(r.machine_id) == spec_utf8_serial(self.game_code@),
            r.manufacturer is None,
            r.date is None,
    {
        self.dat_meta_with_maker(None)
    }
}

impl NdsRomInfo {
    /// Catalogue metadata, with the manufacturer named by the header's maker
    /// code where the caller knows that name.
    pub fn dat_meta_with_maker(&self, maker: Option<&str>) -> (r: DatMeta)
        ensures
            opt_view(r.title) == spec_non_empty(self.title@),
            opt_view(r.region) == spec_nintendo_region_dat(self.game_code@[3]),
            opt_view(r.version) == spec_dat_revision(self.version),
            opt_view(r.serial) == spec_utf8_serial(self.game_code@),
            opt_view(r.machine_id) == spec_utf8_serial(self.game_code@),
            opt_view(r.manufacturer) == match maker {
                Some(m) => Some(m@),
                None => None,
            },
            r.date is None,
    {
        DatMeta {
            title: non_empty(self.title.as_str()),
            region: nintendo_region_dat(self.game_code[3]),
            version: dat_revision(self.version),
            date: None,
            manufacturer: match maker {
                Some(m) => Some(String::from_str(m)),
                None => None,
            },
            serial: utf8_serial(self.game_code.as_slice()),
            machine_id: utf8_serial(self.game_code.as_slice()),
        }
    }
}

impl StoredChecksum<u16> for NdsRomInfo {
    fn stored_checksum(&self) -> (r: u16)
        ensures
            r == self.stored_header_crc,
    {
        self.stored_header_crc
    }

    fn calculated_checksum(&self) -> (r: u16)
        ensures
            r == self.calced_header_crc,
    {
        self.calced_header_crc
    }

    fn checksum_matches(&self) -> (r: bool)
        ensures
            r == (self.stored_header_crc == self.calced_header_crc),
    {
        self.stored_header_crc == self.calced_header_crc
    }
}

// ---------------------------------------------------------------------------
// Report
// ---------------------------------------------------------------------------

/// The ROM size line: the capacity in MiB where it is a retail one.
pub open spec fn nds_size_line(capacity: u8) -> Seq<char> {
    match spec_rom_size_mib(capacity) {
        Some(m) => "ROM Size: "@ + spec_decimal(m as nat) + " MiB\n"@,
        None => "ROM Size: unknown (capacity byte 0x"@ + hex_padded(capacity as nat, 2) + ")\n"@,
    }
}

/// The report of a DS cartridge, given the maker's name where its code is
/// known.
pub open spec fn nds_report(i: NdsRomInfo, maker: Option<Seq<char>>) -> Seq<char> {
    "Name: "@ + i.title@ + "\n"@ + "Code: "@ + spec_utf8_lossy(i.game_code@) + "\n"@ + "Region: "@
        + spec_nintendo_region_display(i.game_code@[3]) + "\n"@ + "Version: "@ + spec_decimal(
        i.version as nat,
    ) + "\n"@ + maker_code_line(maker, i.maker_code@) + nds_size_line(i.capacity) + checksum_text(
        i.stored_header_crc as nat,
        i.calced_header_crc as nat,
        4,
    ) + "\n"@
}

impl NdsRomInfo {
    /// The report the inspector prints for the cartridge, given the maker's
    /// name where its code is known.
    pub fn describe(&self, maker: Option<&str>) -> (r: String)
        ensures
            r@ == nds_report(
                *self,
                match maker {
                Some(m) => Some(m@),
                None => None,
            },
            ),
    {
        let mut t: Vec<char> = Vec::new();
        append_str(&mut t, "Name: ");
        append_str(&mut t, self.title.as_str());
        append_str(&mut t, "\n");
        append_str(&mut t, "Code: ");
        let code = utf8_lossy(self.game_code.as_slice());
        append_chars(&mut t, &code);
        append_str(&mut t, "\n");
        append_str(&mut t, "Region: ");
        append_str(&mut t, nintendo_region_display(self.game_code[3]));
        append_str(&mut t, "\n");
        append_str(&mut t, "Version: ");
        push_dec(&mut t, self.version as u64);
        append_str(&mut t, "\n");
        push_maker_code_line(&mut t, maker, self.maker_code.as_slice());
        let ghost a = t@;
        match self.rom_size_mib() {
            Some(m) => {
                append_str(&mut t, "ROM Size: ");
                push_dec(&mut t, m as u64);
                append_str(&mut t, " MiB\n");
            },
            None => {
                append_str(&mut t, "ROM Size: unknown (capacity byte 0x");
                push_hex_padded(&mut t, self.capacity as u64, 2);
                append_str(&mut t, ")\n");
            },
        }
        assert(t@ =~= a + nds_size_line(self.capacity));
        push_checksum(&mut t, self.stored_header_crc as u64, self.calced_header_crc as u64, 4);
        append_str(&mut t, "\n");
        assert(t@ =~= nds_report(
            *self,
            match maker {
                Some(m) => Some(m@),
                None => None,
            },
        ));
        string_from_chars(&t)
    }
}

} // verus!
