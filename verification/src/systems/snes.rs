//! Super Nintendo / Super Famicom cartridge images.

pub mod detection;

use crate::ext::{compute_sha1, spec_sha1, string_from_chars};
use crate::systems::helpers::{
    dat_revision, detect_trailing_padding, detect_unique_size, non_empty, spec_dat_revision,
    spec_detect_trailing_padding, spec_detect_unique_size, spec_non_empty, spec_utf8_serial,
    utf8_serial,
};
use crate::bytes::{read_u16_le, spec_u16_le};
use crate::text::{
    append_str, ascii_prefix_chars, ascii_prefix_len, bytes_as_chars, spec_decimal, trim_end, trim_end_chars, CharClass,
};
use crate::traits::{opt_view, DatMeta, ParseError, RomHash, RomInfo, StoredChecksum, Title};
use crate::report::{checksum_text, hex_padded, push_checksum, push_dec, push_hex_padded, push_sha1, push_title_line, sha1_text, title_line};
use detection::{
    copier_offset, decoded_rom_size, detect_header_offset, effective_rom_size, has_copier_trainer,
    lemma_small_sums_fit, snes_checksum, spec_decoded_rom_size, spec_detect_header_offset, spec_effective_rom_size,
    spec_snes_checksum, base_candidate, pass_accepts, scan_pass, HEADER_CART_TYPE_OFFSET,
    HEADER_CHECKSUM_OFFSET, HEADER_GAME_CODE_OFFSET, HEADER_MAP_MODE_OFFSET,
    HEADER_REGION_OFFSET, HEADER_REVISION_OFFSET, HEADER_ROM_SIZE_OFFSET, HEADER_TITLE_LEN,
    SNES_ROM_MAX_BYTES, SNES_ROM_MIN_BYTES, TRAINER_BYTES,
};
use vstd::prelude::*;

verus! {

/// Information read from a SNES cartridge image.  Sizes are in bytes.
pub struct SNESRomInfo {
    pub game_title: String,
    pub revision: u8,
    pub cartridge_type: u8,
    pub rom_size: u64,
    pub file_size: u64,
    pub region: u8,
    pub rom_speed: u8,
    pub map_mode: u8,
    pub stored_checksum: u16,
    pub calculated_checksum: u16,
    pub trimmed_checksum: Option<u16>,
    pub rom_sha1: [u8; 20],
    pub unique_rom_bytes: Option<usize>,
    pub game_code: Option<[u8; 4]>,
}

pub open spec fn is_upper_or_digit(c: u8) -> bool {
    (0x41 <= c <= 0x5A) || (0x30 <= c <= 0x39)
}

/// The extended-header game code 14 bytes before the header, when present
/// and made of upper-case letters and digits.
pub open spec fn spec_snes_game_code(b: Seq<u8>, hl: int) -> Option<Seq<u8>> {
    if hl >= 0x0E && hl - 0x0E + 4 <= b.len() && (forall|j: int|
        0 <= j < 4 ==> #[trigger] is_upper_or_digit(b[hl - 0x0E + j])) {
        Some(b.subrange(hl - 0x0E, hl - 0x0E + 4))
    } else {
        None
    }
}

/// The header title: up to 21 bytes, cut at the first non-ASCII byte,
/// trailing whitespace removed.
pub open spec fn spec_snes_title(b: Seq<u8>, hl: int) -> Seq<char> {
    let end = if hl + 21 <= b.len() {
        hl + 21
    } else {
        b.len() as int
    };
    let raw = b.subrange(hl, end);
    trim_end(bytes_as_chars(raw.take(ascii_prefix_len(raw) as int)), CharClass::Whitespace)
}

pub open spec fn opt_array4(o: Option<[u8; 4]>) -> Option<Seq<u8>> {
    match o {
        Some(a) => Some(a@),
        None => None,
    }
}

/// What a successful parse reads from a buffer whose header lies at `hl`.
pub open spec fn snes_info_matches(b: Seq<u8>, hl: int, info: SNESRomInfo) -> bool {
    let offset = copier_offset(b);
    let rom_data = b.skip(offset);
    let header_rom_size = (spec_decoded_rom_size(b[hl + 0x17]) as usize) as int;
    let rom_size = spec_effective_rom_size(header_rom_size, rom_data.len() as int);
    let unique = match spec_detect_unique_size(rom_data, SNES_ROM_MIN_BYTES as int) {
        Some(u) => Some(u),
        None => spec_detect_trailing_padding(rom_data, SNES_ROM_MIN_BYTES as int),
    };
    &&& info.game_title@ == spec_snes_title(b, hl)
    &&& info.rom_speed == (b[hl + 0x15] / 16) % 2
    &&& info.map_mode == b[hl + 0x15] % 16
    &&& info.cartridge_type == b[hl + 0x16]
    &&& info.region == b[hl + 0x19]
    &&& info.revision == b[hl + 0x1B]
    &&& info.file_size == b.len()
    &&& info.stored_checksum == 0xFFFF - spec_u16_le(b, hl + 0x1E)
    &&& info.calculated_checksum == 0xFFFF - spec_snes_checksum(rom_data, rom_size)
    &&& info.rom_size == rom_size
    &&& info.unique_rom_bytes == unique
    &&& info.trimmed_checksum == match unique {
        Some(u) => Some(
            (0xFFFF - spec_snes_checksum(
                rom_data.take(u as int),
                spec_effective_rom_size(header_rom_size, u as int),
            )) as u16,
        ),
        None => None,
    }
    &&& info.rom_sha1@ == spec_sha1(rom_data)
    &&& opt_array4(info.game_code) == spec_snes_game_code(b, hl)
}

fn read_game_code(buffer: &[u8], hl: usize) -> (r: Option<[u8; 4]>)
    requires
        hl < buffer.len(),
    ensures
        opt_array4(r) == spec_snes_game_code(buffer@, hl as int),
{
    if hl < HEADER_GAME_CODE_OFFSET {
        return None;
    }
    let gc = hl - HEADER_GAME_CODE_OFFSET;
    if gc + 4 > buffer.len() {
        return None;
    }
    let mut j: usize = 0;
    while j < 4
        invariant
            gc + 4 <= buffer.len(),
            gc == hl - 0x0E,
            j <= 4,
            forall|k: int| 0 <= k < j ==> #[trigger] is_upper_or_digit(buffer@[gc + k]),
        decreases 4 - j,
    {
        let c = buffer[gc + j];
        if !((0x41 <= c && c <= 0x5A) || (0x30 <= c && c <= 0x39)) {
            assert(!is_upper_or_digit(buffer@[hl - 0x0E + j as int]));
            return None;
        }
        j += 1;
    }
    assert forall|k: int| 0 <= k < 4 implies #[trigger] is_upper_or_digit(
        buffer@[hl - 0x0E + k],
    ) by {
        assert(is_upper_or_digit(buffer@[gc + k]));
    }
    let code: [u8; 4] = [buffer[gc], buffer[gc + 1], buffer[gc + 2], buffer[gc + 3]];
    assert(code@ =~= buffer@.subrange(gc as int, gc + 4));
    Some(code)
}

impl SNESRomInfo {
    /// Parse a SNES image: locate the header, then read its fields, the
    /// checksum over the declared size and any overdump.
    pub fn try_from(buffer: &[u8]) -> (r: Result<SNESRomInfo, ParseError>)
        ensures
            match r {
                Ok(info) => spec_detect_header_offset(buffer@) matches Some(hl) && snes_info_matches(
                    buffer@,
                    hl,
                    info,
                ),
                Err(e) => spec_detect_header_offset(buffer@) is None && e == ParseError::MagicNotFound,
            },
    {
        let header_location = match detect_header_offset(buffer) {
            Ok(o) => o,
            Err(_) => return Err(ParseError::MagicNotFound),
        };
        proof {
            assert(spec_detect_header_offset(buffer@) == Some(header_location as int));
            lemma_detect_header_bounds(buffer@);
        }
        let offset = if has_copier_trainer(buffer) {
            TRAINER_BYTES
        } else {
            0
        };
        let rom_data = &buffer[offset..buffer.len()];
        assert(rom_data@ =~= buffer@.skip(offset as int));
        let rom_sha1 = compute_sha1(rom_data);
        let header_rom_size = decoded_rom_size(buffer[header_location + HEADER_ROM_SIZE_OFFSET]);
        let file_rom_size = buffer.len() - offset;
        let rom_size = effective_rom_size(header_rom_size, file_rom_size);
        let unique_rom_bytes = match detect_unique_size(rom_data, SNES_ROM_MIN_BYTES) {
            Some(u) => Some(u),
            None => detect_trailing_padding(rom_data, SNES_ROM_MIN_BYTES),
        };
        proof {
            if rom_size > rom_data.len() {
                lemma_small_sums_fit(rom_data@, rom_size as int);
            }
        }
        let calculated_checksum = 0xFFFF - snes_checksum(rom_data, rom_size);
        let trimmed_checksum = match unique_rom_bytes {
            Some(unique) => {
                proof {
                    lemma_unique_le(rom_data@);
                }
                let trimmed_rom_size = effective_rom_size(header_rom_size, unique);
                let trimmed = &rom_data[0..unique];
                assert(trimmed@ =~= rom_data@.take(unique as int));
                proof {
                    if trimmed_rom_size > trimmed.len() {
                        lemma_small_sums_fit(trimmed@, trimmed_rom_size as int);
                    }
                }
                Some(0xFFFF - snes_checksum(trimmed, trimmed_rom_size))
            },
            None => None,
        };
        let game_code = read_game_code(buffer, header_location);
        let title_end = if header_location + HEADER_TITLE_LEN <= buffer.len() {
            header_location + HEADER_TITLE_LEN
        } else {
            buffer.len()
        };
        let title_chars = ascii_prefix_chars(buffer, header_location, title_end);
        let trimmed_title = trim_end_chars(&title_chars, CharClass::Whitespace);
        let game_title = string_from_chars(&trimmed_title);
        let map_byte = buffer[header_location + HEADER_MAP_MODE_OFFSET];
        let stored = read_u16_le(buffer, header_location + HEADER_CHECKSUM_OFFSET);
        Ok(SNESRomInfo {
            game_title,
            rom_speed: (map_byte / 16) % 2,
            map_mode: map_byte % 16,
            cartridge_type: buffer[header_location + HEADER_CART_TYPE_OFFSET],
            region: buffer[header_location + HEADER_REGION_OFFSET],
            revision: buffer[header_location + HEADER_REVISION_OFFSET],
            file_size: buffer.len() as u64,
            stored_checksum: 0xFFFF - stored,
            calculated_checksum,
            rom_size: rom_size as u64,
            trimmed_checksum,
            rom_sha1,
            unique_rom_bytes,
            game_code,
        })
    }
}

/// An accepted header lies inside the buffer, with its checksum and
/// vectors, and the buffer is no larger than the SNES maximum.
proof fn lemma_detect_header_bounds(b: Seq<u8>)
    requires
        spec_detect_header_offset(b) is Some,
    ensures
        spec_detect_header_offset(b) matches Some(hl) && hl + 0x20 <= b.len() && hl >= 0,
        b.len() <= SNES_ROM_MAX_BYTES,
        b.len() >= SNES_ROM_MIN_BYTES,
{
    let hdr = copier_offset(b);
    lemma_scan_bounds(b, hdr, 1, 0);
    lemma_scan_bounds(b, hdr, 2, 0);
    lemma_scan_bounds(b, hdr, 3, 0);
    lemma_scan_bounds(b, hdr, 4, 0);
}

proof fn lemma_scan_bounds(b: Seq<u8>, hdr: int, pass: int, i: int)
    requires
        0 <= hdr,
    ensures
        scan_pass(b, hdr, pass, i) matches Some(o) ==> o + 0x20 <= b.len() && o >= 0,
    decreases 7 - i,
{
    if 0 <= i < 7 && !pass_accepts(b, base_candidate(i), hdr, pass) {
        lemma_scan_bounds(b, hdr, pass, i + 1);
    }
}

/// An overdump size never exceeds the data.
proof fn lemma_unique_le(d: Seq<u8>)
    ensures
        spec_detect_unique_size(d, SNES_ROM_MIN_BYTES as int) matches Some(u) ==> u < d.len(),
        spec_detect_trailing_padding(d, SNES_ROM_MIN_BYTES as int) matches Some(u) ==> u <= d.len(),
{
}

/// No-Intro region name for a SNES region byte.
pub open spec fn spec_snes_region_dat(region: u8) -> Option<Seq<char>> {
    if region == 0x00 {
        Some("Japan"@)
    } else if region == 0x01 {
        Some("USA"@)
    } else if region == 0x02 {
        Some("Europe"@)
    } else if region == 0x03 {
        Some("Sweden"@)
    } else if region == 0x04 {
        Some("Finland"@)
    } else if region == 0x05 {
        Some("Denmark"@)
    } else if region == 0x06 {
        Some("France"@)
    } else if region == 0x07 {
        Some("Netherlands"@)
    } else if region == 0x08 {
        Some("Spain"@)
    } else if region == 0x09 {
        Some("Germany"@)
    } else if region == 0x0A {
        Some("Italy"@)
    } else if region == 0x0B || region == 0x0C {
        Some("Asia"@)
    } else if region == 0x0D {
        Some("Korea"@)
    } else if region == 0x0F {
        Some("World"@)
    } else {
        None
    }
}

fn snes_region_dat(region: u8) -> (r: Option<String>)
    ensures
        opt_view(r) == spec_snes_region_dat(region),
{
    let name: Option<&str> = match region {
        0x00 => Some("Japan"),
        0x01 => Some("USA"),
        0x02 => Some("Europe"),
        0x03 => Some("Sweden"),
        0x04 => Some("Finland"),
        0x05 => Some("Denmark"),
        0x06 => Some("France"),
        0x07 => Some("Netherlands"),
        0x08 => Some("Spain"),
        0x09 => Some("Germany"),
        0x0A => Some("Italy"),
        0x0B | 0x0C => Some("Asia"),
        0x0D => Some("Korea"),
        0x0F => Some("World"),
        _ => None,
    };
    match name {
        Some(n) => Some(String::from_str(n)),
        None => None,
    }
}

pub open spec fn spec_code_serial(code: Option<[u8; 4]>) -> Option<Seq<char>> {
    match code {
        Some(gc) => spec_utf8_serial(gc@),
        None => None,
    }
}

impl RomInfo for SNESRomInfo {
    fn console(&self) -> (r: &'static str)
        ensures
            r@ == "Super Nintendo/Super Famicom"@,
    {
        "Super Nintendo/Super Famicom"
    }

    fn dat_meta(&self) -> (r: DatMeta)
        ensures
            opt_view(r.title) == spec_non_empty(self.game_title@),
            opt_view(r.region) == spec_snes_region_dat(self.region),
            opt_view(r.version) == spec_dat_revision(self.revision),
            opt_view(r.serial) == spec_code_serial(self.game_code),
            opt_view(r.machine_id) == spec_code_serial(self.game_code),
            r.date is None,
            r.manufacturer is None,
    {
        let serial = match &self.game_code {
            Some(gc) => utf8_serial(gc.as_slice()),
            None => None,
        };
        let machine_id = match &self.game_code {
            Some(gc) => utf8_serial(gc.as_slice()),
            None => None,
        };
        DatMeta {
            title: non_empty(self.game_title.as_str()),
            region: snes_region_dat(self.region),
            version: dat_revision(self.revision),
            date: None,
            manufacturer: None,
            serial,
            machine_id,
        }
    }
}

impl StoredChecksum<u16> for SNESRomInfo {
    fn stored_checksum(&self) -> (r: u16)
        ensures
            r == self.stored_checksum,
    {
        self.stored_checksum
    }

    fn calculated_checksum(&self) -> (r: u16)
        ensures
            r == self.calculated_checksum,
    {
        self.calculated_checksum
    }

    fn checksum_matches(&self) -> (r: bool)
        ensures
            r == (self.stored_checksum == self.calculated_checksum),
    {
        self.stored_checksum == self.calculated_checksum
    }
}

impl RomHash for SNESRomInfo {
    fn sha1(&self) -> (r: [u8; 20])
        ensures
            r == self.rom_sha1,
    {
        self.rom_sha1
    }
}

impl Title for SNESRomInfo {
    fn title(&self) -> (r: &str)
        ensures
            r@ == self.game_title@,
    {
        self.game_title.as_str()
    }
}

// ---------------------------------------------------------------------------
// Report
// ---------------------------------------------------------------------------

/// A number of bits in whole mebibits, kibibits or bits; `None` for a number
/// of bits past one mebibit that is not a whole number of them (the report
/// writes those with two decimals).
pub open spec fn spec_format_bits(bits: u64) -> Option<Seq<char>> {
    if bits >= 0x100000 && bits % 0x100000 == 0 {
        Some(spec_decimal((bits / 0x100000) as nat) + " Mibit"@)
    } else if bits >= 0x100000 {
        None
    } else if bits >= 1024 && bits % 1024 == 0 {
        Some(spec_decimal((bits / 1024) as nat) + " Kibit"@)
    } else {
        Some(spec_decimal(bits as nat) + " bit"@)
    }
}

/// A number of bits as the report writes it, when it needs no decimals.
pub fn format_bits(bits: u64) -> (r: Option<String>)
    ensures
        match r {
            Some(s) => spec_format_bits(bits) == Some(s@),
            None => spec_format_bits(bits) is None,
        },
{
    let mut t: Vec<char> = Vec::new();
    if bits >= 0x100000 && bits % 0x100000 == 0 {
        push_dec(&mut t, bits / 0x100000);
        append_str(&mut t, " Mibit");
    } else if bits >= 0x100000 {
        return None;
    } else if bits >= 1024 && bits % 1024 == 0 {
        push_dec(&mut t, bits / 1024);
        append_str(&mut t, " Kibit");
    } else {
        push_dec(&mut t, bits);
        append_str(&mut t, " bit");
    }
    Some(string_from_chars(&t))
}

/// The cartridge type a type byte names.
pub open spec fn snes_cartridge_name(c: u8) -> Seq<char> {
    if c == 0x00 {
        "ROM Only"@
    } else if c == 0x01 {
        "ROM + RAM"@
    } else if c == 0x02 {
        "ROM + RAM + Battery"@
    } else if c == 0x03 {
        "ROM + Enhancement Chip"@
    } else if c == 0x13 {
        "ROM + Super FX"@
    } else if c == 0x1A {
        "ROM + SA-1"@
    } else if c == 0x1B {
        "ROM + SA-1 + RAM"@
    } else {
        "Unknown"@
    }
}

fn snes_cartridge_text(c: u8) -> (r: &'static str)
    ensures
        r@ == snes_cartridge_name(c),
{
    if c == 0x00 {
        "ROM Only"
    } else if c == 0x01 {
        "ROM + RAM"
    } else if c == 0x02 {
        "ROM + RAM + Battery"
    } else if c == 0x03 {
        "ROM + Enhancement Chip"
    } else if c == 0x13 {
        "ROM + Super FX"
    } else if c == 0x1A {
        "ROM + SA-1"
    } else if c == 0x1B {
        "ROM + SA-1 + RAM"
    } else {
        "Unknown"
    }
}

/// The region a region byte names.
pub open spec fn snes_region_name(r: u8) -> Seq<char> {
    if r == 0x00 {
        "Japan"@
    } else if r == 0x01 {
        "North America"@
    } else if r == 0x02 {
        "Europe"@
    } else if r == 0x03 {
        "Sweden"@
    } else if r == 0x04 {
        "Finland"@
    } else if r == 0x05 {
        "Denmark"@
    } else if r == 0x06 {
        "France"@
    } else if r == 0x07 {
        "Holland"@
    } else if r == 0x08 {
        "Spain"@
    } else if r == 0x09 {
        "Germany"@
    } else if r == 0x0A {
        "Italy"@
    } else if r == 0x0B {
        "Hong Kong"@
    } else if r == 0x0C {
        "Indonesia"@
    } else if r == 0x0D {
        "South Korea"@
    } else if r == 0x0F {
        "Global"@
    } else {
        "Unknown"@
    }
}

fn snes_region_text(r: u8) -> (t: &'static str)
    ensures
        t@ == snes_region_name(r),
{
    if r == 0x00 {
        "Japan"
    } else if r == 0x01 {
        "North America"
    } else if r == 0x02 {
        "Europe"
    } else if r == 0x03 {
        "Sweden"
    } else if r == 0x04 {
        "Finland"
    } else if r == 0x05 {
        "Denmark"
    } else if r == 0x06 {
        "France"
    } else if r == 0x07 {
        "Holland"
    } else if r == 0x08 {
        "Spain"
    } else if r == 0x09 {
        "Germany"
    } else if r == 0x0A {
        "Italy"
    } else if r == 0x0B {
        "Hong Kong"
    } else if r == 0x0C {
        "Indonesia"
    } else if r == 0x0D {
        "South Korea"
    } else if r == 0x0F {
        "Global"
    } else {
        "Unknown"
    }
}

/// The mapping mode a map-mode value names.
pub open spec fn snes_map_mode_name(m: u8) -> Seq<char> {
    if m == 0x00 {
        "LoROM"@
    } else if m == 0x01 {
        "HiROM"@
    } else if m == 0x02 {
        "SA-1 ROM"@
    } else if m == 0x03 {
        "ExLoROM"@
    } else if m == 0x05 {
        "ExHiROM"@
    } else {
        "Unknown"@
    }
}

fn snes_map_mode_text(m: u8) -> (r: &'static str)
    ensures
        r@ == snes_map_mode_name(m),
{
    if m == 0x00 {
        "LoROM"
    } else if m == 0x01 {
        "HiROM"
    } else if m == 0x02 {
        "SA-1 ROM"
    } else if m == 0x03 {
        "ExLoROM"
    } else if m == 0x05 {
        "ExHiROM"
    } else {
        "Unknown"
    }
}

/// The speed a ROM speed bit names.
pub open spec fn snes_speed_name(s: u8) -> Seq<char> {
    if s == 1 {
        "FastROM (3.58 MHz)"@
    } else {
        "SlowROM (2.68 MHz)"@
    }
}

/// The file holds a 512-byte copier header on top of the declared ROM.
pub open spec fn snes_trainer_detected(i: SNESRomInfo) -> bool {
    (if i.rom_size + 512 <= u64::MAX {
        i.rom_size + 512
    } else {
        0
    }) == i.file_size
}

/// The report of a SNES cartridge; the sizes come as text (see
/// `spec_format_bits` for the bit counts of the overdump line).
pub open spec fn snes_report(
    i: SNESRomInfo,
    rom_size_text: Seq<char>,
    file_size_text: Seq<char>,
    unique_bits_text: Seq<char>,
    file_bits_text: Seq<char>,
) -> Seq<char> {
    title_line(i.game_title@) + "Region: "@ + snes_region_name(i.region) + "\n"@ + "Revision: "@
        + spec_decimal(i.revision as nat) + "\n"@ + "Cartridge Type: "@ + snes_cartridge_name(
        i.cartridge_type,
    ) + " (0x"@ + hex_padded(i.cartridge_type as nat, 2) + ")\n"@ + "ROM Speed: "@ + snes_speed_name(
        i.rom_speed,
    ) + "\n"@ + "Map Mode: "@ + snes_map_mode_name(i.map_mode) + "\n"@ + "ROM Size:  "@
        + rom_size_text + "\n"@ + "File Size: "@ + file_size_text + "\n"@ + checksum_text(
        i.stored_checksum as nat,
        i.calculated_checksum as nat,
        4,
    ) + "\n"@ + sha1_text(i.rom_sha1@) + "\n"@ + (if snes_trainer_detected(i) {
        "Possible Trainer Detected (512 extra bytes in file)\n"@
    } else {
        Seq::empty()
    }) + (if i.unique_rom_bytes is Some && i.trimmed_checksum == Some(i.stored_checksum) {
        "Overdump Detected: file contains "@ + unique_bits_text + " of unique ROM data ("@
            + file_bits_text + " file)\n"@
    } else {
        Seq::empty()
    })
}

impl SNESRomInfo {
    /// The report the inspector prints for the cartridge, given the ROM and
    /// file sizes as text and the bit counts of the overdump line as text.
    pub fn describe(
        &self,
        rom_size_text: &str,
        file_size_text: &str,
        unique_bits_text: &str,
        file_bits_text: &str,
    ) -> (r: String)
        ensures
            r@ == snes_report(*self, rom_size_text@, file_size_text@, unique_bits_text@, file_bits_text@),
    {
        let mut t: Vec<char> = Vec::new();
        push_title_line(&mut t, self.game_title.as_str());
        append_str(&mut t, "Region: ");
        append_str(&mut t, snes_region_text(self.region));
        append_str(&mut t, "\n");
        append_str(&mut t, "Revision: ");
        push_dec(&mut t, self.revision as u64);
        append_str(&mut t, "\n");
        append_str(&mut t, "Cartridge Type: ");
        append_str(&mut t, snes_cartridge_text(self.cartridge_type));
        append_str(&mut t, " (0x");
        push_hex_padded(&mut t, self.cartridge_type as u64, 2);
        append_str(&mut t, ")\n");
        append_str(&mut t, "ROM Speed: ");
        if self.rom_speed == 1 {
            append_str(&mut t, "FastROM (3.58 MHz)");
        } else {
            append_str(&mut t, "SlowROM (2.68 MHz)");
        }
        append_str(&mut t, "\n");
        append_str(&mut t, "Map Mode: ");
        append_str(&mut t, snes_map_mode_text(self.map_mode));
        append_str(&mut t, "\n");
        append_str(&mut t, "ROM Size:  ");
        append_str(&mut t, rom_size_text);
        append_str(&mut t, "\n");
        append_str(&mut t, "File Size: ");
        append_str(&mut t, file_size_text);
        append_str(&mut t, "\n");
        push_checksum(&mut t, self.stored_checksum as u64, self.calculated_checksum as u64, 4);
        append_str(&mut t, "\n");
        push_sha1(&mut t, &self.rom_sha1);
        append_str(&mut t, "\n");
        let with_trainer: u64 = if self.rom_size <= u64::MAX - 512 {
            self.rom_size + 512
        } else {
            0
        };
        if with_trainer == self.file_size {
            append_str(&mut t, "Possible Trainer Detected (512 extra bytes in file)\n");
        }
        let trimmed_matches = match self.trimmed_checksum {
            Some(c) => c == self.stored_checksum,
            None => false,
        };
        if self.unique_rom_bytes.is_some() && trimmed_matches {
            append_str(&mut t, "Overdump Detected: file contains ");
            append_str(&mut t, unique_bits_text);
            append_str(&mut t, " of unique ROM data (");
            append_str(&mut t, file_bits_text);
            append_str(&mut t, " file)\n");
        }
        assert(t@ =~= snes_report(*self, rom_size_text@, file_size_text@, unique_bits_text@, file_bits_text@));
        string_from_chars(&t)
    }
}

/// The DAT region of a SNES header's region byte: 0x00 Japan, 0x01 USA,
/// 0x02 Europe, 0x03 Sweden, 0x04 Finland, 0x05 Denmark, 0x06 France,
/// 0x07 Netherlands, 0x08 Spain, 0x09 Germany, 0x0A Italy, 0x0B and 0x0C
/// Asia, 0x0D Korea, 0x0F World; any other byte has no DAT region.
pub proof fn law_snes_region_names(region: u8)
    ensures
        region == 0x00 ==> spec_snes_region_dat(region) == Some("Japan"@),
        region == 0x01 ==> spec_snes_region_dat(region) == Some("USA"@),
        region == 0x02 ==> spec_snes_region_dat(region) == Some("Europe"@),
        region == 0x03 ==> spec_snes_region_dat(region) == Some("Sweden"@),
        region == 0x04 ==> spec_snes_region_dat(region) == Some("Finland"@),
        region == 0x05 ==> spec_snes_region_dat(region) == Some("Denmark"@),
        region == 0x06 ==> spec_snes_region_dat(region) == Some("France"@),
        region == 0x07 ==> spec_snes_region_dat(region) == Some("Netherlands"@),
        region == 0x08 ==> spec_snes_region_dat(region) == Some("Spain"@),
        region == 0x09 ==> spec_snes_region_dat(region) == Some("Germany"@),
        region == 0x0A ==> spec_snes_region_dat(region) == Some("Italy"@),
        region == 0x0B || region == 0x0C ==> spec_snes_region_dat(region) == Some("Asia"@),
        region == 0x0D ==> spec_snes_region_dat(region) == Some("Korea"@),
        region == 0x0F ==> spec_snes_region_dat(region) == Some("World"@),
        region == 0x0E || region > 0x0F ==> spec_snes_region_dat(region) is None,
{
}

} // verus!
