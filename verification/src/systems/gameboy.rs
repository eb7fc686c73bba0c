//! Game Boy and Game Boy Color cartridges.

use crate::bytes::{read_u16_be, spec_u16_be};
use crate::ext::{compute_sha1, spec_sha1, spec_utf8_lossy, string_from_chars, utf8_lossy};
use crate::report::{checksum_text, hex_padded, push_checksum, push_dec, push_hex_padded, push_sha1, push_title_line, sha1_text, title_line};
use crate::systems::helpers::{
    dat_revision, non_empty, read_null_padded_string, spec_dat_revision, spec_non_empty,
    spec_null_padded,
};
use crate::systems::snes::detection::{lemma_sum_nat_bound, sum16, sum16_prefix, sum_nat};
use crate::text::{append_chars, append_str, spec_decimal, str_eq};
use crate::traits::{opt_view, DatMeta, ParseError, RomHash, RomInfo, StoredChecksum, Title};
use vstd::prelude::*;

verus! {

/// Smallest buffer that holds the whole cartridge header.
pub const MIN_GB_ROM_SIZE: usize = 0x0150;

/// The ROM size of header code `code` (byte 0x148): 32 KiB doubled `code`
/// times for codes 0-8, and 72, 80 or 96 banks of 16 KiB for 0x52-0x54.
pub open spec fn spec_rom_size_bytes(code: u8) -> Option<u64> {
    if code <= 8 {
        Some((0x8000 * crate::bits::pow2n(code as nat)) as u64)
    } else if code == 0x52 {
        Some((72 * 0x4000) as u64)
    } else if code == 0x53 {
        Some((80 * 0x4000) as u64)
    } else if code == 0x54 {
        Some((96 * 0x4000) as u64)
    } else {
        None
    }
}

pub fn rom_size_bytes(code: u8) -> (r: Option<u64>)
    ensures
        r == spec_rom_size_bytes(code),
{
    if code <= 8 {
        let p = crate::bits::pow2_u16(code);
        Some(0x8000u64 * (p as u64))
    } else if code == 0x52 {
        Some(72 * 0x4000)
    } else if code == 0x53 {
        Some(80 * 0x4000)
    } else if code == 0x54 {
        Some(96 * 0x4000)
    } else {
        None
    }
}

/// The RAM size of header code `code` (byte 0x149), a lookup in which code
/// 5 (64 KiB) is smaller than code 4 (128 KiB).
pub open spec fn spec_ram_size_bytes(code: u8) -> Option<u64> {
    if code == 0 {
        Some(0)
    } else if code == 2 {
        Some((8 * 1024) as u64)
    } else if code == 3 {
        Some((32 * 1024) as u64)
    } else if code == 4 {
        Some((128 * 1024) as u64)
    } else if code == 5 {
        Some((64 * 1024) as u64)
    } else {
        None
    }
}

pub fn ram_size_bytes(code: u8) -> (r: Option<u64>)
    ensures
        r == spec_ram_size_bytes(code),
{
    match code {
        0 => Some(0),
        2 => Some(8 * 1024),
        3 => Some(32 * 1024),
        4 => Some(128 * 1024),
        5 => Some(64 * 1024),
        _ => None,
    }
}

/// A parsed Game Boy cartridge header.
pub struct GameboyInfo {
    pub stored_checksum: u16,
    pub calculated_checksum: u16,
    pub stored_header_checksum: u8,
    pub calculated_header_checksum: u8,
    pub title: String,
    pub rom_size_code: u8,
    pub ram_size_code: u8,
    pub sgb_support: String,
    pub cgb_support: String,
    pub region: String,
    pub cartridge_type: u8,
    pub old_licensee_code: u8,
    pub new_licensee_code: [u8; 2],
    pub mask_rom_version: u8,
    pub buffer_len: usize,
    pub rom_sha1: [u8; 20],
}

/// The header checksum: 0xE7 minus the bytes 0x134-0x14C, modulo 256.
pub open spec fn gb_header_checksum(b: Seq<u8>) -> u8 {
    ((0xE7 - sum_nat(b.subrange(0x134, 0x14D))) % 256) as u8
}

/// The Nintendo logo at 0x104-0x133 starts with 0xCE and its 48 bytes sum to 0x1546.
pub open spec fn gb_logo_ok(b: Seq<u8>) -> bool {
    b[0x104] == 0xCE && sum_nat(b.subrange(0x104, 0x134)) == 0x1546
}

/// A Game Boy image: a whole header, the logo, and a matching header checksum.
pub open spec fn spec_is_gb_rom(b: Seq<u8>) -> bool {
    b.len() >= 0x150 && gb_logo_ok(b) && gb_header_checksum(b) == b[0x14D]
}

/// A Game Boy Color image: a Game Boy image whose CGB flag is 0x80 or 0xC0.
pub open spec fn spec_is_gbc_rom(b: Seq<u8>) -> bool {
    spec_is_gb_rom(b) && (b[0x143] == 0x80 || b[0x143] == 0xC0)
}

fn byte_sum(b: &[u8], lo: usize, hi: usize) -> (r: u64)
    requires
        lo <= hi <= b.len(),
        hi - lo <= 0x10000,
    ensures
        r == sum_nat(b@.subrange(lo as int, hi as int)),
{
    let mut acc: u64 = 0;
    let mut i = lo;
    while i < hi
        invariant
            lo <= i <= hi <= b.len(),
            hi - lo <= 0x10000,
            acc == sum_nat(b@.subrange(lo as int, i as int)),
        decreases hi - i,
    {
        proof {
            lemma_sum_nat_bound(b@.subrange(lo as int, i as int));
            assert(b@.subrange(lo as int, i + 1).drop_last() =~= b@.subrange(lo as int, i as int));
        }
        acc = acc + b[i] as u64;
        i += 1;
    }
    acc
}

fn verify_logo(buffer: &[u8]) -> (r: bool)
    requires
        buffer.len() >= 0x150,
    ensures
        r == gb_logo_ok(buffer@),
{
    if buffer[0x104] != 0xCE {
        return false;
    }
    byte_sum(buffer, 0x104, 0x134) == 0x1546
}

/// 0xE7 minus the bytes of `b[lo..hi]`, modulo 256: the header checksum
/// of Game Boy and Game Boy Advance cartridges.
pub open spec fn spec_sub_checksum(b: Seq<u8>, lo: int, hi: int) -> u8 {
    ((0xE7 - sum_nat(b.subrange(lo, hi))) % 256) as u8
}

pub fn sub_checksum(buffer: &[u8], lo: usize, hi: usize) -> (r: u8)
    requires
        lo <= hi <= buffer.len(),
    ensures
        r == spec_sub_checksum(buffer@, lo as int, hi as int),
{
    let mut acc: u8 = 0xE7;
    let mut i: usize = lo;
    while i < hi
        invariant
            lo <= i <= hi <= buffer.len(),
            acc as int == (0xE7 - sum_nat(buffer@.subrange(lo as int, i as int))) % 256,
        decreases hi - i,
    {
        let ghost before = sum_nat(buffer@.subrange(lo as int, i as int));
        assert(buffer@.subrange(lo as int, i + 1).drop_last() =~= buffer@.subrange(lo as int, i as int));
        assert(sum_nat(buffer@.subrange(lo as int, i + 1)) == before + buffer@[i as int]);
        let x = buffer[i];
        acc = acc.wrapping_sub(x);
        proof {
            lemma_sub_mod(0xE7 - before, x as int);
        }
        i += 1;
    }
    acc
}

fn header_checksum(buffer: &[u8]) -> (r: u8)
    requires
        buffer.len() >= 0x150,
    ensures
        r == gb_header_checksum(buffer@),
{
    sub_checksum(buffer, 0x134, 0x14D)
}

proof fn lemma_sub_mod(a: int, x: int)
    ensures
        ((a % 256) - x) % 256 == (a - x) % 256,
{
    vstd::arithmetic::div_mod::lemma_sub_mod_noop(a, x, 256);
    vstd::arithmetic::div_mod::lemma_mod_twice(x, 256);
    vstd::arithmetic::div_mod::lemma_mod_bound(x, 256);
    assert(((a % 256) - x) % 256 == ((a % 256) - x % 256) % 256) by {
        vstd::arithmetic::div_mod::lemma_sub_mod_noop(a % 256, x, 256);
        vstd::arithmetic::div_mod::lemma_mod_twice(a, 256);
    }
}

/// Whether the buffer holds a Game Boy cartridge header.
pub fn is_gb_rom(buffer: &[u8]) -> (r: bool)
    ensures
        r == spec_is_gb_rom(buffer@),
{
    if buffer.len() < MIN_GB_ROM_SIZE {
        return false;
    }
    verify_logo(buffer) && header_checksum(buffer) == buffer[0x14D]
}

/// Whether the buffer holds a Game Boy Color cartridge header.
pub fn is_gbc_rom(buffer: &[u8]) -> (r: bool)
    ensures
        r == spec_is_gbc_rom(buffer@),
{
    is_gb_rom(buffer) && (buffer[0x143] == 0x80 || buffer[0x143] == 0xC0)
}

/// The global checksum computed over the image: the sum of all bytes except
/// the two that store it, modulo 65536.
pub open spec fn gb_global_checksum(b: Seq<u8>) -> u16 {
    ((sum16(b) as int - b[0x14E] as int - b[0x14F] as int) % 0x10000) as u16
}

/// The Super Game Boy support text of flag byte 0x146.
pub open spec fn gb_sgb_text(flag: u8) -> Seq<char> {
    if flag == 3 {
        "Yes"@
    } else {
        "No"@
    }
}

/// The Game Boy Color support text of flag byte 0x143.
pub open spec fn gb_cgb_text(flag: u8) -> Seq<char> {
    if flag == 0x80 {
        "Yes (Compatible with GB and GBC)"@
    } else if flag == 0xC0 {
        "Yes (GBC Exclusive)"@
    } else {
        "No"@
    }
}

/// The region text of destination code byte 0x14A.
pub open spec fn gb_region_text(code: u8) -> Seq<char> {
    if code == 0 {
        "Japan"@
    } else if code == 1 {
        "Non-Japanese"@
    } else {
        "Unknown"@
    }
}

/// What a successful parse reads from the buffer.
pub open spec fn gb_info_matches(b: Seq<u8>, info: GameboyInfo) -> bool {
    &&& info.stored_checksum == spec_u16_be(b, 0x14E)
    &&& info.calculated_checksum == gb_global_checksum(b)
    &&& info.stored_header_checksum == b[0x14D]
    &&& info.calculated_header_checksum == gb_header_checksum(b)
    &&& info.title@ == spec_null_padded(b.subrange(0x134, 0x143))
    &&& info.rom_size_code == b[0x148]
    &&& info.ram_size_code == b[0x149]
    &&& info.sgb_support@ == gb_sgb_text(b[0x146])
    &&& info.cgb_support@ == gb_cgb_text(b[0x143])
    &&& info.region@ == gb_region_text(b[0x14A])
    &&& info.cartridge_type == b[0x147]
    &&& info.old_licensee_code == b[0x14B]
    &&& info.new_licensee_code@ == b.subrange(0x144, 0x146)
    &&& info.mask_rom_version == b[0x14C]
    &&& info.buffer_len == b.len()
    &&& info.rom_sha1@ == spec_sha1(b)
}

impl GameboyInfo {
    /// Parse a Game Boy cartridge header, with both checksums and the SHA-1.
    pub fn try_from(buffer: &[u8]) -> (r: Result<GameboyInfo, ParseError>)
        ensures
            match r {
                Ok(info) => spec_is_gb_rom(buffer@) && gb_info_matches(buffer@, info),
                Err(e) => !spec_is_gb_rom(buffer@) && e == ParseError::MagicNotFound,
            },
    {
        if !is_gb_rom(buffer) {
            return Err(ParseError::MagicNotFound);
        }
        let rom_sha1 = compute_sha1(buffer);
        let calculated_header_checksum = header_checksum(buffer);
        let stored_header_checksum = buffer[0x14D];
        let sgb_support = if buffer[0x146] == 3 {
            "Yes"
        } else {
            "No"
        };
        let cgb_flag = buffer[0x143];
        let cgb_support = if cgb_flag == 0x80 {
            "Yes (Compatible with GB and GBC)"
        } else if cgb_flag == 0xC0 {
            "Yes (GBC Exclusive)"
        } else {
            "No"
        };
        let title_bytes = &buffer[0x134..0x143];
        assert(title_bytes@ =~= buffer@.subrange(0x134, 0x143));
        let title = read_null_padded_string(title_bytes);
        let destination_code = buffer[0x14A];
        let region = if destination_code == 0 {
            "Japan"
        } else if destination_code == 1 {
            "Non-Japanese"
        } else {
            "Unknown"
        };
        let stored_checksum = read_u16_be(buffer, 0x14E);
        let total = sum16_prefix(buffer, buffer.len());
        assert(buffer@.take(buffer.len() as int) =~= buffer@);
        let calculated_checksum = total.wrapping_sub(buffer[0x14E] as u16).wrapping_sub(
            buffer[0x14F] as u16,
        );
        let new_licensee_code: [u8; 2] = [buffer[0x144], buffer[0x145]];
        assert(new_licensee_code@ =~= buffer@.subrange(0x144, 0x146));
        Ok(
            GameboyInfo {
                stored_checksum,
                calculated_checksum,
                stored_header_checksum,
                calculated_header_checksum,
                title,
                rom_size_code: buffer[0x148],
                ram_size_code: buffer[0x149],
                sgb_support: String::from_str(sgb_support),
                cgb_support: String::from_str(cgb_support),
                region: String::from_str(region),
                cartridge_type: buffer[0x147],
                old_licensee_code: buffer[0x14B],
                new_licensee_code,
                mask_rom_version: buffer[0x14C],
                buffer_len: buffer.len(),
                rom_sha1,
            },
        )
    }
}

impl RomInfo for GameboyInfo {
    fn console(&self) -> (r: &'static str)
        ensures
            r@ == "Game Boy"@,
    {
        "Game Boy"
    }

    fn dat_meta(&self) -> (r: DatMeta)
        ensures
            opt_view(r.title) == spec_non_empty(self.title@),
            opt_view(r.region) == if self.region@ == "Japan"@ {
                Some("Japan"@)
            } else {
                None
            },
            opt_view(r.version) == spec_dat_revision(self.mask_rom_version),
            r.date is None,
            r.manufacturer is None,
            r.serial is None,
            r.machine_id is None,
    {
        let region = if str_eq(self.region.as_str(), "Japan") {
            Some(String::from_str("Japan"))
        } else {
            None
        };
        DatMeta {
            title: non_empty(self.title.as_str()),
            region,
            version: dat_revision(self.mask_rom_version),
            date: None,
            manufacturer: None,
            serial: None,
            machine_id: None,
        }
    }
}

impl StoredChecksum<u16> for GameboyInfo {
    fn stored_checksum(&self) -> (r: u16)
        ensures
            r == self.stored_checksum,
    {
        self.stored_checksum
    }

    fn calculated_checksum(&self) -> (r: u16)
        ensures
            r == self.calculated_checksum,
    {
        self.calculated_checksum
    }

    fn checksum_matches(&self) -> (r: bool)
        ensures
            r == (self.stored_checksum == self.calculated_checksum),
    {
        self.stored_checksum == self.calculated_checksum
    }
}

impl RomHash for GameboyInfo {
    fn sha1(&self) -> (r: [u8; 20])
        ensures
            r@ == self.rom_sha1@,
    {
        self.rom_sha1
    }
}

impl Title for GameboyInfo {
    fn title(&self) -> (r: &str)
        ensures
            r@ == self.title@,
    {
        self.title.as_str()
    }
}

// ---------------------------------------------------------------------------
// Report
// ---------------------------------------------------------------------------

/// The cartridge type a type byte names.
pub open spec fn gb_cartridge_name(c: u8) -> Seq<char> {
    if c == 0x00 {
        "ROM ONLY"@
    } else if c == 0x01 {
        "MBC1"@
    } else if c == 0x02 {
        "MBC1+RAM"@
    } else if c == 0x03 {
        "MBC1+RAM+BATTERY"@
    } else if c == 0x05 {
        "MBC2"@
    } else if c == 0x06 {
        "MBC2+BATTERY"@
    } else if c == 0x08 {
        "ROM+RAM"@
    } else if c == 0x09 {
        "ROM+RAM+BATTERY"@
    } else if c == 0x0B {
        "MMM01"@
    } else if c == 0x0C {
        "MMM01+RAM"@
    } else if c == 0x0D {
        "MMM01+RAM+BATTERY"@
    } else if c == 0x0F {
        "MBC3+TIMER+BATTERY"@
    } else if c == 0x10 {
        "MBC3+TIMER+RAM+BATTERY"@
    } else if c == 0x11 {
        "MBC3"@
    } else if c == 0x12 {
        "MBC3+RAM"@
    } else if c == 0x13 {
        "MBC3+RAM+BATTERY"@
    } else if c == 0x19 {
        "MBC5"@
    } else if c == 0x1A {
        "MBC5+RAM"@
    } else if c == 0x1B {
        "MBC5+RAM+BATTERY"@
    } else if c == 0x1C {
        "MBC5+RUMBLE"@
    } else if c == 0x1D {
        "MBC5+RUMBLE+RAM"@
    } else if c == 0x1E {
        "MBC5+RUMBLE+RAM+BATTERY"@
    } else {
        "Unknown"@
    }
}

fn gb_cartridge_text(c: u8) -> (r: &'static str)
    ensures
        r@ == gb_cartridge_name(c),
{
    if c == 0x00 {
        "ROM ONLY"
    } else if c == 0x01 {
        "MBC1"
    } else if c == 0x02 {
        "MBC1+RAM"
    } else if c == 0x03 {
        "MBC1+RAM+BATTERY"
    } else if c == 0x05 {
        "MBC2"
    } else if c == 0x06 {
        "MBC2+BATTERY"
    } else if c == 0x08 {
        "ROM+RAM"
    } else if c == 0x09 {
        "ROM+RAM+BATTERY"
    } else if c == 0x0B {
        "MMM01"
    } else if c == 0x0C {
        "MMM01+RAM"
    } else if c == 0x0D {
        "MMM01+RAM+BATTERY"
    } else if c == 0x0F {
        "MBC3+TIMER+BATTERY"
    } else if c == 0x10 {
        "MBC3+TIMER+RAM+BATTERY"
    } else if c == 0x11 {
        "MBC3"
    } else if c == 0x12 {
        "MBC3+RAM"
    } else if c == 0x13 {
        "MBC3+RAM+BATTERY"
    } else if c == 0x19 {
        "MBC5"
    } else if c == 0x1A {
        "MBC5+RAM"
    } else if c == 0x1B {
        "MBC5+RAM+BATTERY"
    } else if c == 0x1C {
        "MBC5+RUMBLE"
    } else if c == 0x1D {
        "MBC5+RUMBLE+RAM"
    } else if c == 0x1E {
        "MBC5+RUMBLE+RAM+BATTERY"
    } else {
        "Unknown"
    }
}

/// The maker line: the publisher's name where known, with the licensee code.
pub open spec fn gb_maker_line(i: GameboyInfo, maker: Option<Seq<char>>) -> Seq<char> {
    if i.old_licensee_code == 0x33 {
        let code = spec_utf8_lossy(i.new_licensee_code@);
        match maker {
            Some(name) => "Maker: "@ + name + " (\""@ + code + "\")\n"@,
            None => "Maker: \""@ + code + "\"\n"@,
        }
    } else {
        match maker {
            Some(name) => "Maker: "@ + name + " (0x"@ + hex_padded(i.old_licensee_code as nat, 2) + ")\n"@,
            None => "Maker: 0x"@ + hex_padded(i.old_licensee_code as nat, 2) + "\n"@,
        }
    }
}

/// A size line: the size as text when the code is known, else the code.
pub open spec fn gb_size_line(head: Seq<char>, known: bool, text: Seq<char>, code: u8) -> Seq<char> {
    if known {
        head + text + "\n"@
    } else {
        head + "Unknown (0x"@ + hex_padded(code as nat, 2) + ")\n"@
    }
}

/// The first lines of a Game Boy report: title, region, version, maker,
/// SGB and CGB support and cartridge type.
pub open spec fn gb_report_head(i: GameboyInfo, maker: Option<Seq<char>>) -> Seq<char> {
    title_line(i.title@) + "Region: "@ + i.region@ + "\n"@ + (if i.mask_rom_version != 0 {
        "Version: "@ + spec_decimal(i.mask_rom_version as nat) + "\n"@
    } else {
        Seq::empty()
    }) + gb_maker_line(i, maker) + "Super Game Boy Support: "@ + i.sgb_support@ + "\n"@
        + "Game Boy Color Support: "@ + i.cgb_support@ + "\n"@ + "Cartridge Type: "@
        + gb_cartridge_name(i.cartridge_type) + " (0x"@ + hex_padded(i.cartridge_type as nat, 2)
        + ")\n"@
}

/// The checksum, digest and overdump lines of a Game Boy report.
pub open spec fn gb_report_tail(i: GameboyInfo) -> Seq<char> {
    "Header Checksum: "@ + hex_padded(i.stored_header_checksum as nat, 2) + "\n"@ + (
    if i.stored_header_checksum != i.calculated_header_checksum {
        "Invalid header checksum\n"@
    } else {
        Seq::empty()
    }) + checksum_text(i.stored_checksum as nat, i.calculated_checksum as nat, 4) + "\n"@
        + sha1_text(i.rom_sha1@) + "\n"@ + match spec_rom_size_bytes(i.rom_size_code) {
        Some(b) => if (b as usize) < i.buffer_len {
            "Possible overdump? "@ + spec_decimal((i.buffer_len - (b as usize)) as nat)
                + " extra bytes at end\n"@
        } else {
            Seq::empty()
        },
        None => Seq::empty(),
    }
}

/// The report of a Game Boy cartridge, given the publisher's name (where
/// the licensee code is known) and the ROM and RAM sizes as text.
pub open spec fn gb_report(
    i: GameboyInfo,
    maker: Option<Seq<char>>,
    rom_size_text: Seq<char>,
    ram_size_text: Seq<char>,
) -> Seq<char> {
    gb_report_head(i, maker) + gb_size_line(
        "ROM Size: "@,
        spec_rom_size_bytes(i.rom_size_code) is Some,
        rom_size_text,
        i.rom_size_code,
    ) + gb_size_line(
        "RAM Size: "@,
        spec_ram_size_bytes(i.ram_size_code) is Some,
        ram_size_text,
        i.ram_size_code,
    ) + gb_report_tail(i)
}

fn push_size_line(out: &mut Vec<char>, head: &str, known: bool, text: &str, code: u8)
    ensures
        final(out)@ == old(out)@ + gb_size_line(head@, known, text@, code),
{
    let mut t: Vec<char> = Vec::new();
    append_str(&mut t, head);
    if known {
        append_str(&mut t, text);
        append_str(&mut t, "\n");
    } else {
        append_str(&mut t, "Unknown (0x");
        push_hex_padded(&mut t, code as u64, 2);
        append_str(&mut t, ")\n");
    }
    assert(t@ =~= gb_size_line(head@, known, text@, code));
    append_chars(out, &t);
}

fn push_maker_line(out: &mut Vec<char>, i: &GameboyInfo, maker: Option<&str>)
    ensures
        final(out)@ == old(out)@ + gb_maker_line(
            *i,
            match maker {
                Some(m) => Some(m@),
                None => None,
            },
        ),
{
    let mut t: Vec<char> = Vec::new();
    if i.old_licensee_code == 0x33 {
        let code = utf8_lossy(i.new_licensee_code.as_slice());
        match maker {
            Some(name) => {
                append_str(&mut t, "Maker: ");
                append_str(&mut t, name);
                append_str(&mut t, " (\"");
                append_chars(&mut t, &code);
                append_str(&mut t, "\")\n");
            },
            None => {
                append_str(&mut t, "Maker: \"");
                append_chars(&mut t, &code);
                append_str(&mut t, "\"\n");
            },
        }
    } else {
        match maker {
            Some(name) => {
                append_str(&mut t, "Maker: ");
                append_str(&mut t, name);
                append_str(&mut t, " (0x");
                push_hex_padded(&mut t, i.old_licensee_code as u64, 2);
                append_str(&mut t, ")\n");
            },
            None => {
                append_str(&mut t, "Maker: 0x");
                push_hex_padded(&mut t, i.old_licensee_code as u64, 2);
                append_str(&mut t, "\n");
            },
        }
    }
    assert(t@ =~= gb_maker_line(
        *i,
        match maker {
            Some(m) => Some(m@),
            None => None,
        },
    ));
    append_chars(out, &t);
}

fn push_gb_head(out: &mut Vec<char>, i: &GameboyInfo, maker: Option<&str>)
    ensures
        final(out)@ == old(out)@ + gb_report_head(
            *i,
            match maker {
                Some(m) => Some(m@),
                None => None,
            },
        ),
{
    let mut t: Vec<char> = Vec::new();
    push_title_line(&mut t, i.title.as_str());
    append_str(&mut t, "Region: ");
    append_str(&mut t, i.region.as_str());
    append_str(&mut t, "\n");
    if i.mask_rom_version != 0 {
        append_str(&mut t, "Version: ");
        push_dec(&mut t, i.mask_rom_version as u64);
        append_str(&mut t, "\n");
    }
    push_maker_line(&mut t, i, maker);
    append_str(&mut t, "Super Game Boy Support: ");
    append_str(&mut t, i.sgb_support.as_str());
    append_str(&mut t, "\n");
    append_str(&mut t, "Game Boy Color Support: ");
    append_str(&mut t, i.cgb_support.as_str());
    append_str(&mut t, "\n");
    append_str(&mut t, "Cartridge Type: ");
    append_str(&mut t, gb_cartridge_text(i.cartridge_type));
    append_str(&mut t, " (0x");
    push_hex_padded(&mut t, i.cartridge_type as u64, 2);
    append_str(&mut t, ")\n");
    assert(t@ =~= gb_report_head(
        *i,
        match maker {
            Some(m) => Some(m@),
            None => None,
        },
    ));
    append_chars(out, &t);
}

fn push_gb_tail(out: &mut Vec<char>, i: &GameboyInfo)
    ensures
        final(out)@ == old(out)@ + gb_report_tail(*i),
{
    let mut t: Vec<char> = Vec::new();
    append_str(&mut t, "Header Checksum: ");
    push_hex_padded(&mut t, i.stored_header_checksum as u64, 2);
    append_str(&mut t, "\n");
    if i.stored_header_checksum != i.calculated_header_checksum {
        append_str(&mut t, "Invalid header checksum\n");
    }
    push_checksum(&mut t, i.stored_checksum as u64, i.calculated_checksum as u64, 4);
    append_str(&mut t, "\n");
    push_sha1(&mut t, &i.rom_sha1);
    append_str(&mut t, "\n");
    if let Some(b) = rom_size_bytes(i.rom_size_code) {
        let rom_len = b as usize;
        if rom_len < i.buffer_len {
            append_str(&mut t, "Possible overdump? ");
            push_dec(&mut t, (i.buffer_len - rom_len) as u64);
            append_str(&mut t, " extra bytes at end\n");
        }
    }
    assert(t@ =~= gb_report_tail(*i));
    append_chars(out, &t);
}

impl GameboyInfo {
    /// The report the inspector prints for the cartridge, given the
    /// publisher's name (where the licensee code is known) and the ROM and
    /// RAM sizes as text.
    pub fn describe(&self, maker: Option<&str>, rom_size_text: &str, ram_size_text: &str) -> (r: String)
        ensures
            r@ == gb_report(
                *self,
                match maker {
                    Some(m) => Some(m@),
                    None => None,
                },
                rom_size_text@,
                ram_size_text@,
            ),
    {
        let mut t: Vec<char> = Vec::new();
        push_gb_head(&mut t, self, maker);
        let rom_known = rom_size_bytes(self.rom_size_code).is_some();
        push_size_line(&mut t, "ROM Size: ", rom_known, rom_size_text, self.rom_size_code);
        let ram_known = ram_size_bytes(self.ram_size_code).is_some();
        push_size_line(&mut t, "RAM Size: ", ram_known, ram_size_text, self.ram_size_code);
        push_gb_tail(&mut t, self);
        assert(t@ =~= gb_report(
            *self,
            match maker {
                Some(m) => Some(m@),
                None => None,
            },
            rom_size_text@,
            ram_size_text@,
        ));
        string_from_chars(&t)
    }
}

} // verus!
