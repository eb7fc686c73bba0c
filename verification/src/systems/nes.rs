//! NES (iNES / NES 2.0) cartridge images.

pub mod analysis;
pub mod console_type;
pub mod file_type;
pub mod mapper;
pub mod mirror_type;
pub mod timing;

use crate::bits::{pow2_u16, pow2n, lemma_pow2n_bound};
use crate::ext::{compute_sha1, crc32, spec_crc32, spec_sha1};
use crate::traits::{meta_is_empty, DatMeta, ParseError, RomHash, RomInfo};
use crate::report::{dec_padded, hex_padded, push_dec, push_dec_padded, push_hex_padded, push_sha1, sha1_text};
use crate::text::{append_chars, append_str, spec_decimal};
use analysis::{
    analyze, opt_bytes, spec_analysis_warnings, spec_chr_unique, spec_prg_unique, spec_warning_text, AnalysisWarning, NesAnalysis,
};
use console_type::{spec_console_type, ConsoleType};
use file_type::{parse_file_type, spec_file_type, FileType};
use mapper::{spec_mapper_from_number, Mapper};
use mirror_type::{spec_mirror_type, MirrorType};
use timing::{spec_timing, Timing};
use vstd::prelude::*;

verus! {

/// Information read from an NES image header and its ROM data.
pub struct NesRomInfo {
    pub file_type: FileType,
    /// PRG ROM size in 16 KiB units.
    pub prg_rom_size: u16,
    /// CHR ROM size in 8 KiB units; `None` when the board has no CHR ROM.
    pub chr_rom_size: Option<u16>,
    pub prg_ram_size: u32,
    pub prg_nvram_size: u32,
    pub chr_ram_size: u32,
    pub chr_nvram_size: u32,
    pub mirror_type: MirrorType,
    pub console_type: ConsoleType,
    pub battery_present: bool,
    pub trainer_present: bool,
    pub hard_wired_four_screen_mode: bool,
    pub mapper: Mapper,
    pub submapper_number: u8,
    pub ppu_type: u16,
    pub hardware_type: u16,
    pub number_of_misc_roms: u8,
    /// Raw default expansion device byte (header byte 15).
    pub default_expansion_device: u8,
    pub timing: Timing,
    pub rom_sha1: [u8; 20],
    pub prg_crc32: u32,
    pub chr_crc32: Option<u32>,
    pub analysis: NesAnalysis,
}

/// NES 2.0 exponent-multiplier sizes panic on overflow; a plain 12-bit value never does.
pub open spec fn u12_defined(hi: u8, lo: u8) -> bool {
    hi != 0x0F || (lo / 4 < 16 && pow2n((lo / 4) as nat) * (2 * (lo % 4) + 1) <= 0xFFFF)
}

/// A 12-bit size from a high nibble and low byte; high nibble 0xF selects
/// the exponent-multiplier form `2^(lo >> 2) * ((lo & 3) * 2 + 1)`.
pub open spec fn spec_char_to_u12(hi: u8, lo: u8) -> u16 {
    if hi == 0x0F {
        (pow2n((lo / 4) as nat) * (2 * (lo % 4) + 1)) as u16
    } else {
        ((hi % 16) as int * 256 + lo as int) as u16
    }
}

pub fn char_to_u12(hi: u8, lo: u8) -> (r: u16)
    requires
        u12_defined(hi, lo),
    ensures
        r == spec_char_to_u12(hi, lo),
{
    if hi == 0x0F {
        let m: u16 = (lo % 4) as u16;
        let e: u8 = lo / 4;
        let p = pow2_u16(e);
        p * (m * 2 + 1)
    } else {
        ((hi % 16) as u16) * 256 + (lo as u16)
    }
}

/// NES 2.0 RAM size from a shift count: 0, or `64 << count`.
pub open spec fn spec_nes20_ram_size(shift_count: u8) -> u32 {
    if shift_count == 0 {
        0
    } else {
        (64 * pow2n(shift_count as nat)) as u32
    }
}

pub fn nes20_ram_size(shift_count: u8) -> (r: u32)
    requires
        shift_count < 16,
    ensures
        r == spec_nes20_ram_size(shift_count),
{
    if shift_count == 0 {
        0
    } else {
        let p = pow2_u16(shift_count);
        64 * (p as u32)
    }
}

/// Bit `pos` of `value`.
pub open spec fn bit(value: u8, pos: nat) -> bool {
    (value as nat / pow2n(pos)) % 2 == 1
}

fn check_bit_flag(pos: u8, value: u8) -> (r: bool)
    requires
        pos < 8,
    ensures
        r == bit(value, pos as nat),
{
    let p = pow2_u16(pos);
    proof {
        lemma_pow2n_bound(pos as nat);
    }
    ((value as u16) / p) % 2 == 1
}

pub open spec fn nes_is20(b: Seq<u8>) -> bool {
    spec_file_type(b) == Ok::<FileType, ParseError>(FileType::NES20)
}

pub open spec fn nes_mapper_lo(b: Seq<u8>) -> u8 {
    (b[6] / 16 + (b[7] / 16) * 16) as u8
}

pub open spec fn nes_prg_units(b: Seq<u8>) -> u16 {
    if nes_is20(b) {
        spec_char_to_u12(b[9] % 16, b[4])
    } else {
        b[4] as u16
    }
}

pub open spec fn nes_chr_units(b: Seq<u8>) -> u16 {
    if nes_is20(b) {
        spec_char_to_u12(b[9] / 16, b[5])
    } else {
        b[5] as u16
    }
}

/// Inputs on which parsing is defined: the sizes and the mapper number it
/// decodes must not overflow.
pub open spec fn nes_parse_defined(b: Seq<u8>) -> bool {
    b.len() <= 16 || spec_file_type(b) is Err || (u12_defined(b[8], nes_mapper_lo(b)) && (nes_is20(
        b,
    ) ==> u12_defined(b[9] % 16, b[4]) && u12_defined(b[9] / 16, b[5])))
}

pub open spec fn nes_prg_offset(b: Seq<u8>) -> int {
    16 + if bit(b[6], 2) {
        512int
    } else {
        0int
    }
}

pub open spec fn min_int(a: int, b: int) -> int {
    if a <= b {
        a
    } else {
        b
    }
}

pub open spec fn nes_chr_offset(b: Seq<u8>) -> int {
    min_int(nes_prg_offset(b) + 16384 * nes_prg_units(b), b.len() as int)
}

pub open spec fn nes_chr_end(b: Seq<u8>) -> int {
    min_int(
        nes_chr_offset(b) + if nes_chr_units(b) != 0 {
            8192 * nes_chr_units(b)
        } else {
            0
        },
        b.len() as int,
    )
}

/// The PRG ROM bytes present in the file.
pub open spec fn nes_prg_data(b: Seq<u8>) -> Seq<u8> {
    if nes_prg_offset(b) < b.len() {
        b.subrange(nes_prg_offset(b), nes_chr_offset(b))
    } else {
        Seq::empty()
    }
}

/// The CHR ROM bytes present in the file, when the header declares CHR ROM.
pub open spec fn nes_chr_data(b: Seq<u8>) -> Option<Seq<u8>> {
    if nes_chr_units(b) != 0 && nes_chr_offset(b) < b.len() {
        Some(b.subrange(nes_chr_offset(b), nes_chr_end(b)))
    } else {
        None
    }
}

/// What a successful parse reads from the buffer.
pub open spec fn nes_info_matches(b: Seq<u8>, info: NesRomInfo) -> bool {
    let is20 = nes_is20(b);
    &&& Ok::<FileType, ParseError>(info.file_type) == spec_file_type(b)
    &&& info.prg_rom_size == nes_prg_units(b)
    &&& info.chr_rom_size == if nes_chr_units(b) != 0 {
        Some(nes_chr_units(b))
    } else {
        None
    }
    &&& info.prg_ram_size == if is20 {
        spec_nes20_ram_size(b[10] % 16)
    } else if b[8] > 0 {
        (b[8] as int * 8192) as u32
    } else {
        0
    }
    &&& info.prg_nvram_size == if is20 {
        spec_nes20_ram_size(b[10] / 16)
    } else {
        0
    }
    &&& info.chr_ram_size == if is20 {
        spec_nes20_ram_size(b[11] % 16)
    } else {
        0
    }
    &&& info.chr_nvram_size == if is20 {
        spec_nes20_ram_size(b[11] / 16)
    } else {
        0
    }
    &&& info.mirror_type == spec_mirror_type(b[6])
    &&& info.console_type == spec_console_type(b[7])
    &&& info.battery_present == bit(b[6], 1)
    &&& info.trainer_present == bit(b[6], 2)
    &&& info.hard_wired_four_screen_mode == bit(b[6], 3)
    &&& info.timing == spec_timing(b[12])
    &&& info.default_expansion_device == b[15]
    &&& info.mapper == spec_mapper_from_number(spec_char_to_u12(b[8], nes_mapper_lo(b)))
    &&& info.submapper_number == if is20 {
        b[8] / 16
    } else {
        0
    }
    &&& info.ppu_type == if is20 {
        (b[13] % 16) as u16
    } else {
        0
    }
    &&& info.hardware_type == if is20 {
        (b[13] / 16) as u16
    } else {
        0
    }
    &&& info.number_of_misc_roms == if is20 {
        b[14] % 4
    } else {
        0
    }
    &&& info.rom_sha1@ == spec_sha1(b.skip(16))
    &&& info.prg_crc32 == if nes_prg_offset(b) < b.len() {
        spec_crc32(nes_prg_data(b))
    } else {
        0
    }
    &&& info.chr_crc32 == match nes_chr_data(b) {
        Some(c) => Some(spec_crc32(c)),
        None => None,
    }
    &&& info.analysis.prg_unique_bytes == spec_prg_unique(nes_prg_data(b))
    &&& info.analysis.chr_unique_bytes == spec_chr_unique(nes_chr_data(b))
    &&& info.analysis.warnings@ == spec_analysis_warnings(
        nes_prg_data(b),
        nes_chr_data(b),
        info.mapper,
    )
}

/// The error a parse fails with, when it fails.
pub open spec fn nes_parse_error(b: Seq<u8>) -> Option<ParseError> {
    if b.len() <= 16 {
        Some(ParseError::BufferTooSmall)
    } else {
        match spec_file_type(b) {
            Err(e) => Some(e),
            Ok(_) => None,
        }
    }
}

impl NesRomInfo {
    /// Parse an NES image: header fields, CRC-32 of the PRG and CHR data
    /// present, and the overdump/board analysis.
    #[verifier::rlimit(40)]
    pub fn try_from(buffer: &[u8]) -> (r: Result<NesRomInfo, ParseError>)
        requires
            nes_parse_defined(buffer@),
        ensures
            match r {
                Ok(info) => nes_parse_error(buffer@) is None && nes_info_matches(buffer@, info),
                Err(e) => nes_parse_error(buffer@) == Some(e),
            },
    {
        if buffer.len() <= 16 {
            return Err(ParseError::BufferTooSmall);
        }
        let file_type = match parse_file_type(buffer) {
            Ok(t) => t,
            Err(e) => return Err(e),
        };
        let len = buffer.len();
        let rest = &buffer[16..len];
        assert(rest@ =~= buffer@.skip(16));
        let rom_sha1 = compute_sha1(rest);
        let is_nes20 = match file_type {
            FileType::NES20 => true,
            _ => false,
        };
        let trainer_present = check_bit_flag(2, buffer[6]);
        let prg_rom_size = if is_nes20 {
            char_to_u12(buffer[9] % 16, buffer[4])
        } else {
            buffer[4] as u16
        };
        let chr_units = if is_nes20 {
            char_to_u12(buffer[9] / 16, buffer[5])
        } else {
            buffer[5] as u16
        };
        let chr_rom_size = if chr_units != 0 {
            Some(chr_units)
        } else {
            None
        };
        let prg_offset: usize = 16 + if trainer_present {
            512
        } else {
            0
        };
        let prg_bytes: usize = 16384 * (prg_rom_size as usize);
        let chr_offset = if prg_offset + prg_bytes <= len {
            prg_offset + prg_bytes
        } else {
            len
        };
        let chr_bytes: usize = if chr_units != 0 {
            8192 * (chr_units as usize)
        } else {
            0
        };
        let chr_end = if chr_offset + chr_bytes <= len {
            chr_offset + chr_bytes
        } else {
            len
        };
        let prg_data: &[u8] = if prg_offset < len {
            &buffer[prg_offset..chr_offset]
        } else {
            &buffer[0..0]
        };
        assert(prg_data@ =~= nes_prg_data(buffer@));
        let prg_crc32 = if prg_offset < len {
            crc32(prg_data)
        } else {
            0
        };
        let chr_data: Option<&[u8]> = if chr_units != 0 && chr_offset < len {
            Some(&buffer[chr_offset..chr_end])
        } else {
            None
        };
        assert(opt_bytes(chr_data) =~= nes_chr_data(buffer@));
        let chr_crc32 = match chr_data {
            Some(c) => Some(crc32(c)),
            None => None,
        };
        let mapper_number = char_to_u12(buffer[8], buffer[6] / 16 + (buffer[7] / 16) * 16);
        let mapper = Mapper::from_number(mapper_number);
        let rom_analysis = analyze(prg_data, chr_data, &mapper);
        Ok(NesRomInfo {
            file_type,
            prg_rom_size,
            chr_rom_size,
            prg_ram_size: if is_nes20 {
                nes20_ram_size(buffer[10] % 16)
            } else if buffer[8] > 0 {
                buffer[8] as u32 * 8192
            } else {
                0
            },
            prg_nvram_size: if is_nes20 {
                nes20_ram_size(buffer[10] / 16)
            } else {
                0
            },
            chr_ram_size: if is_nes20 {
                nes20_ram_size(buffer[11] % 16)
            } else {
                0
            },
            chr_nvram_size: if is_nes20 {
                nes20_ram_size(buffer[11] / 16)
            } else {
                0
            },
            mirror_type: MirrorType::from_byte(buffer[6]),
            console_type: ConsoleType::from_byte(buffer[7]),
            battery_present: check_bit_flag(1, buffer[6]),
            trainer_present,
            hard_wired_four_screen_mode: check_bit_flag(3, buffer[6]),
            timing: Timing::from_byte(buffer[12]),
            default_expansion_device: buffer[15],
            mapper,
            submapper_number: if is_nes20 {
                buffer[8] / 16
            } else {
                0
            },
            ppu_type: if is_nes20 {
                (buffer[13] % 16) as u16
            } else {
                0
            },
            hardware_type: if is_nes20 {
                (buffer[13] / 16) as u16
            } else {
                0
            },
            number_of_misc_roms: if is_nes20 {
                buffer[14] % 4
            } else {
                0
            },
            rom_sha1,
            prg_crc32,
            chr_crc32,
            analysis: rom_analysis,
        })
    }
}

/// Sizes in bytes of the ROM areas an NES header declares.
pub trait NesHeader {
    fn prg_rom_bytes(&self) -> usize;

    fn chr_rom_bytes(&self) -> Option<usize>;
}

impl NesHeader for NesRomInfo {
    fn prg_rom_bytes(&self) -> (r: usize)
        ensures
            r == 16384 * self.prg_rom_size,
    {
        16384 * (self.prg_rom_size as usize)
    }

    fn chr_rom_bytes(&self) -> (r: Option<usize>)
        ensures
            r == match self.chr_rom_size {
                Some(v) => Some((8192 * v) as usize),
                None => None::<usize>,
            },
    {
        match self.chr_rom_size {
            Some(v) => Some(8192 * (v as usize)),
            None => None,
        }
    }
}

impl RomInfo for NesRomInfo {
    fn console(&self) -> (r: &'static str)
        ensures
            r@ == "Nintendo Entertainment System (NES)"@,
    {
        "Nintendo Entertainment System (NES)"
    }

    fn dat_meta(&self) -> (r: DatMeta)
        ensures
            meta_is_empty(r),
    {
        DatMeta::empty()
    }
}

impl RomHash for NesRomInfo {
    fn sha1(&self) -> (r: [u8; 20])
        ensures
            r == self.rom_sha1,
    {
        self.rom_sha1
    }
}

fn u12_is_defined(hi: u8, lo: u8) -> (r: bool)
    ensures
        r == u12_defined(hi, lo),
{
    if hi != 0x0F {
        return true;
    }
    let e = lo / 4;
    if e >= 16 {
        return false;
    }
    let p = pow2_u16(e) as u32;
    let m = (lo % 4) as u32;
    assert(p * (2 * m + 1) <= 65535 * 7) by (nonlinear_arith)
        requires
            p <= 65535,
            m <= 3,
    ;
    p * (2 * m + 1) <= 0xFFFF
}

/// Whether parsing the buffer as an NES ROM is defined.
pub fn nes_parse_is_defined(buffer: &[u8]) -> (r: bool)
    ensures
        r == nes_parse_defined(buffer@),
{
    if buffer.len() <= 16 {
        return true;
    }
    match parse_file_type(buffer) {
        Err(_) => true,
        Ok(ft) => {
            let lo: u8 = (buffer[6] / 16 + (buffer[7] / 16) * 16) as u8;
            u12_is_defined(buffer[8], lo) && (ft != FileType::NES20 || (u12_is_defined(
                buffer[9] % 16,
                buffer[4],
            ) && u12_is_defined(buffer[9] / 16, buffer[5])))
        },
    }
}

// ---------------------------------------------------------------------------
// Report
// ---------------------------------------------------------------------------

/// A RAM size field of the report, when the size is not zero.
pub open spec fn nes_ram_field(head: Seq<char>, size: u32) -> Seq<char> {
    if size > 0 {
        head + dec_padded((size / 1024) as nat, 3) + "kb"@
    } else {
        Seq::empty()
    }
}

/// The file-type line, for images with a header.
pub open spec fn nes_file_type_piece(i: NesRomInfo) -> Seq<char> {
    if i.file_type != FileType::Raw {
        "File Type: "@ + i.file_type.name_text() + "\n"@
    } else {
        Seq::empty()
    }
}

/// The mapper and submapper fields.
pub open spec fn nes_mapper_piece(i: NesRomInfo, mapper_text: Seq<char>) -> Seq<char> {
    (if i.mapper != Mapper::Unrecognized {
        "Mapper: "@ + mapper_text
    } else {
        Seq::empty()
    }) + (if i.submapper_number != 0 {
        " (submapper "@ + spec_decimal(i.submapper_number as nat) + ")"@
    } else {
        Seq::empty()
    })
}

/// The PRG-ROM and CHR-ROM size and CRC fields.
pub open spec fn nes_rom_piece(i: NesRomInfo) -> Seq<char> {
    "\nPRG-ROM: "@ + dec_padded((16 * i.prg_rom_size) as nat, 3) + "kb\tCRC32: "@ + hex_padded(
        i.prg_crc32 as nat,
        8,
    ) + match i.chr_rom_size {
        Some(c) => "\nCHR-ROM: "@ + dec_padded((8 * c) as nat, 3) + "kb\tCRC32: "@ + hex_padded(
            match i.chr_crc32 {
                Some(x) => x as nat,
                None => 0,
            },
            8,
        ),
        None => Seq::empty(),
    }
}

/// The first part of an NES report: file type, console, mapper and sizes.
pub open spec fn nes_report_head(i: NesRomInfo, mapper_text: Seq<char>) -> Seq<char> {
    nes_file_type_piece(i) + "Console Type: "@ + i.console_type.name_text() + "\tTiming: "@
        + i.timing.name_text() + "\n"@ + nes_mapper_piece(i, mapper_text) + nes_rom_piece(i)
        + nes_ram_field("\tPRG-RAM: "@, i.prg_ram_size) + nes_ram_field("\tPRG-NVRAM: "@, i.prg_nvram_size)
        + nes_ram_field("\tCHR-RAM: "@, i.chr_ram_size) + nes_ram_field("\tCHR-NVRAM: "@, i.chr_nvram_size)
}

/// The battery and trainer notes.
pub open spec fn nes_flags_piece(i: NesRomInfo) -> Seq<char> {
    (if i.battery_present {
        "\n\t* Battery backup"@
    } else {
        Seq::empty()
    }) + (if i.trainer_present {
        "\n\t* Trainer present"@
    } else {
        Seq::empty()
    })
}

/// The Vs. System fields.
pub open spec fn nes_vs_piece(i: NesRomInfo) -> Seq<char> {
    if i.console_type == ConsoleType::VsSystem {
        (if i.ppu_type != 0 {
            "\nVs. PPU Type: "@ + spec_decimal(i.ppu_type as nat)
        } else {
            Seq::empty()
        }) + (if i.hardware_type != 0 {
            "\nVs. Hardware Type: "@ + spec_decimal(i.hardware_type as nat)
        } else {
            Seq::empty()
        })
    } else {
        Seq::empty()
    }
}

/// The misc-ROM and expansion-device fields.
pub open spec fn nes_extra_piece(i: NesRomInfo, expansion_text: Seq<char>) -> Seq<char> {
    (if i.number_of_misc_roms > 0 {
        "\nMiscellaneous ROMs: "@ + spec_decimal(i.number_of_misc_roms as nat)
    } else {
        Seq::empty()
    }) + (if i.default_expansion_device != 0 {
        "\nDefault Expansion Device: "@ + expansion_text
    } else {
        Seq::empty()
    })
}

/// The middle part of an NES report: battery, trainer, mirroring and the
/// Vs. System, misc-ROM and expansion-device fields.
pub open spec fn nes_report_mid(i: NesRomInfo, expansion_text: Seq<char>) -> Seq<char> {
    nes_flags_piece(i) + "\nMirror Type: "@ + i.mirror_type.name_text() + nes_vs_piece(i)
        + nes_extra_piece(i, expansion_text)
}

/// One warning line of the report.
pub open spec fn nes_warning_line(w: AnalysisWarning) -> Seq<char> {
    "\n\t* "@ + spec_warning_text(w)
}

/// The warning lines of the report, in order.
pub open spec fn nes_warning_lines(ws: Seq<AnalysisWarning>) -> Seq<char>
    decreases ws.len(),
{
    if ws.len() == 0 {
        Seq::empty()
    } else {
        nes_warning_lines(ws.drop_last()) + nes_warning_line(ws.last())
    }
}

/// The overdump notes of the report.
pub open spec fn nes_overdump_lines(i: NesRomInfo) -> Seq<char> {
    (match i.analysis.prg_unique_bytes {
        Some(u) => "\n\t* PRG ROM appears overdumped: "@ + spec_decimal((16 * i.prg_rom_size) as nat)
            + "kb declared, likely "@ + spec_decimal((u / 1024) as nat) + "kb unique data"@,
        None => Seq::empty(),
    }) + match i.analysis.chr_unique_bytes {
        Some(u) => "\n\t* CHR ROM appears overdumped: "@ + spec_decimal(
            match i.chr_rom_size {
                Some(c) => (8 * c) as nat,
                None => 0,
            },
        ) + "kb declared, likely "@ + spec_decimal((u / 1024) as nat) + "kb unique data"@,
        None => Seq::empty(),
    }
}

/// The last part of an NES report: digest, overdump notes and warnings.
pub open spec fn nes_report_tail(i: NesRomInfo) -> Seq<char> {
    "\n"@ + sha1_text(i.rom_sha1@) + nes_overdump_lines(i) + nes_warning_lines(i.analysis.warnings@)
}

/// The report of an NES image, given the names of its mapper and default
/// expansion device (no final line break).
pub open spec fn nes_report(i: NesRomInfo, mapper_text: Seq<char>, expansion_text: Seq<char>) -> Seq<char> {
    nes_report_head(i, mapper_text) + nes_report_mid(i, expansion_text) + nes_report_tail(i)
}

fn push_ram_field(out: &mut Vec<char>, head: &str, size: u32)
    ensures
        final(out)@ == old(out)@ + nes_ram_field(head@, size),
{
    let mut t: Vec<char> = Vec::new();
    if size > 0 {
        append_str(&mut t, head);
        push_dec_padded(&mut t, (size / 1024) as u64, 3);
        append_str(&mut t, "kb");
    }
    assert(t@ =~= nes_ram_field(head@, size));
    append_chars(out, &t);
}

fn push_file_type_piece(out: &mut Vec<char>, i: &NesRomInfo)
    ensures
        final(out)@ == old(out)@ + nes_file_type_piece(*i),
{
    let mut t: Vec<char> = Vec::new();
    if i.file_type != FileType::Raw {
        append_str(&mut t, "File Type: ");
        append_str(&mut t, i.file_type.name());
        append_str(&mut t, "\n");
    }
    assert(t@ =~= nes_file_type_piece(*i));
    append_chars(out, &t);
}

fn push_mapper_piece(out: &mut Vec<char>, i: &NesRomInfo, mapper_text: &str)
    ensures
        final(out)@ == old(out)@ + nes_mapper_piece(*i, mapper_text@),
{
    let mut t: Vec<char> = Vec::new();
    let unrecognized = match i.mapper {
        Mapper::Unrecognized => true,
        _ => false,
    };
    if !unrecognized {
        append_str(&mut t, "Mapper: ");
        append_str(&mut t, mapper_text);
    }
    if i.submapper_number != 0 {
        append_str(&mut t, " (submapper ");
        push_dec(&mut t, i.submapper_number as u64);
        append_str(&mut t, ")");
    }
    assert(t@ =~= nes_mapper_piece(*i, mapper_text@));
    append_chars(out, &t);
}

fn push_rom_piece(out: &mut Vec<char>, i: &NesRomInfo)
    ensures
        final(out)@ == old(out)@ + nes_rom_piece(*i),
{
    let mut t: Vec<char> = Vec::new();
    append_str(&mut t, "\nPRG-ROM: ");
    push_dec_padded(&mut t, 16 * (i.prg_rom_size as u64), 3);
    append_str(&mut t, "kb\tCRC32: ");
    push_hex_padded(&mut t, i.prg_crc32 as u64, 8);
    if let Some(c) = i.chr_rom_size {
        append_str(&mut t, "\nCHR-ROM: ");
        push_dec_padded(&mut t, 8 * (c as u64), 3);
        append_str(&mut t, "kb\tCRC32: ");
        let crc = match i.chr_crc32 {
            Some(x) => x,
            None => 0,
        };
        push_hex_padded(&mut t, crc as u64, 8);
    }
    assert(t@ =~= nes_rom_piece(*i));
    append_chars(out, &t);
}

fn push_nes_head(out: &mut Vec<char>, i: &NesRomInfo, mapper_text: &str)
    ensures
        final(out)@ == old(out)@ + nes_report_head(*i, mapper_text@),
{
    let mut t: Vec<char> = Vec::new();
    push_file_type_piece(&mut t, i);
    append_str(&mut t, "Console Type: ");
    append_str(&mut t, i.console_type.name());
    append_str(&mut t, "\tTiming: ");
    append_str(&mut t, i.timing.name());
    append_str(&mut t, "\n");
    push_mapper_piece(&mut t, i, mapper_text);
    push_rom_piece(&mut t, i);
    push_ram_field(&mut t, "\tPRG-RAM: ", i.prg_ram_size);
    push_ram_field(&mut t, "\tPRG-NVRAM: ", i.prg_nvram_size);
    push_ram_field(&mut t, "\tCHR-RAM: ", i.chr_ram_size);
    push_ram_field(&mut t, "\tCHR-NVRAM: ", i.chr_nvram_size);
    assert(t@ =~= nes_report_head(*i, mapper_text@));
    append_chars(out, &t);
}

fn push_flags_piece(out: &mut Vec<char>, i: &NesRomInfo)
    ensures
        final(out)@ == old(out)@ + nes_flags_piece(*i),
{
    let mut t: Vec<char> = Vec::new();
    if i.battery_present {
        append_str(&mut t, "\n\t* Battery backup");
    }
    if i.trainer_present {
        append_str(&mut t, "\n\t* Trainer present");
    }
    assert(t@ =~= nes_flags_piece(*i));
    append_chars(out, &t);
}

fn push_vs_piece(out: &mut Vec<char>, i: &NesRomInfo)
    ensures
        final(out)@ == old(out)@ + nes_vs_piece(*i),
{
    let mut t: Vec<char> = Vec::new();
    if i.console_type == ConsoleType::VsSystem {
        if i.ppu_type != 0 {
            append_str(&mut t, "\nVs. PPU Type: ");
            push_dec(&mut t, i.ppu_type as u64);
        }
        if i.hardware_type != 0 {
            append_str(&mut t, "\nVs. Hardware Type: ");
            push_dec(&mut t, i.hardware_type as u64);
        }
    }
    assert(t@ =~= nes_vs_piece(*i));
    append_chars(out, &t);
}

fn push_extra_piece(out: &mut Vec<char>, i: &NesRomInfo, expansion_text: &str)
    ensures
        final(out)@ == old(out)@ + nes_extra_piece(*i, expansion_text@),
{
    let mut t: Vec<char> = Vec::new();
    if i.number_of_misc_roms > 0 {
        append_str(&mut t, "\nMiscellaneous ROMs: ");
        push_dec(&mut t, i.number_of_misc_roms as u64);
    }
    if i.default_expansion_device != 0 {
        append_str(&mut t, "\nDefault Expansion Device: ");
        append_str(&mut t, expansion_text);
    }
    assert(t@ =~= nes_extra_piece(*i, expansion_text@));
    append_chars(out, &t);
}

fn push_nes_mid(out: &mut Vec<char>, i: &NesRomInfo, expansion_text: &str)
    ensures
        final(out)@ == old(out)@ + nes_report_mid(*i, expansion_text@),
{
    let mut t: Vec<char> = Vec::new();
    push_flags_piece(&mut t, i);
    append_str(&mut t, "\nMirror Type: ");
    append_str(&mut t, i.mirror_type.name());
    push_vs_piece(&mut t, i);
    push_extra_piece(&mut t, i, expansion_text);
    assert(t@ =~= nes_report_mid(*i, expansion_text@));
    append_chars(out, &t);
}

fn push_nes_overdump(out: &mut Vec<char>, i: &NesRomInfo)
    ensures
        final(out)@ == old(out)@ + nes_overdump_lines(*i),
{
    let mut t: Vec<char> = Vec::new();
    if let Some(u) = i.analysis.prg_unique_bytes {
        append_str(&mut t, "\n\t* PRG ROM appears overdumped: ");
        push_dec(&mut t, 16 * (i.prg_rom_size as u64));
        append_str(&mut t, "kb declared, likely ");
        push_dec(&mut t, (u / 1024) as u64);
        append_str(&mut t, "kb unique data");
    }
    let ghost first = t@;
    if let Some(u) = i.analysis.chr_unique_bytes {
        append_str(&mut t, "\n\t* CHR ROM appears overdumped: ");
        let declared: u64 = match i.chr_rom_size {
            Some(c) => 8 * (c as u64),
            None => 0,
        };
        push_dec(&mut t, declared);
        append_str(&mut t, "kb declared, likely ");
        push_dec(&mut t, (u / 1024) as u64);
        append_str(&mut t, "kb unique data");
    }
    assert(t@ =~= first + (match i.analysis.chr_unique_bytes {
        Some(u) => "\n\t* CHR ROM appears overdumped: "@ + spec_decimal(
            match i.chr_rom_size {
                Some(c) => (8 * c) as nat,
                None => 0,
            },
        ) + "kb declared, likely "@ + spec_decimal((u / 1024) as nat) + "kb unique data"@,
        None => Seq::<char>::empty(),
    }));
    assert(t@ =~= nes_overdump_lines(*i));
    append_chars(out, &t);
}

fn push_warning_lines(out: &mut Vec<char>, ws: &Vec<AnalysisWarning>)
    ensures
        final(out)@ == old(out)@ + nes_warning_lines(ws@),
{
    let ghost head = out@;
    let mut k: usize = 0;
    while k < ws.len()
        invariant
            k <= ws.len(),
            out@ == head + nes_warning_lines(ws@.take(k as int)),
        decreases ws.len() - k,
    {
        assert(ws@.take(k + 1).drop_last() =~= ws@.take(k as int));
        let mut t: Vec<char> = Vec::new();
        append_str(&mut t, "\n\t* ");
        let d = ws[k].describe();
        append_str(&mut t, d.as_str());
        assert(t@ =~= nes_warning_line(ws@[k as int]));
        append_chars(out, &t);
        k += 1;
        assert(out@ =~= head + nes_warning_lines(ws@.take(k as int)));
    }
    assert(ws@.take(k as int) =~= ws@);
}

fn push_nes_tail(out: &mut Vec<char>, i: &NesRomInfo)
    ensures
        final(out)@ == old(out)@ + nes_report_tail(*i),
{
    let mut t: Vec<char> = Vec::new();
    append_str(&mut t, "\n");
    push_sha1(&mut t, &i.rom_sha1);
    push_nes_overdump(&mut t, i);
    push_warning_lines(&mut t, &i.analysis.warnings);
    assert(t@ =~= nes_report_tail(*i));
    append_chars(out, &t);
}

impl NesRomInfo {
    /// The report the inspector prints for the image, given the names of
    /// its mapper and default expansion device (no final line break).
    pub fn describe(&self, mapper_text: &str, expansion_text: &str) -> (r: String)
        ensures
            r@ == nes_report(*self, mapper_text@, expansion_text@),
    {
        let mut t: Vec<char> = Vec::new();
        push_nes_head(&mut t, self, mapper_text);
        push_nes_mid(&mut t, self, expansion_text);
        push_nes_tail(&mut t, self);
        assert(t@ =~= nes_report(*self, mapper_text@, expansion_text@));
        crate::ext::string_from_chars(&t)
    }
}

/// NES 2.0 RAM sizes are `64 << c` bytes for a non-zero shift count `c`
/// (so `c = 7` is 8 KiB) and absent for 0: the PRG-RAM count is the low
/// nibble of byte 10, PRG-NVRAM its high nibble, and likewise byte 11 for
/// CHR-RAM and CHR-NVRAM.
pub proof fn law_nes20_ram_sizes(b: Seq<u8>, info: NesRomInfo)
    requires
        nes_info_matches(b, info),
        nes_is20(b),
    ensures
        info.prg_ram_size == (if b[10] % 16 == 0 { 0 } else { 64 * pow2n((b[10] % 16) as nat) }),
        info.prg_nvram_size == (if b[10] / 16 == 0 { 0 } else { 64 * pow2n((b[10] / 16) as nat) }),
        info.chr_ram_size == (if b[11] % 16 == 0 { 0 } else { 64 * pow2n((b[11] % 16) as nat) }),
        info.chr_nvram_size == (if b[11] / 16 == 0 { 0 } else { 64 * pow2n((b[11] / 16) as nat) }),
{
    lemma_pow2n_bound((b[10] % 16) as nat);
    lemma_pow2n_bound((b[10] / 16) as nat);
    lemma_pow2n_bound((b[11] % 16) as nat);
    lemma_pow2n_bound((b[11] / 16) as nat);
}

} // verus!
