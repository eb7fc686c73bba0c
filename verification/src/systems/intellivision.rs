//! Intellivision cartridges: flat images of big-endian 16-bit words holding
//! 10-bit ROM data, with the EXEC header at the start of cartridge ROM.

use crate::ext::{compute_sha1, spec_sha1, string_from_chars};
use crate::text::{append_str, decimal_string, spec_decimal};
use crate::report::{hex_padded, opt_line, push_dec, push_hex_padded, push_opt_line, push_sha1, sha1_text};
use crate::traits::{meta_view, opt_view, DatMeta, ParseError, RomHash, RomInfo};
use vstd::prelude::*;

verus! {

/// Smallest image accepted.
pub const MIN_ROM_SIZE: usize = 2048;

/// Start of cartridge ROM in the Intellivision address space.
pub const CART_ROM_BASE: u16 = 0x5000;

/// End of the always-present cartridge ROM window.
pub const CART_ROM_END: u16 = 0x7FFF;

/// How the EXEC starts the cartridge.
#[derive(Clone, Copy, Debug, PartialEq, Eq, Structural)]
pub enum BootMode {
    /// The EXEC reads the header, shows the title screen and jumps to the
    /// program start.
    Exec,
    /// ROM at 0x4800 or 0x7000 makes the EXEC jump straight into the
    /// cartridge; the header area is ordinary code.
    ExecBypass,
}

/// A parsed Intellivision cartridge.
pub struct IntellivisionInfo {
    pub boot_mode: BootMode,
    pub title: Option<String>,
    pub year: Option<u16>,
    pub program_start: u16,
    pub intv2_compat: bool,
    pub skips_ecs_title: bool,
    pub runs_post_title_code: bool,
    pub size_kb: usize,
    pub rom_sha1: [u8; 20],
}

/// BIDECLE `i`: the low bytes of words `2i` and `2i + 1`, low word first.
pub open spec fn intv_bidecle(b: Seq<u8>, i: int) -> u16 {
    (b[4 * i + 1] as int + b[4 * i + 3] as int * 256) as u16
}

fn decode_bidecle(data: &[u8], index: usize) -> (r: u16)
    requires
        index < 6,
        data.len() >= 24,
    ensures
        r == intv_bidecle(data@, index as int),
{
    let off = index * 4;
    (data[off + 1] as u16) + (data[off + 3] as u16) * 256
}

/// Every high byte of the twelve header words is 0 or 1 (10-bit data).
pub open spec fn intv_header_words_ok(b: Seq<u8>) -> bool {
    forall|i: int| 0 <= i < 12 ==> #[trigger] b[2 * i] <= 1
}

/// Some BIDECLE points into 0x5000-0x7FFF.
pub open spec fn intv_has_cart_pointer(b: Seq<u8>) -> bool {
    exists|i: int| 0 <= i < 6 && 0x5000 <= #[trigger] intv_bidecle(b, i) <= 0x7FFF
}

/// Printable ASCII or space: what a title character may be.
pub open spec fn intv_title_byte(c: u8) -> bool {
    0x20 <= c <= 0x7E
}

/// The title characters in the low bytes of the words from file offset
/// `off` on, up to the first NUL or non-printable byte.
pub open spec fn intv_title_from(b: Seq<u8>, off: int) -> Seq<char>
    decreases b.len() - off,
{
    if 0 <= off && off + 1 < b.len() && intv_title_byte(b[off + 1]) {
        seq![b[off + 1] as char] + intv_title_from(b, off + 2)
    } else {
        Seq::empty()
    }
}

/// The file offset of the title string that BIDECLE 5 points to.
pub open spec fn intv_title_offset(ptr: u16) -> int {
    (ptr - 0x5000) * 2
}

/// The title read from the string at `ptr`, when it is non-empty.
pub open spec fn intv_title(b: Seq<u8>, ptr: u16) -> Option<Seq<char>> {
    let fo = intv_title_offset(ptr);
    if fo + 2 > b.len() || intv_title_from(b, fo + 2).len() == 0 {
        None
    } else {
        Some(intv_title_from(b, fo + 2))
    }
}

/// The year of the string at `ptr`: its first word, 1-99 counted from 1900.
pub open spec fn intv_year(b: Seq<u8>, ptr: u16) -> Option<u16> {
    let fo = intv_title_offset(ptr);
    if fo + 2 > b.len() {
        None
    } else {
        let w = b[fo] as int * 256 + b[fo + 1] as int;
        if 1 <= w <= 99 {
            Some((w + 1900) as u16)
        } else {
            None
        }
    }
}

fn title_chars(buffer: &[u8], start: usize) -> (r: Vec<char>)
    ensures
        r@ == intv_title_from(buffer@, start as int),
{
    let mut out: Vec<char> = Vec::new();
    let mut offset = start;
    let ghost b = buffer@;
    while offset < buffer.len() && buffer.len() - offset > 1 && 0x20 <= buffer[offset + 1]
        && buffer[offset + 1] <= 0x7E
        invariant
            b == buffer@,
            start <= offset,
            (offset - start) % 2 == 0,
            intv_title_from(b, start as int) == out@ + intv_title_from(b, offset as int),
        decreases buffer.len() - offset,
    {
        let c = buffer[offset + 1];
        proof {
            assert(intv_title_from(b, offset as int) == seq![c as char] + intv_title_from(
                b,
                offset + 2,
            ));
        }
        out.push(c as char);
        offset = offset + 2;
        proof {
            assert(intv_title_from(b, start as int) =~= out@ + intv_title_from(b, offset as int));
        }
    }
    proof {
        assert(intv_title_from(b, offset as int) =~= Seq::<char>::empty());
        assert(out@ + Seq::<char>::empty() =~= out@);
    }
    out
}

/// The title and two-digit year of the EXEC title string at ROM address `ptr`.
pub fn extract_title_year(buffer: &[u8], ptr: u16) -> (r: (Option<String>, Option<u16>))
    requires
        ptr >= 0x5000,
    ensures
        opt_view(r.0) == intv_title(buffer@, ptr),
        r.1 == intv_year(buffer@, ptr),
{
    let file_offset = ((ptr - CART_ROM_BASE) as usize) * 2;
    if file_offset + 2 > buffer.len() {
        return (None, None);
    }
    let year_word = (buffer[file_offset] as u16) * 256 + (buffer[file_offset + 1] as u16);
    let year = if 1 <= year_word && year_word <= 99 {
        Some(year_word + 1900)
    } else {
        None
    };
    let chars = title_chars(buffer, file_offset + 2);
    let title = if chars.len() == 0 {
        None
    } else {
        Some(string_from_chars(&chars))
    };
    (title, year)
}


/// What a successful parse reads from the buffer.
pub open spec fn intv_info_matches(b: Seq<u8>, info: IntellivisionInfo) -> bool {
    let program_start = intv_bidecle(b, 2);
    let exec = program_start != 0;
    let ptr = intv_bidecle(b, 5);
    let read_title = exec && ptr >= 0x5000;
    &&& info.program_start == program_start
    &&& info.boot_mode == if exec {
        BootMode::Exec
    } else {
        BootMode::ExecBypass
    }
    &&& opt_view(info.title) == if read_title {
        intv_title(b, ptr)
    } else {
        None
    }
    &&& info.year == if read_title {
        intv_year(b, ptr)
    } else {
        None
    }
    &&& info.intv2_compat == (exec && (b[25] / 64) % 2 == 1)
    &&& info.runs_post_title_code == (exec && b[25] >= 128)
    &&& info.skips_ecs_title == (exec && b[24] % 4 != 0)
    &&& info.size_kb == b.len() / 1024
    &&& info.rom_sha1@ == spec_sha1(b)
}

/// The error a parse fails with, when it fails.
pub open spec fn intv_parse_error(b: Seq<u8>) -> Option<ParseError> {
    if b.len() < 2048 {
        Some(ParseError::BufferTooSmall)
    } else if !intv_header_words_ok(b) || !intv_has_cart_pointer(b) {
        Some(ParseError::MagicNotFound)
    } else {
        None
    }
}

impl IntellivisionInfo {
    /// Parse an Intellivision image: the 10-bit header check, the EXEC
    /// header pointers, the title string and the flags.
    pub fn try_from(buffer: &[u8]) -> (r: Result<IntellivisionInfo, ParseError>)
        ensures
            match r {
                Ok(info) => intv_parse_error(buffer@) is None && intv_info_matches(buffer@, info),
                Err(e) => intv_parse_error(buffer@) == Some(e),
            },
    {
        if buffer.len() < MIN_ROM_SIZE {
            return Err(ParseError::BufferTooSmall);
        }
        let mut i: usize = 0;
        while i < 12
            invariant
                i <= 12,
                buffer.len() >= 2048,
                forall|j: int| 0 <= j < i ==> #[trigger] buffer@[2 * j] <= 1,
            decreases 12 - i,
        {
            if buffer[i * 2] > 1 {
                assert(!intv_header_words_ok(buffer@)) by {
                    assert(buffer@[2 * (i as int)] > 1);
                }
                return Err(ParseError::MagicNotFound);
            }
            i += 1;
        }
        let mut found = false;
        let mut k: usize = 0;
        while k < 6
            invariant
                k <= 6,
                buffer.len() >= 2048,
                found == exists|j: int| 0 <= j < k && 0x5000 <= #[trigger] intv_bidecle(buffer@, j) <= 0x7FFF,
            decreases 6 - k,
        {
            let v = decode_bidecle(buffer, k);
            if CART_ROM_BASE <= v && v <= CART_ROM_END {
                found = true;
            }
            k += 1;
        }
        if !found {
            return Err(ParseError::MagicNotFound);
        }
        let program_start = decode_bidecle(buffer, 2);
        let uses_exec = program_start != 0;
        let title_ptr = decode_bidecle(buffer, 5);
        let (title, year) = if uses_exec && title_ptr >= CART_ROM_BASE {
            extract_title_year(buffer, title_ptr)
        } else {
            (None, None)
        };
        let (boot_mode, intv2_compat, skips_ecs_title, runs_post_title_code) = if uses_exec {
            (BootMode::Exec, (buffer[25] / 64) % 2 == 1, buffer[24] % 4 != 0, buffer[25] >= 128)
        } else {
            (BootMode::ExecBypass, false, false, false)
        };
        let size_kb = buffer.len() / 1024;
        let rom_sha1 = compute_sha1(buffer);
        Ok(
            IntellivisionInfo {
                boot_mode,
                title,
                year,
                program_start,
                intv2_compat,
                skips_ecs_title,
                runs_post_title_code,
                size_kb,
                rom_sha1,
            },
        )
    }
}

impl RomHash for IntellivisionInfo {
    fn sha1(&self) -> (r: [u8; 20])
        ensures
            r@ == self.rom_sha1@,
    {
        self.rom_sha1
    }
}

impl RomInfo for IntellivisionInfo {
    fn console(&self) -> (r: &'static str)
        ensures
            r@ == "Intellivision"@,
    {
        "Intellivision"
    }

    fn dat_meta(&self) -> (r: DatMeta)
        ensures
            meta_view(r) == (
                opt_view(self.title),
                None::<Seq<char>>,
                None::<Seq<char>>,
                match self.year {
                    Some(y) => Some(spec_decimal(y as nat)),
                    None => None::<Seq<char>>,
                },
                None::<Seq<char>>,
                None::<Seq<char>>,
                None::<Seq<char>>,
            ),
    {
        let title = match &self.title {
            Some(t) => Some(t.clone()),
            None => None,
        };
        let date = match self.year {
            Some(y) => Some(decimal_string(y as u64)),
            None => None,
        };
        DatMeta {
            title,
            region: None,
            version: None,
            date,
            manufacturer: None,
            serial: None,
            machine_id: None,
        }
    }
}

// ---------------------------------------------------------------------------
// Report
// ---------------------------------------------------------------------------

/// The year line, when the title screen holds a year.
pub open spec fn intv_year_line(i: IntellivisionInfo) -> Seq<char> {
    match i.year {
        Some(y) => "Year: "@ + spec_decimal(y as nat) + "\n"@,
        None => Seq::empty(),
    }
}

/// The compatibility lines of a cartridge that boots through the EXEC.
pub open spec fn intv_exec_lines(i: IntellivisionInfo) -> Seq<char> {
    if i.boot_mode == BootMode::Exec {
        (if i.intv2_compat {
            "Intellivision 2: Compatible\n"@
        } else {
            "Intellivision 2: Not Compatible\n"@
        }) + (if i.skips_ecs_title {
            "ECS Title Screen: Skipped\n"@
        } else {
            Seq::empty()
        })
    } else {
        Seq::empty()
    }
}

/// The program start line, when there is one.
pub open spec fn intv_start_line(i: IntellivisionInfo) -> Seq<char> {
    if i.program_start != 0 {
        "Program Start: 0x"@ + hex_padded(i.program_start as nat, 4) + "\n"@
    } else {
        Seq::empty()
    }
}

/// The report of an Intellivision cartridge.
pub open spec fn intv_report(i: IntellivisionInfo) -> Seq<char> {
    (match i.boot_mode {
        BootMode::Exec => "Boot: Title Screen (EXEC)\n"@,
        BootMode::ExecBypass => "Boot: Direct (EXEC bypass)\n"@,
    }) + opt_line("Title: "@, opt_view(i.title)) + intv_year_line(i) + intv_exec_lines(i) + "Size: "@
        + spec_decimal(i.size_kb as nat) + " KB\n"@ + intv_start_line(i) + sha1_text(i.rom_sha1@)
        + "\n"@
}

fn push_year_line(out: &mut Vec<char>, i: &IntellivisionInfo)
    ensures
        final(out)@ == old(out)@ + intv_year_line(*i),
{
    let mut t: Vec<char> = Vec::new();
    if let Some(y) = i.year {
        append_str(&mut t, "Year: ");
        push_dec(&mut t, y as u64);
        append_str(&mut t, "\n");
    }
    assert(t@ =~= intv_year_line(*i));
    crate::text::append_chars(out, &t);
}

fn push_exec_lines(out: &mut Vec<char>, i: &IntellivisionInfo)
    ensures
        final(out)@ == old(out)@ + intv_exec_lines(*i),
{
    let mut t: Vec<char> = Vec::new();
    if i.boot_mode == BootMode::Exec {
        if i.intv2_compat {
            append_str(&mut t, "Intellivision 2: Compatible\n");
        } else {
            append_str(&mut t, "Intellivision 2: Not Compatible\n");
        }
        if i.skips_ecs_title {
            append_str(&mut t, "ECS Title Screen: Skipped\n");
        }
    }
    assert(t@ =~= intv_exec_lines(*i));
    crate::text::append_chars(out, &t);
}

fn push_start_line(out: &mut Vec<char>, i: &IntellivisionInfo)
    ensures
        final(out)@ == old(out)@ + intv_start_line(*i),
{
    let mut t: Vec<char> = Vec::new();
    if i.program_start != 0 {
        append_str(&mut t, "Program Start: 0x");
        push_hex_padded(&mut t, i.program_start as u64, 4);
        append_str(&mut t, "\n");
    }
    assert(t@ =~= intv_start_line(*i));
    crate::text::append_chars(out, &t);
}

impl IntellivisionInfo {
    /// The report the inspector prints for the cartridge.
    pub fn describe(&self) -> (r: String)
        ensures
            r@ == intv_report(*self),
    {
        let mut t: Vec<char> = Vec::new();
        match self.boot_mode {
            BootMode::Exec => append_str(&mut t, "Boot: Title Screen (EXEC)\n"),
            BootMode::ExecBypass => append_str(&mut t, "Boot: Direct (EXEC bypass)\n"),
        }
        let title = match &self.title {
            Some(x) => Some(x.as_str()),
            None => None,
        };
        push_opt_line(&mut t, "Title: ", title);
        push_year_line(&mut t, self);
        push_exec_lines(&mut t, self);
        append_str(&mut t, "Size: ");
        push_dec(&mut t, self.size_kb as u64);
        append_str(&mut t, " KB\n");
        push_start_line(&mut t, self);
        push_sha1(&mut t, &self.rom_sha1);
        append_str(&mut t, "\n");
        assert(t@ =~= intv_report(*self));
        string_from_chars(&t)
    }
}

} // verus!
