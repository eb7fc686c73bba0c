//! Virtual Boy cartridges: the header sits 0x220 bytes before the end.

use crate::bits::{is_pow2, spec_is_pow2};
use crate::ext::{compute_sha1, spec_sha1};
use crate::systems::helpers::{
    dat_revision, decode_header_text, nintendo_region_dat, non_empty, spec_dat_revision,
    spec_header_text, spec_nintendo_region_dat, spec_non_empty, spec_utf8_serial, utf8_serial,
};
use crate::traits::{opt_view, DatMeta, ParseError, RomHash, RomInfo, Title};
use crate::ext::{spec_utf8_lossy, utf8_lossy};
use crate::report::{maker_code_line, push_dec, push_maker_code_line, push_sha1, push_title_line, sha1_text, title_line};
use crate::systems::helpers::{nintendo_region_display, spec_nintendo_region_display};
use crate::text::{append_chars, append_str, spec_decimal};
use vstd::prelude::*;

verus! {

/// A parsed Virtual Boy header.
pub struct VirtualBoyRomInfo {
    pub title: String,
    pub game_code: [u8; 4],
    pub maker_code: [u8; 2],
    pub version: u8,
    pub rom_sha1: [u8; 20],
}

/// An ASCII upper-case letter or digit.
pub open spec fn is_upper_alnum(b: u8) -> bool {
    (0x41 <= b <= 0x5A) || (0x30 <= b <= 0x39)
}

fn upper_alnum(b: u8) -> (r: bool)
    ensures
        r == is_upper_alnum(b),
{
    (0x41 <= b && b <= 0x5A) || (0x30 <= b && b <= 0x39)
}

/// The header title, decoded as cartridge header text.
pub open spec fn vb_title(h: Seq<u8>) -> Seq<char> {
    spec_header_text(h.subrange(0, 0x14))
}

/// Some character of the title is printable ASCII or a space.
pub open spec fn vb_title_printable(t: Seq<char>) -> bool {
    exists|i: int| 0 <= i < t.len() && ' ' <= #[trigger] t[i] <= '~'
}

/// The header bytes of an image.
pub open spec fn vb_header(b: Seq<u8>) -> Seq<u8> {
    b.subrange(b.len() - 0x220, b.len() - 0x220 + 32)
}

/// The error a parse fails with, when it fails.
pub open spec fn vb_parse_error(b: Seq<u8>) -> Option<ParseError> {
    if !(0x20000 <= b.len() <= 0x200000) || !spec_is_pow2(b.len()) {
        Some(ParseError::BufferTooSmall)
    } else {
        let h = vb_header(b);
        if exists|i: int| 0x14 <= i < 0x19 && #[trigger] h[i] != 0 {
            Some(ParseError::InvalidHeader)
        } else if !is_upper_alnum(h[0x19]) || !is_upper_alnum(h[0x1A]) {
            Some(ParseError::InvalidHeader)
        } else if !(forall|i: int| 0x1B <= i < 0x1F ==> #[trigger] is_upper_alnum(h[i])) {
            Some(ParseError::InvalidHeader)
        } else if !vb_title_printable(vb_title(h)) {
            Some(ParseError::InvalidHeader)
        } else {
            None
        }
    }
}

/// What a successful parse reads from the buffer.
pub open spec fn vb_info_matches(b: Seq<u8>, info: VirtualBoyRomInfo) -> bool {
    let h = vb_header(b);
    &&& info.title@ == vb_title(h)
    &&& info.game_code@ == h.subrange(0x1B, 0x1F)
    &&& info.maker_code@ == h.subrange(0x19, 0x1B)
    &&& info.version == h[0x1F]
    &&& info.rom_sha1@ == spec_sha1(b)
}

pub fn decode_title(buffer: &[u8]) -> (r: String)
    ensures
        r@ == spec_header_text(buffer@),
{
    decode_header_text(buffer)
}

impl VirtualBoyRomInfo {
    /// Parse a Virtual Boy image: size checks, the header's reserved bytes,
    /// maker and game codes, and a title with printable text.
    pub fn try_from(buffer: &[u8]) -> (r: Result<VirtualBoyRomInfo, ParseError>)
        ensures
            match r {
                Ok(info) => vb_parse_error(buffer@) is None && vb_info_matches(buffer@, info),
                Err(e) => vb_parse_error(buffer@) == Some(e),
            },
    {
        let len = buffer.len();
        if !(0x20000 <= len && len <= 0x200000) || !is_pow2(len as u64) {
            return Err(ParseError::BufferTooSmall);
        }
        let header_offset = len - 0x220;
        let header = &buffer[header_offset..header_offset + 32];
        let ghost h = vb_header(buffer@);
        assert(header@ =~= h);
        let mut i: usize = 0x14;
        while i < 0x19
            invariant
                header@ == h,
                h == vb_header(buffer@),
                0x20000 <= buffer@.len() <= 0x200000,
                spec_is_pow2(buffer@.len()),
                header.len() == 32,
                0x14 <= i <= 0x19,
                forall|j: int| 0x14 <= j < i ==> h[j] == 0,
            decreases 0x19 - i,
        {
            if header[i] != 0 {
                assert(h[i as int] != 0);
                return Err(ParseError::InvalidHeader);
            }
            i += 1;
        }
        if !upper_alnum(header[0x19]) || !upper_alnum(header[0x1A]) {
            return Err(ParseError::InvalidHeader);
        }
        let mut k: usize = 0x1B;
        while k < 0x1F
            invariant
                header@ == h,
                h == vb_header(buffer@),
                0x20000 <= buffer@.len() <= 0x200000,
                spec_is_pow2(buffer@.len()),
                forall|j: int| 0x14 <= j < 0x19 ==> h[j] == 0,
                is_upper_alnum(h[0x19]) && is_upper_alnum(h[0x1A]),
                header.len() == 32,
                0x1B <= k <= 0x1F,
                forall|j: int| 0x1B <= j < k ==> #[trigger] is_upper_alnum(h[j]),
            decreases 0x1F - k,
        {
            if !upper_alnum(header[k]) {
                assert(!is_upper_alnum(h[k as int]));
                return Err(ParseError::InvalidHeader);
            }
            k += 1;
        }
        let title_bytes = &header[0..0x14];
        assert(title_bytes@ =~= h.subrange(0, 0x14));
        let title = decode_title(title_bytes);
        let tc = crate::text::chars_of(title.as_str());
        let mut printable = false;
        let mut t: usize = 0;
        while t < tc.len() && !printable
            invariant
                t <= tc.len(),
                printable ==> vb_title_printable(tc@),
                !printable ==> forall|j: int| 0 <= j < t ==> !(' ' <= #[trigger] tc@[j] <= '~'),
            decreases tc.len() - t + if printable { 0int } else { 1int },
        {
            if ' ' <= tc[t] && tc[t] <= '~' {
                printable = true;
            } else {
                t += 1;
            }
        }
        if !printable {
            return Err(ParseError::InvalidHeader);
        }
        let rom_sha1 = compute_sha1(buffer);
        let game_code: [u8; 4] = [header[0x1B], header[0x1C], header[0x1D], header[0x1E]];
        assert(game_code@ =~= h.subrange(0x1B, 0x1F));
        let maker_code: [u8; 2] = [header[0x19], header[0x1A]];
        assert(maker_code@ =~= h.subrange(0x19, 0x1B));
        Ok(VirtualBoyRomInfo { title, game_code, maker_code, version: header[0x1F], rom_sha1 })
    }
}

impl RomInfo for VirtualBoyRomInfo {
    fn console(&self) -> (r: &'static str)
        ensures
            r@ == "Virtual Boy"@,
    {
        "Virtual Boy"
    }

    fn dat_meta(&self) -> (r: DatMeta)
        ensures
            opt_view(r.title) == spec_non_empty(self.title@),
            opt_view(r.region) == spec_nintendo_region_dat(self.game_code@[3]),
            opt_view(r.version) == spec_dat_revision(self.version),
            opt_view(r.serial) == spec_utf8_serial(self.game_code@),
            opt_view(r.machine_id) == spec_utf8_serial(self.game_code@),
            r.date is None,
            r.manufacturer is None,
    {
        DatMeta {
            title: non_empty(self.title.as_str()),
            region: nintendo_region_dat(self.game_code[3]),
            version: dat_revision(self.version),
            date: None,
            manufacturer: None,
            serial: utf8_serial(self.game_code.as_slice()),
            machine_id: utf8_serial(self.game_code.as_slice()),
        }
    }
}

impl RomHash for VirtualBoyRomInfo {
    fn sha1(&self) -> (r: [u8; 20])
        ensures
            r@ == self.rom_sha1@,
    {
        self.rom_sha1
    }
}

impl Title for VirtualBoyRomInfo {
    fn title(&self) -> (r: &str)
        ensures
            r@ == self.title@,
    {
        self.title.as_str()
    }
}

// ---------------------------------------------------------------------------
// Report
// ---------------------------------------------------------------------------

/// The report of a Virtual Boy cartridge, given the maker's name where its
/// code is known.
pub open spec fn vb_report(i: VirtualBoyRomInfo, maker: Option<Seq<char>>) -> Seq<char> {
    title_line(i.title@) + "Game Code: "@ + spec_utf8_lossy(i.game_code@) + "\n"@ + "Region: "@
        + spec_nintendo_region_display(i.game_code@[3]) + "\n"@ + (if i.version != 0 {
        "Version: "@ + spec_decimal(i.version as nat) + "\n"@
    } else {
        Seq::empty()
    }) + maker_code_line(maker, i.maker_code@) + sha1_text(i.rom_sha1@) + "\n"@
}

impl VirtualBoyRomInfo {
    /// The report the inspector prints for the cartridge, given the maker's
    /// name where its code is known.
    pub fn describe(&self, maker: Option<&str>) -> (r: String)
        ensures
            r@ == vb_report(
                *self,
                match maker {
                Some(m) => Some(m@),
                None => None,
            },
            ),
    {
        let mut t: Vec<char> = Vec::new();
        push_title_line(&mut t, self.title.as_str());
        append_str(&mut t, "Game Code: ");
        let code = utf8_lossy(self.game_code.as_slice());
        append_chars(&mut t, &code);
        append_str(&mut t, "\n");
        append_str(&mut t, "Region: ");
        append_str(&mut t, nintendo_region_display(self.game_code[3]));
        append_str(&mut t, "\n");
        if self.version != 0 {
            append_str(&mut t, "Version: ");
            push_dec(&mut t, self.version as u64);
            append_str(&mut t, "\n");
        }
        push_maker_code_line(&mut t, maker, self.maker_code.as_slice());
        push_sha1(&mut t, &self.rom_sha1);
        append_str(&mut t, "\n");
        assert(t@ =~= vb_report(
            *self,
            match maker {
                Some(m) => Some(m@),
                None => None,
            },
        ));
        crate::ext::string_from_chars(&t)
    }
}

} // verus!
