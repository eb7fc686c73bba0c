//! Game Boy Advance cartridges.

use crate::ext::{compute_sha1, spec_sha1, spec_utf8_lossy, string_from_chars, utf8_lossy};
use crate::systems::gameboy::{spec_sub_checksum, sub_checksum};
use crate::systems::helpers::{
    dat_revision, nintendo_region_dat, non_empty, spec_dat_revision, spec_nintendo_region_dat,
    spec_non_empty, spec_utf8_serial, utf8_serial,
};
use crate::text::{trim_end, trim_end_chars, CharClass};
use crate::traits::{opt_view, DatMeta, ParseError, RomHash, RomInfo, StoredChecksum, Title};
use crate::report::{checksum_text, maker_code_line, push_checksum, push_dec, push_maker_code_line, push_sha1, push_title_line, sha1_text, title_line};
use crate::systems::helpers::{nintendo_region_display, spec_nintendo_region_display};
use crate::text::{append_chars, append_str, spec_decimal};
use vstd::prelude::*;

verus! {

/// Bytes of the cartridge header.
pub const HEADER_SIZE: usize = 0xC0;

/// A parsed GBA cartridge header.
pub struct GbaRomInfo {
    pub title: String,
    pub game_code: [u8; 4],
    pub maker_code: [u8; 2],
    pub version: u8,
    pub stored_checksum: u8,
    pub calced_checksum: u8,
    pub rom_sha1: [u8; 20],
}

/// A GBA header: the fixed byte 0x96 at 0xB2 and a matching header checksum.
pub open spec fn spec_is_gba_rom(b: Seq<u8>) -> bool {
    b.len() >= 0xC0 && b[0xB2] == 0x96 && spec_sub_checksum(b, 0xA0, 0xBD) == b[0xBD]
}

pub fn is_gba_rom(buffer: &[u8]) -> (r: bool)
    ensures
        r == spec_is_gba_rom(buffer@),
{
    if buffer.len() < HEADER_SIZE || buffer[0xB2] != 0x96 {
        return false;
    }
    sub_checksum(buffer, 0xA0, 0xBD) == buffer[0xBD]
}

/// What a successful parse reads from the buffer.
pub open spec fn gba_info_matches(b: Seq<u8>, info: GbaRomInfo) -> bool {
    &&& info.title@ == trim_end(spec_utf8_lossy(b.subrange(0xA0, 0xAC)), CharClass::Nul)
    &&& info.game_code@ == b.subrange(0xAC, 0xB0)
    &&& info.maker_code@ == b.subrange(0xB0, 0xB2)
    &&& info.version == b[0xBC]
    &&& info.stored_checksum == b[0xBD]
    &&& info.calced_checksum == spec_sub_checksum(b, 0xA0, 0xBD)
    &&& info.rom_sha1@ == spec_sha1(b)
}

impl GbaRomInfo {
    /// Parse a GBA cartridge header.
    pub fn try_from(buffer: &[u8]) -> (r: Result<GbaRomInfo, ParseError>)
        ensures
            match r {
                Ok(info) => spec_is_gba_rom(buffer@) && gba_info_matches(buffer@, info),
                Err(e) => !spec_is_gba_rom(buffer@) && e == ParseError::MagicNotFound,
            },
    {
        if !is_gba_rom(buffer) {
            return Err(ParseError::MagicNotFound);
        }
        let rom_sha1 = compute_sha1(buffer);
        let title_bytes = &buffer[0xA0..0xAC];
        assert(title_bytes@ =~= buffer@.subrange(0xA0, 0xAC));
        let title_chars = trim_end_chars(&utf8_lossy(title_bytes), CharClass::Nul);
        let game_code: [u8; 4] = [buffer[0xAC], buffer[0xAD], buffer[0xAE], buffer[0xAF]];
        assert(game_code@ =~= buffer@.subrange(0xAC, 0xB0));
        let maker_code: [u8; 2] = [buffer[0xB0], buffer[0xB1]];
        assert(maker_code@ =~= buffer@.subrange(0xB0, 0xB2));
        Ok(
            GbaRomInfo {
                title: string_from_chars(&title_chars),
                game_code,
                maker_code,
                version: buffer[0xBC],
                stored_checksum: buffer[0xBD],
                calced_checksum: sub_checksum(buffer, 0xA0, 0xBD),
                rom_sha1,
            },
        )
    }
}

impl RomInfo for GbaRomInfo {
    fn console(&self) -> (r: &'static str)
        ensures
            r@ == "Game Boy Advance"@,
    {
        "Game Boy Advance"
    }

    fn dat_meta(&self) -> (r: DatMeta)
        ensures
            opt_view(r.title) == spec_non_empty(self.title@),
            opt_view(r.region) == spec_nintendo_region_dat(self.game_code@[3]),
            opt_view(r.version) == spec_dat_revision(self.version),
            opt_view(r.serial) == spec_utf8_serial(self.game_code@),
            opt_view(r.machine_id) == spec_utf8_serial(self.game_code@),
            r.date is None,
            r.manufacturer is None,
    {
        DatMeta {
            title: non_empty(self.title.as_str()),
            region: nintendo_region_dat(self.game_code[3]),
            version: dat_revision(self.version),
            date: None,
            manufacturer: None,
            serial: utf8_serial(self.game_code.as_slice()),
            machine_id: utf8_serial(self.game_code.as_slice()),
        }
    }
}

impl StoredChecksum<u8> for GbaRomInfo {
    fn stored_checksum(&self) -> (r: u8)
        ensures
            r == self.stored_checksum,
    {
        self.stored_checksum
    }

    fn calculated_checksum(&self) -> (r: u8)
        ensures
            r == self.calced_checksum,
    {
        self.calced_checksum
    }

    fn checksum_matches(&self) -> (r: bool)
        ensures
            r == (self.stored_checksum == self.calced_checksum),
    {
        self.stored_checksum == self.calced_checksum
    }
}

impl RomHash for GbaRomInfo {
    fn sha1(&self) -> (r: [u8; 20])
        ensures
            r@ == self.rom_sha1@,
    {
        self.rom_sha1
    }
}

impl Title for GbaRomInfo {
    fn title(&self) -> (r: &str)
        ensures
            r@ == self.title@,
    {
        self.title.as_str()
    }
}

// ---------------------------------------------------------------------------
// Report
// ---------------------------------------------------------------------------

/// The report of a Game Boy Advance cartridge, given the maker's name where
/// its code is known.
pub open spec fn gba_report(i: GbaRomInfo, maker: Option<Seq<char>>) -> Seq<char> {
    title_line(i.title@) + "Game Code: "@ + spec_utf8_lossy(i.game_code@) + "\n"@ + "Region: "@
        + spec_nintendo_region_display(i.game_code@[3]) + "\n"@ + "Version: "@ + spec_decimal(
        i.version as nat,
    ) + "\n"@ + maker_code_line(maker, i.maker_code@) + checksum_text(
        i.stored_checksum as nat,
        i.calced_checksum as nat,
        2,
    ) + "\n"@ + sha1_text(i.rom_sha1@) + "\n"@
}

impl GbaRomInfo {
    /// The report the inspector prints for the cartridge, given the maker's
    /// name where its code is known.
    pub fn describe(&self, maker: Option<&str>) -> (r: String)
        ensures
            r@ == gba_report(
                *self,
                match maker {
                Some(m) => Some(m@),
                None => None,
            },
            ),
    {
        let mut t: Vec<char> = Vec::new();
        push_title_line(&mut t, self.title.as_str());
        append_str(&mut t, "Game Code: ");
        let code = utf8_lossy(self.game_code.as_slice());
        append_chars(&mut t, &code);
        append_str(&mut t, "\n");
        append_str(&mut t, "Region: ");
        append_str(&mut t, nintendo_region_display(self.game_code[3]));
        append_str(&mut t, "\n");
        append_str(&mut t, "Version: ");
        push_dec(&mut t, self.version as u64);
        append_str(&mut t, "\n");
        push_maker_code_line(&mut t, maker, self.maker_code.as_slice());
        push_checksum(&mut t, self.stored_checksum as u64, self.calced_checksum as u64, 2);
        append_str(&mut t, "\n");
        push_sha1(&mut t, &self.rom_sha1);
        append_str(&mut t, "\n");
        assert(t@ =~= gba_report(
            *self,
            match maker {
                Some(m) => Some(m@),
                None => None,
            },
        ));
        string_from_chars(&t)
    }
}

} // verus!
