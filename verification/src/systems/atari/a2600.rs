//! Atari 2600 cartridges, recognised by their reset vector and the TIA
//! register writes every 2600 program makes.

use crate::ext::{compute_sha1, spec_sha1};
use crate::systems::helpers::{has_tia_write, spec_has_tia_write};
use crate::traits::{meta_is_empty, DatMeta, ParseError, RomHash, RomInfo};
use crate::report::{push_sha1, sha1_text};
use vstd::prelude::*;

verus! {

/// A recognised Atari 2600 image.
pub struct Atari2600Info {
    pub rom_sha1: [u8; 20],
}

/// The 6502 vector ending 2 bytes before `end` points into cartridge ROM
/// (address bit 12 set).
pub open spec fn a2600_vector_ok(b: Seq<u8>, end: int) -> bool {
    (b[end - 3] / 16) % 2 == 1
}

/// A reset vector into cartridge space at the end of the image or at the
/// end of some 4 KiB bank.
pub open spec fn a2600_has_valid_reset(b: Seq<u8>) -> bool {
    a2600_vector_ok(b, b.len() as int) || exists|k: int| 1 <= k && k * 0x1000 <= b.len()
        && #[trigger] a2600_vector_ok(b, k * 0x1000)
}

/// How many of VSYNC, VBLANK, WSYNC and HMOVE are written.
pub open spec fn a2600_tia_count(b: Seq<u8>) -> nat {
    (if spec_has_tia_write(b, 0x00) {
        1nat
    } else {
        0nat
    }) + (if spec_has_tia_write(b, 0x01) {
        1nat
    } else {
        0nat
    }) + (if spec_has_tia_write(b, 0x02) {
        1nat
    } else {
        0nat
    }) + (if spec_has_tia_write(b, 0x2A) {
        1nat
    } else {
        0nat
    })
}

/// The error a parse fails with, when it fails.
pub open spec fn a2600_parse_error(b: Seq<u8>) -> Option<ParseError> {
    if !(0x800 <= b.len() <= 0x20000) {
        Some(ParseError::BufferTooSmall)
    } else if !a2600_has_valid_reset(b) {
        Some(ParseError::MagicNotFound)
    } else if a2600_tia_count(b) < 3 {
        Some(ParseError::MagicNotFound)
    } else {
        None
    }
}

fn count_tia_patterns(buffer: &[u8]) -> (r: u8)
    ensures
        r == a2600_tia_count(buffer@),
{
    let a: u8 = if has_tia_write(buffer, 0x00) {
        1
    } else {
        0
    };
    let b: u8 = if has_tia_write(buffer, 0x01) {
        1
    } else {
        0
    };
    let c: u8 = if has_tia_write(buffer, 0x02) {
        1
    } else {
        0
    };
    let d: u8 = if has_tia_write(buffer, 0x2A) {
        1
    } else {
        0
    };
    a + b + c + d
}

impl Atari2600Info {
    /// Recognise an Atari 2600 image: a size of 2-128 KiB, a reset vector
    /// into cartridge space, and writes to at least three key TIA registers.
    pub fn try_from(buffer: &[u8]) -> (r: Result<Atari2600Info, ParseError>)
        ensures
            match r {
                Ok(info) => a2600_parse_error(buffer@) is None && info.rom_sha1@ == spec_sha1(
                    buffer@,
                ),
                Err(e) => a2600_parse_error(buffer@) == Some(e),
            },
    {
        let len = buffer.len();
        if !(0x800 <= len && len <= 0x20000) {
            return Err(ParseError::BufferTooSmall);
        }
        let mut valid = (buffer[len - 3] / 16) % 2 == 1;
        let mut end: usize = 0x1000;
        let ghost mut k: int = 1;
        while !valid && end <= len
            invariant
                len == buffer.len(),
                0x800 <= len <= 0x20000,
                end == k * 0x1000,
                1 <= k,
                valid ==> a2600_has_valid_reset(buffer@),
                !valid ==> !a2600_vector_ok(buffer@, len as int) && forall|j: int|
                    1 <= j < k ==> !#[trigger] a2600_vector_ok(buffer@, j * 0x1000),
            decreases len + 0x1000 - end + if valid { 0int } else { 1int },
        {
            if (buffer[end - 3] / 16) % 2 == 1 {
                assert(a2600_vector_ok(buffer@, k * 0x1000));
                valid = true;
            } else {
                end = end + 0x1000;
                proof {
                    k = k + 1;
                }
            }
        }
        if !valid {
            assert(!a2600_has_valid_reset(buffer@)) by {
                assert forall|j: int| 1 <= j && j * 0x1000 <= buffer@.len() implies !#[trigger] a2600_vector_ok(
                    buffer@,
                    j * 0x1000,
                ) by {
                    if j >= k {
                        assert(j * 0x1000 >= k * 0x1000) by (nonlinear_arith)
                            requires
                                j >= k,
                        ;
                    }
                }
            }
            return Err(ParseError::MagicNotFound);
        }
        if count_tia_patterns(buffer) < 3 {
            return Err(ParseError::MagicNotFound);
        }
        let rom_sha1 = compute_sha1(buffer);
        Ok(Atari2600Info { rom_sha1 })
    }
}

impl RomInfo for Atari2600Info {
    fn console(&self) -> (r: &'static str)
        ensures
            r@ == "Atari 2600"@,
    {
        "Atari 2600"
    }

    fn dat_meta(&self) -> (r: DatMeta)
        ensures
            meta_is_empty(r),
    {
        DatMeta::empty()
    }
}

impl RomHash for Atari2600Info {
    fn sha1(&self) -> (r: [u8; 20])
        ensures
            r@ == self.rom_sha1@,
    {
        self.rom_sha1
    }
}

// ---------------------------------------------------------------------------
// Report
// ---------------------------------------------------------------------------

/// The report of the cartridge: its digest.
pub open spec fn a2600_report(i: Atari2600Info) -> Seq<char> {
    sha1_text(i.rom_sha1@) + "\n"@
}

impl Atari2600Info {
    /// The report the inspector prints for the cartridge.
    pub fn describe(&self) -> (r: String)
        ensures
            r@ == a2600_report(*self),
    {
        let mut t: Vec<char> = Vec::new();
        push_sha1(&mut t, &self.rom_sha1);
        crate::text::append_str(&mut t, "\n");
        crate::ext::string_from_chars(&t)
    }
}

} // verus!
