//! Magnavox Odyssey² / Philips Videopac cartridges.

pub mod opcodes;

use crate::bytes::{all_eq, spec_all_eq};
use crate::ext::{compute_sha1, spec_sha1, string_from_chars};
use crate::report::{hex_padded, push_dec, push_hex_padded, push_sha1, sha1_text};
use crate::text::{append_chars, append_str, hex_chars, spec_decimal, spec_hex};
use crate::systems::helpers::{has_tia_write, spec_has_tia_write};
use crate::traits::{meta_is_empty, DatMeta, ParseError, RomHash, RomInfo};
use opcodes::{
    acc_effect, decode_jmp, instruction_len, is_call, is_jmp, spec_acc_effect, spec_decode_jmp,
    spec_instruction_len, spec_is_call, spec_is_jmp, AccEffect,
};
use vstd::prelude::*;

verus! {

/// The BIOS "SELECT GAME" routine.
pub const BIOS_SELECT_GAME: u16 = 0x2C3;

/// CPU address at which cartridge ROM is mapped.
pub const CART_BASE: u16 = 0x400;

/// Bytes of one cartridge bank.
pub const O2_BANK_SIZE: usize = 2048;

// ---------------------------------------------------------------------------
// Game-select dispatch analysis
// ---------------------------------------------------------------------------

/// Whether the forward scan from `pc` (stopping at `limit`) meets an
/// instruction that reads A before one that overwrites it.
pub open spec fn o2_scan_reads(b: Seq<u8>, pc: int, limit: int) -> bool
    decreases limit - pc + 2,
{
    if pc < 0 || pc >= limit || limit > b.len() {
        false
    } else {
        match spec_acc_effect(b[pc]) {
            AccEffect::Reads => true,
            AccEffect::Overwrites => false,
            AccEffect::Neutral => o2_scan_reads(b, pc + spec_instruction_len(b[pc]), limit),
        }
    }
}

/// Some `XRL A, #key` (0xD3 key) starts in `[start, end)`.
pub open spec fn o2_has_xrl_key(b: Seq<u8>, start: int, end: int, key: u8) -> bool {
    exists|i: int| start <= i < end && #[trigger] b[i] == 0xD3 && b[i + 1] == key
}

/// How many of the keys `1..=n` occur in an `XRL A, #key` in `[start, end)`.
pub open spec fn o2_xrl_keys_upto(b: Seq<u8>, start: int, end: int, n: nat) -> nat
    decreases n,
{
    if n == 0 {
        0
    } else {
        o2_xrl_keys_upto(b, start, end, (n - 1) as nat) + if o2_has_xrl_key(
            b,
            start,
            end,
            n as u8,
        ) {
            1nat
        } else {
            0nat
        }
    }
}

/// The number of bytes equal to `v` in `[start, end)`.
pub open spec fn o2_count_byte(b: Seq<u8>, start: int, end: int, v: u8) -> nat
    decreases end - start,
{
    if end <= start {
        0
    } else {
        o2_count_byte(b, start, end - 1, v) + if b[end - 1] == v {
            1nat
        } else {
            0nat
        }
    }
}

pub open spec fn min_i(a: int, b: int) -> int {
    if a <= b {
        a
    } else {
        b
    }
}

/// The number of games the dispatch code reached from cartridge byte 8 selects
/// among: one when it does not test the key in A, else the distinct `XRL`
/// keys 1-9, else the `JZ` count; `None` when it cannot tell.
pub open spec fn o2_game_count(b: Seq<u8>) -> Option<u8> {
    if !spec_is_jmp(b[8]) {
        None
    } else {
        let target = spec_decode_jmp(b[8], b[9]) as int;
        let start = target - 0x400;
        if start < 0 || start >= b.len() {
            None
        } else if !o2_scan_reads(b, start, min_i(start + 16, b.len() as int)) {
            Some(1)
        } else {
            let wend = min_i(start + 48, b.len() - 1);
            let x = o2_xrl_keys_upto(b, start, wend, 9);
            let j = o2_count_byte(b, start, wend, 0xC6);
            if x > 0 {
                Some(x as u8)
            } else if j > 0 {
                Some(j as u8)
            } else {
                None
            }
        }
    }
}

fn has_xrl_key(b: &[u8], start: usize, end: usize, key: u8) -> (r: bool)
    requires
        end < b.len(),
    ensures
        r == o2_has_xrl_key(b@, start as int, end as int, key),
{
    let mut i = start;
    while i < end
        invariant
            end < b.len(),
            start <= i,
            forall|j: int| start <= j < i ==> !(#[trigger] b@[j] == 0xD3 && b@[j + 1] == key),
        decreases end - i,
    {
        if b[i] == 0xD3 && b[i + 1] == key {
            return true;
        }
        i += 1;
    }
    false
}

proof fn lemma_count_byte_bound(b: Seq<u8>, start: int, end: int, v: u8)
    ensures
        o2_count_byte(b, start, end, v) <= if end <= start {
            0
        } else {
            end - start
        },
    decreases end - start,
{
    if end > start {
        lemma_count_byte_bound(b, start, end - 1, v);
    }
}

proof fn lemma_xrl_keys_bound(b: Seq<u8>, start: int, end: int, n: nat)
    ensures
        o2_xrl_keys_upto(b, start, end, n) <= n,
    decreases n,
{
    if n > 0 {
        lemma_xrl_keys_bound(b, start, end, (n - 1) as nat);
    }
}

/// Count the games of a cartridge that boots into the BIOS game selection,
/// from the dispatch code reached through the JMP at cartridge byte 8.
pub fn count_games(buffer: &[u8]) -> (r: Option<u8>)
    requires
        buffer.len() >= 10,
    ensures
        r == o2_game_count(buffer@),
{
    let b = buffer;
    if !is_jmp(b[8]) {
        return None;
    }
    let target = decode_jmp(b[8], b[9]);
    if target < CART_BASE {
        return None;
    }
    let start = (target - CART_BASE) as usize;
    let len = b.len();
    if start >= len {
        return None;
    }
    let scan_limit = if start + 16 <= len {
        start + 16
    } else {
        len
    };
    let mut pc = start;
    let mut a_is_used = false;
    let mut done = false;
    while !done && pc < scan_limit
        invariant
            scan_limit <= len == b.len(),
            start < 0x800,
            scan_limit <= start + 16,
            start <= pc <= scan_limit + 1,
            !done ==> o2_scan_reads(b@, start as int, scan_limit as int) == o2_scan_reads(
                b@,
                pc as int,
                scan_limit as int,
            ),
            done ==> a_is_used == o2_scan_reads(b@, start as int, scan_limit as int),
            !done ==> !a_is_used,
        decreases scan_limit - pc + if done { 0int } else { 1int },
    {
        let op = b[pc];
        match acc_effect(op) {
            AccEffect::Reads => {
                a_is_used = true;
                done = true;
            },
            AccEffect::Overwrites => {
                done = true;
            },
            AccEffect::Neutral => {
                pc = pc + instruction_len(op);
            },
        }
    }
    if !a_is_used {
        return Some(1);
    }
    let window_end = if start + 48 <= len - 1 {
        start + 48
    } else {
        len - 1
    };
    let mut xrl_count: u8 = 0;
    let mut key: u8 = 1;
    while key <= 9
        invariant
            1 <= key <= 10,
            window_end < b.len(),
            xrl_count == o2_xrl_keys_upto(b@, start as int, window_end as int, (key - 1) as nat),
        decreases 10 - key,
    {
        proof {
            lemma_xrl_keys_bound(b@, start as int, window_end as int, (key - 1) as nat);
        }
        if has_xrl_key(b, start, window_end, key) {
            xrl_count += 1;
        }
        key += 1;
    }
    if xrl_count > 0 {
        return Some(xrl_count);
    }
    let mut jz_count: u8 = 0;
    let mut i = start;
    proof {
        lemma_count_byte_bound(b@, start as int, window_end as int, 0xC6);
    }
    while i < window_end
        invariant
            start <= i,
            i <= window_end || window_end <= start,
            window_end <= start ==> i == start,
            window_end < b.len(),
            window_end <= start + 48,
            jz_count == o2_count_byte(b@, start as int, i as int, 0xC6),
        decreases window_end - i,
    {
        proof {
            lemma_count_byte_bound(b@, start as int, i as int, 0xC6);
        }
        if b[i] == 0xC6 {
            jz_count += 1;
        }
        i += 1;
    }
    proof {
        if window_end <= start {
            assert(o2_count_byte(b@, start as int, window_end as int, 0xC6) == 0);
            assert(o2_count_byte(b@, start as int, i as int, 0xC6) == 0);
        }
    }
    if jz_count > 0 {
        return Some(jz_count);
    }
    None
}

// ---------------------------------------------------------------------------
// Entry vectors
// ---------------------------------------------------------------------------

/// 1 when entry position `i` holds a JMP or CALL.
pub open spec fn o2_ct_at(c: Seq<u8>, i: int) -> nat {
    if i < c.len() && (spec_is_jmp(c[i]) || spec_is_call(c[i])) {
        1
    } else {
        0
    }
}

/// JMPs and CALLs at the six entry positions 0, 2, 4, 6, 8, 10.
pub open spec fn o2_control_transfers(c: Seq<u8>) -> nat {
    o2_ct_at(c, 0) + o2_ct_at(c, 2) + o2_ct_at(c, 4) + o2_ct_at(c, 6) + o2_ct_at(c, 8) + o2_ct_at(
        c,
        10,
    )
}

/// The external or timer interrupt vector holds a JMP or CALL.
pub open spec fn o2_has_irq_vector(c: Seq<u8>) -> bool {
    o2_ct_at(c, 2) == 1 || o2_ct_at(c, 4) == 1
}

/// Enough entry vectors to believe the cartridge starts here.
pub open spec fn o2_real_entries(c: Seq<u8>) -> bool {
    o2_control_transfers(c) >= 3 || (o2_control_transfers(c) >= 2 && o2_has_irq_vector(c))
}

/// The twelve entry bytes are all `v` (NOP slide for 0, erased EPROM for 0xFF).
pub open spec fn o2_slide(c: Seq<u8>, v: u8) -> bool {
    c.len() >= 12 && spec_all_eq(c, 0, 12, v)
}

fn count_control_transfers(buf: &[u8]) -> (r: u8)
    ensures
        r == o2_control_transfers(buf@),
{
    let mut n: u8 = 0;
    let mut i: usize = 0;
    while i < 12
        invariant
            i % 2 == 0,
            i <= 12,
            n <= i / 2,
            n == (if i > 0 { o2_ct_at(buf@, 0) } else { 0 }) + (if i > 2 {
                o2_ct_at(buf@, 2)
            } else {
                0
            }) + (if i > 4 {
                o2_ct_at(buf@, 4)
            } else {
                0
            }) + (if i > 6 {
                o2_ct_at(buf@, 6)
            } else {
                0
            }) + (if i > 8 {
                o2_ct_at(buf@, 8)
            } else {
                0
            }) + (if i > 10 {
                o2_ct_at(buf@, 10)
            } else {
                0
            }),
        decreases 12 - i,
    {
        if i < buf.len() && (is_jmp(buf[i]) || is_call(buf[i])) {
            n += 1;
        }
        i += 2;
    }
    n
}

fn has_irq_vector(buf: &[u8]) -> (r: bool)
    ensures
        r == o2_has_irq_vector(buf@),
{
    (2 < buf.len() && (is_jmp(buf[2]) || is_call(buf[2]))) || (4 < buf.len() && (is_jmp(buf[4])
        || is_call(buf[4])))
}

fn has_real_entries(buf: &[u8]) -> (r: bool)
    ensures
        r == o2_real_entries(buf@),
{
    let ct = count_control_transfers(buf);
    ct >= 3 || (ct >= 2 && has_irq_vector(buf))
}

fn is_slide(buf: &[u8], v: u8) -> (r: bool)
    ensures
        r == o2_slide(buf@, v),
{
    buf.len() >= 12 && all_eq(buf, 0, 12, v)
}

/// The file offsets at which entry vectors are looked for, in order of preference.
pub open spec fn o2_candidate(k: int) -> int {
    if k == 0 {
        0
    } else if k == 1 {
        0x400
    } else if k == 2 {
        0x800
    } else {
        0x1800
    }
}

/// The first candidate offset from `k` on that fits the buffer and whose
/// entry area passes `strict` (strict vectors) or otherwise a slide test.
pub open spec fn o2_first_offset(b: Seq<u8>, k: int, strict: bool) -> Option<int>
    decreases 4 - k,
{
    if k < 0 || k >= 4 {
        None
    } else {
        let o = o2_candidate(k);
        let c = b.skip(o);
        let ok = if strict {
            o2_real_entries(c)
        } else {
            o2_slide(c, 0) || o2_slide(c, 0xFF)
        };
        if o + 12 <= b.len() && ok {
            Some(o)
        } else {
            o2_first_offset(b, k + 1, strict)
        }
    }
}

/// Where the cartridge's entry vectors are: the first offset with strict
/// vectors, else the first with a blank entry area.
pub open spec fn o2_cart_offset(b: Seq<u8>) -> Option<int> {
    match o2_first_offset(b, 0, true) {
        Some(o) => Some(o),
        None => o2_first_offset(b, 0, false),
    }
}

fn find_cart_offset(b: &[u8], strict: bool) -> (r: Option<usize>)
    ensures
        match r {
            Some(o) => o2_first_offset(b@, 0, strict) == Some(o as int),
            None => o2_first_offset(b@, 0, strict) is None,
        },
{
    let candidates: [usize; 4] = [0, 0x400, 0x800, 0x1800];
    let mut k: usize = 0;
    while k < 4
        invariant
            k <= 4,
            candidates@ == seq![0usize, 0x400, 0x800, 0x1800],
            o2_first_offset(b@, 0, strict) == o2_first_offset(b@, k as int, strict),
        decreases 4 - k,
    {
        let o = candidates[k];
        assert(o == o2_candidate(k as int));
        if o <= b.len() && b.len() - o >= 12 {
            let c = &b[o..b.len()];
            assert(c@ =~= b@.skip(o as int));
            let ok = if strict {
                has_real_entries(c)
            } else {
                is_slide(c, 0) || is_slide(c, 0xFF)
            };
            if ok {
                return Some(o);
            }
        }
        k += 1;
    }
    None
}

// ---------------------------------------------------------------------------
// Anti-2600 filter
// ---------------------------------------------------------------------------

/// Writes to VSYNC, VBLANK, WSYNC and HMOVE all occur: an Atari 2600 image.
pub open spec fn o2_looks_like_2600(b: Seq<u8>) -> bool {
    spec_has_tia_write(b, 0x00) && spec_has_tia_write(b, 0x01) && spec_has_tia_write(b, 0x02)
        && spec_has_tia_write(b, 0x2A)
}

// ---------------------------------------------------------------------------
// The cartridge record
// ---------------------------------------------------------------------------

/// A parsed Odyssey² cartridge.
pub struct MagnavoxOdyssey2Info {
    pub size_kb: usize,
    /// CPU address of the reset handler, when cartridge byte 0 is a JMP.
    pub reset_entry: Option<u16>,
    /// The reset entry jumps to the BIOS "SELECT GAME" routine.
    pub uses_bios_game_select: bool,
    /// Number of game-select entries, when it could be decoded.
    pub game_count: Option<u8>,
    /// Erased entry areas at 0x000 and 0x400, with code at 0x800.
    pub g7400_only: bool,
    /// Index of the 2 KiB bank holding the entry vectors.
    pub boot_bank: u8,
    /// Number of 2 KiB banks.
    pub bank_count: u8,
    /// Per bank: all 0x00 or all 0xFF.
    pub blank_banks: Vec<bool>,
    /// For two-bank images: SHA-1 of the image with its halves swapped.
    pub swapped_sha1: Option<[u8; 20]>,
    pub rom_sha1: [u8; 20],
}

/// The sizes of Odyssey² dumps: 2, 4 and 8 KiB.
pub open spec fn o2_size_ok(len: nat) -> bool {
    len == 2048 || len == 4096 || len == 8192
}

/// The error a parse fails with, when it fails.
pub open spec fn o2_parse_error(b: Seq<u8>) -> Option<ParseError> {
    if !o2_size_ok(b.len()) {
        Some(ParseError::BufferTooSmall)
    } else if o2_looks_like_2600(b) {
        Some(ParseError::MagicNotFound)
    } else if o2_cart_offset(b) is None {
        Some(ParseError::MagicNotFound)
    } else {
        None
    }
}

/// The reset handler: the target of a JMP at cartridge byte 0.
pub open spec fn o2_reset_entry(c: Seq<u8>) -> Option<u16> {
    if spec_is_jmp(c[0]) {
        Some(spec_decode_jmp(c[0], c[1]))
    } else {
        None
    }
}

/// A bank is blank: all 0x00 or all 0xFF.
pub open spec fn o2_bank_blank(b: Seq<u8>, k: int) -> bool {
    spec_all_eq(b, k * 2048, k * 2048 + 2048, 0) || spec_all_eq(b, k * 2048, k * 2048 + 2048, 0xFF)
}

/// What a successful parse reads from a buffer whose cartridge starts at `o`.
pub open spec fn o2_info_matches(b: Seq<u8>, info: MagnavoxOdyssey2Info) -> bool {
    let o = o2_cart_offset(b)->0;
    let c = b.skip(o);
    let banks = b.len() / 2048;
    let uses = o2_reset_entry(c) == Some(0x2C3u16);
    &&& info.size_kb == b.len() / 1024
    &&& info.reset_entry == o2_reset_entry(c)
    &&& info.uses_bios_game_select == uses
    &&& info.game_count == if uses {
        o2_game_count(c)
    } else {
        None
    }
    &&& info.g7400_only == (o == 0x800 && b.len() >= 0x80C && o2_slide(b, 0xFF) && o2_slide(
        b.skip(0x400),
        0xFF,
    ))
    &&& info.bank_count == banks
    &&& info.boot_bank == if banks > 1 && o2_control_transfers(b.skip((banks - 1) * 2048)) > 0 {
        (banks - 1) as u8
    } else {
        (o / 2048) as u8
    }
    &&& info.blank_banks@.len() == banks
    &&& forall|k: int| 0 <= k < banks ==> #[trigger] info.blank_banks@[k] == o2_bank_blank(b, k)
    &&& (info.swapped_sha1 is Some) == (banks == 2)
    &&& info.swapped_sha1 matches Some(h) ==> h@ == spec_sha1(b.skip(2048) + b.take(2048))
    &&& info.rom_sha1@ == spec_sha1(b)
}

impl MagnavoxOdyssey2Info {
    /// Parse an Odyssey² cartridge: size check, the Atari 2600 filter, the
    /// entry vectors, the game-select dispatch and the bank layout.
    pub fn try_from(buffer: &[u8]) -> (r: Result<MagnavoxOdyssey2Info, ParseError>)
        ensures
            match r {
                Ok(info) => o2_parse_error(buffer@) is None && o2_info_matches(buffer@, info),
                Err(e) => o2_parse_error(buffer@) == Some(e),
            },
    {
        let len = buffer.len();
        if !(len == 2048 || len == 4096 || len == 8192) {
            return Err(ParseError::BufferTooSmall);
        }
        if has_tia_write(buffer, 0x00) && has_tia_write(buffer, 0x01) && has_tia_write(buffer, 0x02)
            && has_tia_write(buffer, 0x2A) {
            return Err(ParseError::MagicNotFound);
        }
        let cart_offset = match find_cart_offset(buffer, true) {
            Some(o) => o,
            None => match find_cart_offset(buffer, false) {
                Some(o) => o,
                None => {
                    return Err(ParseError::MagicNotFound);
                },
            },
        };
        proof {
            lemma_first_offset_fits(buffer@, 0, true);
            lemma_first_offset_fits(buffer@, 0, false);
        }
        let cart = &buffer[cart_offset..len];
        assert(cart@ =~= buffer@.skip(cart_offset as int));
        let reset_entry = if is_jmp(cart[0]) {
            Some(decode_jmp(cart[0], cart[1]))
        } else {
            None
        };
        let uses_bios_game_select = match reset_entry {
            Some(e) => e == BIOS_SELECT_GAME,
            None => false,
        };
        let game_count = if uses_bios_game_select {
            count_games(cart)
        } else {
            None
        };
        let g7400_only = cart_offset == 0x800 && len >= 0x80C && is_slide(buffer, 0xFF) && {
            let hi = &buffer[0x400..len];
            assert(hi@ =~= buffer@.skip(0x400));
            is_slide(hi, 0xFF)
        };
        let size_kb = len / 1024;
        let bank_count = (len / O2_BANK_SIZE) as u8;
        let last_bank_offset = (bank_count as usize - 1) * O2_BANK_SIZE;
        let last_bank = &buffer[last_bank_offset..len];
        assert(last_bank@ =~= buffer@.skip(last_bank_offset as int));
        let boot_bank = if bank_count > 1 && count_control_transfers(last_bank) > 0 {
            bank_count - 1
        } else {
            (cart_offset / O2_BANK_SIZE) as u8
        };
        let mut blank_banks: Vec<bool> = Vec::new();
        let mut k: usize = 0;
        while k < bank_count as usize
            invariant
                len == buffer.len(),
                o2_size_ok(len as nat),
                bank_count == len / 2048,
                k <= bank_count,
                blank_banks@.len() == k,
                forall|j: int| 0 <= j < k ==> #[trigger] blank_banks@[j] == o2_bank_blank(buffer@, j),
            decreases bank_count - k,
        {
            let start = k * O2_BANK_SIZE;
            let end = start + O2_BANK_SIZE;
            let blank = all_eq(buffer, start, end, 0) || all_eq(buffer, start, end, 0xFF);
            blank_banks.push(blank);
            k += 1;
        }
        let rom_sha1 = compute_sha1(buffer);
        let swapped_sha1 = if bank_count == 2 {
            let mut swapped: Vec<u8> = Vec::new();
            let mut i: usize = O2_BANK_SIZE;
            while i < len
                invariant
                    len == buffer.len() == 4096,
                    2048 <= i <= len,
                    swapped@ == buffer@.subrange(2048, i as int),
                decreases len - i,
            {
                swapped.push(buffer[i]);
                i += 1;
                assert(swapped@ =~= buffer@.subrange(2048, i as int));
            }
            let mut i: usize = 0;
            while i < O2_BANK_SIZE
                invariant
                    len == buffer.len() == 4096,
                    i <= 2048,
                    swapped@ == buffer@.subrange(2048, 4096) + buffer@.subrange(0, i as int),
                decreases 2048 - i,
            {
                swapped.push(buffer[i]);
                i += 1;
                assert(swapped@ =~= buffer@.subrange(2048, 4096) + buffer@.subrange(0, i as int));
            }
            assert(swapped@ =~= buffer@.skip(2048) + buffer@.take(2048));
            Some(compute_sha1(swapped.as_slice()))
        } else {
            None
        };
        Ok(
            MagnavoxOdyssey2Info {
                size_kb,
                reset_entry,
                uses_bios_game_select,
                game_count,
                g7400_only,
                boot_bank,
                bank_count,
                blank_banks,
                swapped_sha1,
                rom_sha1,
            },
        )
    }
}

proof fn lemma_first_offset_fits(b: Seq<u8>, k: int, strict: bool)
    ensures
        o2_first_offset(b, k, strict) matches Some(o) ==> o + 12 <= b.len() && 0 <= o <= 0x1800 && o
            % 1024 == 0,
    decreases 4 - k,
{
    if 0 <= k < 4 {
        lemma_first_offset_fits(b, k + 1, strict);
    }
}

impl RomHash for MagnavoxOdyssey2Info {
    fn sha1(&self) -> (r: [u8; 20])
        ensures
            r@ == self.rom_sha1@,
    {
        self.rom_sha1
    }
}

impl RomInfo for MagnavoxOdyssey2Info {
    fn console(&self) -> (r: &'static str)
        ensures
            r@ == if self.g7400_only {
                "Philips Videopac+ G7400"@
            } else {
                "Magnavox Odyssey²"@
            },
    {
        if self.g7400_only {
            "Philips Videopac+ G7400"
        } else {
            "Magnavox Odyssey²"
        }
    }

    fn dat_meta(&self) -> (r: DatMeta)
        ensures
            meta_is_empty(r),
    {
        DatMeta::empty()
    }
}

// ---------------------------------------------------------------------------
// Report
// ---------------------------------------------------------------------------

/// The blank-bank lines, for banks `0..n`, unless the image is G7400-only.
pub open spec fn o2_blank_lines(blank: Seq<bool>, g7400_only: bool, n: nat) -> Seq<char>
    decreases n,
{
    if n == 0 {
        Seq::empty()
    } else {
        o2_blank_lines(blank, g7400_only, (n - 1) as nat) + if blank[n - 1] && !g7400_only {
            "Bank "@ + spec_decimal((n - 1) as nat) + ": blank\n"@
        } else {
            Seq::empty()
        }
    }
}

/// The game-count and reset-entry lines.
pub open spec fn o2_report_head(i: MagnavoxOdyssey2Info) -> Seq<char> {
    "Size: "@ + spec_decimal(i.size_kb as nat) + " KB\n"@ + (if i.uses_bios_game_select {
        match i.game_count {
            Some(n) => "Games: "@ + spec_decimal(n as nat) + "\n"@,
            None => "Games: multiple\n"@,
        }
    } else {
        Seq::empty()
    }) + match i.reset_entry {
        Some(e) => if !i.uses_bios_game_select {
            "Reset Entry: 0x"@ + hex_padded(e as nat, 3) + "\n"@
        } else {
            Seq::empty()
        },
        None => Seq::empty(),
    }
}

/// The bank lines of a multi-bank image.
pub open spec fn o2_bank_lines(i: MagnavoxOdyssey2Info) -> Seq<char> {
    if i.bank_count > 1 {
        let expected = (i.bank_count - 1) as u8;
        (if i.boot_bank != expected {
            "Banks: boot bank at "@ + spec_decimal(i.boot_bank as nat) + ", expected at "@ + spec_decimal(
                expected as nat,
            ) + " (non-standard order)\n"@
        } else {
            Seq::empty()
        }) + o2_blank_lines(i.blank_banks@, i.g7400_only, i.blank_banks@.len()) + match i.swapped_sha1 {
            Some(s) => if i.boot_bank != expected {
                "Swapped SHA1: "@ + spec_hex(s@, true) + "\n"@
            } else {
                Seq::empty()
            },
            None => Seq::empty(),
        }
    } else {
        Seq::empty()
    }
}

/// The report of an Odyssey² cartridge.
pub open spec fn o2_report(i: MagnavoxOdyssey2Info) -> Seq<char> {
    o2_report_head(i) + o2_bank_lines(i) + sha1_text(i.rom_sha1@) + "\n"@
}

fn push_o2_head(out: &mut Vec<char>, i: &MagnavoxOdyssey2Info)
    ensures
        final(out)@ == old(out)@ + o2_report_head(*i),
{
    let mut t: Vec<char> = Vec::new();
    append_str(&mut t, "Size: ");
    push_dec(&mut t, i.size_kb as u64);
    append_str(&mut t, " KB\n");
    if i.uses_bios_game_select {
        match i.game_count {
            Some(n) => {
                append_str(&mut t, "Games: ");
                push_dec(&mut t, n as u64);
                append_str(&mut t, "\n");
            },
            None => append_str(&mut t, "Games: multiple\n"),
        }
    }
    if let Some(e) = i.reset_entry {
        if !i.uses_bios_game_select {
            append_str(&mut t, "Reset Entry: 0x");
            push_hex_padded(&mut t, e as u64, 3);
            append_str(&mut t, "\n");
        }
    }
    assert(t@ =~= o2_report_head(*i));
    append_chars(out, &t);
}

fn push_o2_banks(out: &mut Vec<char>, i: &MagnavoxOdyssey2Info)
    ensures
        final(out)@ == old(out)@ + o2_bank_lines(*i),
{
    let mut t: Vec<char> = Vec::new();
    if i.bank_count > 1 {
        let expected = i.bank_count - 1;
        if i.boot_bank != expected {
            append_str(&mut t, "Banks: boot bank at ");
            push_dec(&mut t, i.boot_bank as u64);
            append_str(&mut t, ", expected at ");
            push_dec(&mut t, expected as u64);
            append_str(&mut t, " (non-standard order)\n");
        }
        let ghost head = t@;
        let mut k: usize = 0;
        while k < i.blank_banks.len()
            invariant
                k <= i.blank_banks.len(),
                t@ == head + o2_blank_lines(i.blank_banks@, i.g7400_only, k as nat),
            decreases i.blank_banks.len() - k,
        {
            if i.blank_banks[k] && !i.g7400_only {
                append_str(&mut t, "Bank ");
                push_dec(&mut t, k as u64);
                append_str(&mut t, ": blank\n");
            }
            k += 1;
            assert(t@ =~= head + o2_blank_lines(i.blank_banks@, i.g7400_only, k as nat));
        }
        if let Some(s) = &i.swapped_sha1 {
            if i.boot_bank != expected {
                append_str(&mut t, "Swapped SHA1: ");
                let h = hex_chars(s.as_slice(), true);
                append_chars(&mut t, &h);
                append_str(&mut t, "\n");
            }
        }
    }
    assert(t@ =~= o2_bank_lines(*i));
    append_chars(out, &t);
}

impl MagnavoxOdyssey2Info {
    /// The report the inspector prints for the cartridge.
    pub fn describe(&self) -> (r: String)
        ensures
            r@ == o2_report(*self),
    {
        let mut t: Vec<char> = Vec::new();
        push_o2_head(&mut t, self);
        push_o2_banks(&mut t, self);
        push_sha1(&mut t, &self.rom_sha1);
        append_str(&mut t, "\n");
        assert(t@ =~= o2_report(*self));
        string_from_chars(&t)
    }
}

} // verus!
