//! Heuristic analysis of NES PRG/CHR ROM data: overdumps, blank banks and
//! sizes beyond what the cartridge board supports.

use super::mapper::{spec_mapper_limits, Mapper};
use crate::systems::helpers::{detect_unique_size, spec_detect_unique_size};
use crate::text::{append_chars, append_str, decimal_chars, spec_decimal, spec_hex_byte, push_hex_byte};
use crate::ext::string_from_chars;
use vstd::prelude::*;

verus! {

/// Result of analyzing an NES ROM for potential issues.
pub struct NesAnalysis {
    /// If PRG ROM appears overdumped, the likely actual size in bytes.
    pub prg_unique_bytes: Option<usize>,
    /// If CHR ROM appears overdumped, the likely actual size in bytes.
    pub chr_unique_bytes: Option<usize>,
    /// Warnings about mapper/ROM incompatibilities.
    pub warnings: Vec<AnalysisWarning>,
}

#[derive(Clone, Copy, Debug, PartialEq, Eq, Structural)]
pub enum AnalysisWarning {
    /// PRG ROM is larger than the mapper typically supports.
    PrgTooLarge { mapper_max_kb: u32, actual_kb: u32 },
    /// CHR ROM is larger than the mapper typically supports.
    ChrTooLarge { mapper_max_kb: u32, actual_kb: u32 },
    /// CHR ROM is present but the mapper uses CHR-RAM only.
    UnexpectedChrRom,
    /// PRG ROM is entirely a single byte (e.g., all 0x00 or 0xFF).
    BlankPrg { fill_byte: u8 },
    /// CHR ROM is entirely a single byte (e.g., all 0x00 or 0xFF).
    BlankChr { fill_byte: u8 },
}

/// Text of a warning, as the inspector prints it.
pub open spec fn spec_warning_text(w: AnalysisWarning) -> Seq<char> {
    match w {
        AnalysisWarning::PrgTooLarge { mapper_max_kb, actual_kb } => "PRG ROM size ("@
            + spec_decimal(actual_kb as nat) + "kb) exceeds mapper maximum ("@ + spec_decimal(
            mapper_max_kb as nat,
        ) + "kb)"@,
        AnalysisWarning::ChrTooLarge { mapper_max_kb, actual_kb } => "CHR ROM size ("@
            + spec_decimal(actual_kb as nat) + "kb) exceeds mapper maximum ("@ + spec_decimal(
            mapper_max_kb as nat,
        ) + "kb)"@,
        AnalysisWarning::UnexpectedChrRom => "CHR ROM present but mapper does not support CHR ROM"@,
        AnalysisWarning::BlankPrg { fill_byte } => "PRG ROM is blank (entirely 0x"@
            + spec_hex_byte(fill_byte, true) + ")"@,
        AnalysisWarning::BlankChr { fill_byte } => "CHR ROM is blank (entirely 0x"@
            + spec_hex_byte(fill_byte, true) + ")"@,
    }
}

impl AnalysisWarning {
    /// The warning as text.
    pub fn describe(&self) -> (r: String)
        ensures
            r@ == spec_warning_text(*self),
    {
        let mut v: Vec<char> = Vec::new();
        match *self {
            AnalysisWarning::PrgTooLarge { mapper_max_kb, actual_kb } => {
                append_str(&mut v, "PRG ROM size (");
                append_chars(&mut v, &decimal_chars(actual_kb as u64));
                append_str(&mut v, "kb) exceeds mapper maximum (");
                append_chars(&mut v, &decimal_chars(mapper_max_kb as u64));
                append_str(&mut v, "kb)");
            },
            AnalysisWarning::ChrTooLarge { mapper_max_kb, actual_kb } => {
                append_str(&mut v, "CHR ROM size (");
                append_chars(&mut v, &decimal_chars(actual_kb as u64));
                append_str(&mut v, "kb) exceeds mapper maximum (");
                append_chars(&mut v, &decimal_chars(mapper_max_kb as u64));
                append_str(&mut v, "kb)");
            },
            AnalysisWarning::UnexpectedChrRom => {
                append_str(&mut v, "CHR ROM present but mapper does not support CHR ROM");
            },
            AnalysisWarning::BlankPrg { fill_byte } => {
                append_str(&mut v, "PRG ROM is blank (entirely 0x");
                push_hex_byte(&mut v, fill_byte, true);
                append_str(&mut v, ")");
            },
            AnalysisWarning::BlankChr { fill_byte } => {
                append_str(&mut v, "CHR ROM is blank (entirely 0x");
                push_hex_byte(&mut v, fill_byte, true);
                append_str(&mut v, ")");
            },
        }
        assert(v@ =~= spec_warning_text(*self));
        string_from_chars(&v)
    }
}

/// The byte that fills all of `d`, when `d` is non-empty and uniform.
pub open spec fn spec_blank_fill_byte(d: Seq<u8>) -> Option<u8> {
    if d.len() == 0 {
        None
    } else if forall|i: int| 0 <= i < d.len() ==> #[trigger] d[i] == d[0] {
        Some(d[0])
    } else {
        None
    }
}

/// Check if data is entirely filled with a single byte value.
pub fn blank_fill_byte(data: &[u8]) -> (r: Option<u8>)
    ensures
        r == spec_blank_fill_byte(data@),
{
    if data.len() == 0 {
        return None;
    }
    let first = data[0];
    let mut i: usize = 0;
    while i < data.len()
        invariant
            i <= data.len(),
            first == data@[0],
            forall|j: int| 0 <= j < i ==> data@[j] == first,
        decreases data.len() - i,
    {
        if data[i] != first {
            return None;
        }
        i += 1;
    }
    Some(first)
}

pub open spec fn opt_bytes(o: Option<&[u8]>) -> Option<Seq<u8>> {
    match o {
        Some(c) => Some(c@),
        None => None,
    }
}

/// The overdump unit used by the analysis.
pub open spec fn analysis_min_block() -> int {
    8192
}

/// Warnings `analyze` reports, in order: blank PRG, blank CHR, then the
/// board-limit checks.
pub open spec fn spec_analysis_warnings(prg: Seq<u8>, chr: Option<Seq<u8>>, m: Mapper) -> Seq<
    AnalysisWarning,
> {
    let w_prg = match spec_blank_fill_byte(prg) {
        Some(f) => seq![AnalysisWarning::BlankPrg { fill_byte: f }],
        None => Seq::empty(),
    };
    let w_chr = match chr {
        Some(c) => match spec_blank_fill_byte(c) {
            Some(f) => seq![AnalysisWarning::BlankChr { fill_byte: f }],
            None => Seq::empty(),
        },
        None => Seq::empty(),
    };
    let w_limits = match spec_mapper_limits(m) {
        None => Seq::empty(),
        Some((max_prg, max_chr)) => {
            let prg_kb = (prg.len() / 1024) as u32;
            let chr_kb = match chr {
                Some(c) => (c.len() / 1024) as u32,
                None => 0u32,
            };
            (if prg_kb > max_prg {
                seq![AnalysisWarning::PrgTooLarge { mapper_max_kb: max_prg, actual_kb: prg_kb }]
            } else {
                Seq::empty()
            }) + (if max_chr == 0 && chr_kb > 0 {
                seq![AnalysisWarning::UnexpectedChrRom]
            } else if max_chr > 0 && chr_kb > max_chr {
                seq![AnalysisWarning::ChrTooLarge { mapper_max_kb: max_chr, actual_kb: chr_kb }]
            } else {
                Seq::empty()
            })
        },
    };
    w_prg + w_chr + w_limits
}

/// PRG overdump size `analyze` reports.
pub open spec fn spec_prg_unique(prg: Seq<u8>) -> Option<usize> {
    if spec_blank_fill_byte(prg) is None && prg.len() > analysis_min_block() {
        spec_detect_unique_size(prg, analysis_min_block())
    } else {
        None
    }
}

/// CHR overdump size `analyze` reports.
pub open spec fn spec_chr_unique(chr: Option<Seq<u8>>) -> Option<usize> {
    match chr {
        Some(c) => spec_prg_unique(c),
        None => None,
    }
}

/// Analyze PRG and CHR ROM data for overdumps and mapper compatibility issues.
pub fn analyze(prg_data: &[u8], chr_data: Option<&[u8]>, mapper: &Mapper) -> (r: NesAnalysis)
    ensures
        r.prg_unique_bytes == spec_prg_unique(prg_data@),
        r.chr_unique_bytes == spec_chr_unique(opt_bytes(chr_data)),
        r.warnings@ == spec_analysis_warnings(prg_data@, opt_bytes(chr_data), *mapper),
{
    let mut warnings: Vec<AnalysisWarning> = Vec::new();
    let min_block: usize = 8192;

    let prg_blank = blank_fill_byte(prg_data);
    if let Some(fill_byte) = prg_blank {
        warnings.push(AnalysisWarning::BlankPrg { fill_byte });
    }
    let chr_blank = match chr_data {
        Some(c) => blank_fill_byte(c),
        None => None,
    };
    if let Some(fill_byte) = chr_blank {
        warnings.push(AnalysisWarning::BlankChr { fill_byte });
    }

    let mut prg_unique_bytes: Option<usize> = None;
    if prg_blank.is_none() && prg_data.len() > min_block {
        prg_unique_bytes = detect_unique_size(prg_data, min_block);
    }
    let mut chr_unique_bytes: Option<usize> = None;
    if let Some(chr) = chr_data {
        if chr_blank.is_none() && chr.len() > min_block {
            chr_unique_bytes = detect_unique_size(chr, min_block);
        }
    }

    let ghost before = warnings@;
    if let Some(limits) = mapper_limits(mapper) {
        let prg_kb = (prg_data.len() / 1024) as u32;
        let chr_kb = match chr_data {
            Some(c) => (c.len() / 1024) as u32,
            None => 0u32,
        };
        if let Some(max_prg) = limits.max_prg_kb {
            if prg_kb > max_prg {
                warnings.push(AnalysisWarning::PrgTooLarge { mapper_max_kb: max_prg, actual_kb: prg_kb });
            }
        }
        if let Some(max_chr) = limits.max_chr_kb {
            if max_chr == 0 && chr_kb > 0 {
                warnings.push(AnalysisWarning::UnexpectedChrRom);
            } else if max_chr > 0 && chr_kb > max_chr {
                warnings.push(AnalysisWarning::ChrTooLarge { mapper_max_kb: max_chr, actual_kb: chr_kb });
            }
        }
    }
    assert(warnings@ =~= spec_analysis_warnings(prg_data@, opt_bytes(chr_data), *mapper));
    NesAnalysis { prg_unique_bytes, chr_unique_bytes, warnings }
}

/// Largest PRG and CHR ROM sizes (in KiB) a board supports.
pub struct MapperLimits {
    /// Maximum PRG ROM size in KB. None = unknown (don't warn).
    pub max_prg_kb: Option<u32>,
    /// Maximum CHR ROM size in KB. None = unknown. Some(0) = CHR-RAM only.
    pub max_chr_kb: Option<u32>,
}

/// The size limits of a board, `None` when the board is not known.
pub fn mapper_limits(mapper: &Mapper) -> (r: Option<MapperLimits>)
    ensures
        match spec_mapper_limits(*mapper) {
            Some((p, c)) => r matches Some(l) && l.max_prg_kb == Some(p) && l.max_chr_kb == Some(c),
            None => r is None,
        },
{
    Some(match mapper {
        Mapper::NROM => MapperLimits {
            max_prg_kb: Some(32),
            max_chr_kb: Some(8),
        },
        Mapper::MMC1 | Mapper::SxROM => MapperLimits {
            max_prg_kb: Some(512),
            max_chr_kb: Some(128),
        },
        Mapper::UxROM => MapperLimits {
            max_prg_kb: Some(256),
            max_chr_kb: Some(0),
        },
        Mapper::CNROM => MapperLimits {
            max_prg_kb: Some(32),
            max_chr_kb: Some(32),
        },
        Mapper::MMC3 | Mapper::TxSROM => MapperLimits {
            max_prg_kb: Some(512),
            max_chr_kb: Some(256),
        },
        Mapper::MMC5 => MapperLimits {
            max_prg_kb: Some(1024),
            max_chr_kb: Some(1024),
        },
        Mapper::AxROM => MapperLimits {
            max_prg_kb: Some(256),
            max_chr_kb: Some(0),
        },
        Mapper::MMC2 | Mapper::PxROM => MapperLimits {
            max_prg_kb: Some(128),
            max_chr_kb: Some(128),
        },
        Mapper::MMC4 => MapperLimits {
            max_prg_kb: Some(256),
            max_chr_kb: Some(128),
        },
        Mapper::ColorDreams => MapperLimits {
            max_prg_kb: Some(128),
            max_chr_kb: Some(128),
        },
        Mapper::CPROM => MapperLimits {
            max_prg_kb: Some(32),
            max_chr_kb: Some(0),
        },
        Mapper::ContraFunction16 => MapperLimits {
            max_prg_kb: Some(1024),
            max_chr_kb: Some(0),
        },
        Mapper::BandaiEPROM | Mapper::BandaiEPROM24C01 => MapperLimits {
            max_prg_kb: Some(256),
            max_chr_kb: Some(256),
        },
        Mapper::UNROM512 => MapperLimits {
            max_prg_kb: Some(512),
            max_chr_kb: Some(0),
        },
        Mapper::JalecoSS8806 => MapperLimits {
            max_prg_kb: Some(256),
            max_chr_kb: Some(256),
        },
        Mapper::Namco163 => MapperLimits {
            max_prg_kb: Some(512),
            max_chr_kb: Some(256),
        },
        Mapper::VRC2a => MapperLimits {
            max_prg_kb: Some(256),
            max_chr_kb: Some(128),
        },
        Mapper::VRC2b | Mapper::VRC4e => MapperLimits {
            max_prg_kb: Some(256),
            max_chr_kb: Some(256),
        },
        Mapper::VRC4a | Mapper::VRC4c => MapperLimits {
            max_prg_kb: Some(256),
            max_chr_kb: Some(256),
        },
        Mapper::VRC4b | Mapper::VRC4d => MapperLimits {
            max_prg_kb: Some(256),
            max_chr_kb: Some(256),
        },
        Mapper::VRC6a => MapperLimits {
            max_prg_kb: Some(256),
            max_chr_kb: Some(256),
        },
        Mapper::VRC6b => MapperLimits {
            max_prg_kb: Some(256),
            max_chr_kb: Some(256),
        },
        Mapper::BNROM | Mapper::NINA001 => MapperLimits {
            max_prg_kb: Some(128),
            max_chr_kb: Some(0),
        },
        Mapper::RAMBO1 => MapperLimits {
            max_prg_kb: Some(512),
            max_chr_kb: Some(256),
        },
        Mapper::GxROM | Mapper::MxROM => MapperLimits {
            max_prg_kb: Some(128),
            max_chr_kb: Some(32),
        },
        Mapper::AfterBurner => MapperLimits {
            max_prg_kb: Some(128),
            max_chr_kb: Some(256),
        },
        Mapper::FME7 => MapperLimits {
            max_prg_kb: Some(512),
            max_chr_kb: Some(256),
        },
        Mapper::Camerica => MapperLimits {
            max_prg_kb: Some(256),
            max_chr_kb: Some(0),
        },
        Mapper::VRC3 => MapperLimits {
            max_prg_kb: Some(128),
            max_chr_kb: Some(0),
        },
        Mapper::PirateMMC3 | Mapper::PirateMMC3_4k => MapperLimits {
            max_prg_kb: Some(512),
            max_chr_kb: Some(256),
        },
        Mapper::VRC1 => MapperLimits {
            max_prg_kb: Some(128),
            max_chr_kb: Some(128),
        },
        Mapper::Namco109 => MapperLimits {
            max_prg_kb: Some(128),
            max_chr_kb: Some(64),
        },
        Mapper::NINA03 | Mapper::NINA06 => MapperLimits {
            max_prg_kb: Some(64),
            max_chr_kb: Some(64),
        },
        Mapper::VRC7 => MapperLimits {
            max_prg_kb: Some(512),
            max_chr_kb: Some(128),
        },
        Mapper::JALECOJF13 => MapperLimits {
            max_prg_kb: Some(128),
            max_chr_kb: Some(64),
        },
        Mapper::SenjouNoOokami => MapperLimits {
            max_prg_kb: Some(128),
            max_chr_kb: Some(0),
        },
        Mapper::NESEVENT => MapperLimits {
            max_prg_kb: Some(256),
            max_chr_kb: Some(0),
        },
        Mapper::TQROM => MapperLimits {
            max_prg_kb: Some(128),
            max_chr_kb: Some(64),
        },
        Mapper::SUBOR166 | Mapper::SUBOR167 => MapperLimits {
            max_prg_kb: Some(1024),
            max_chr_kb: Some(0),
        },
        Mapper::CrazyClimber => MapperLimits {
            max_prg_kb: Some(128),
            max_chr_kb: Some(0),
        },
        Mapper::CNROMWithProtection => MapperLimits {
            max_prg_kb: Some(32),
            max_chr_kb: Some(8),
        },
        Mapper::DxROM => MapperLimits {
            max_prg_kb: Some(128),
            max_chr_kb: Some(64),
        },
        Mapper::Namco175 => MapperLimits {
            max_prg_kb: Some(512),
            max_chr_kb: Some(256),
        },
        Mapper::Action52 => MapperLimits {
            max_prg_kb: Some(1536),
            max_chr_kb: Some(512),
        },
        Mapper::CodemastersQuattro => MapperLimits {
            max_prg_kb: Some(256),
            max_chr_kb: Some(0),
        },
        Mapper::SuperRussianRoulette => MapperLimits {
            max_prg_kb: Some(512),
            max_chr_kb: Some(0),
        },
        Mapper::Unif158B => MapperLimits {
            max_prg_kb: Some(512),
            max_chr_kb: Some(0),
        },
        Mapper::Unrecognized | Mapper::Unknown { .. } => return None,
    })
}

/// Blank data (one byte value throughout) is reported as blank, never as an
/// overdump, for PRG and CHR alike.
pub proof fn law_blank_data_is_not_overdumped(d: Seq<u8>)
    requires
        spec_blank_fill_byte(d) is Some,
    ensures
        spec_prg_unique(d) is None,
        spec_chr_unique(Some(d)) is None,
{
}

/// An element of a concatenation is an element of one of its parts.
proof fn lemma_concat_contains<A>(a: Seq<A>, b: Seq<A>, x: A)
    ensures
        (a + b).contains(x) <==> a.contains(x) || b.contains(x),
{
    if (a + b).contains(x) {
        let i = choose|i: int| 0 <= i < (a + b).len() && (a + b)[i] == x;
        if i < a.len() {
            assert(a[i] == x);
        } else {
            assert(b[i - a.len()] == x);
        }
    }
    if a.contains(x) {
        let i = choose|i: int| 0 <= i < a.len() && a[i] == x;
        assert((a + b)[i] == x);
    }
    if b.contains(x) {
        let i = choose|i: int| 0 <= i < b.len() && b[i] == x;
        assert((a + b)[a.len() + i] == x);
    }
}

/// A one-element sequence holds exactly its element.
proof fn lemma_single_contains<A>(e: A, x: A)
    ensures
        seq![e].contains(x) <==> x == e,
{
    if x == e {
        assert(seq![e][0] == x);
    }
}

/// The board-limit warnings: PRG too large exactly when the mapper has a
/// PRG limit below the PRG size in KiB; CHR ROM unexpected exactly when the
/// mapper allows no CHR ROM and some is present; CHR too large exactly when
/// the mapper has a nonzero CHR limit below the CHR size. A mapper without
/// known limits gets none of them.
pub proof fn law_limit_warnings(
    prg: Seq<u8>,
    chr: Option<Seq<u8>>,
    m: Mapper,
    max_kb: u32,
    actual_kb: u32,
)
    ensures
        ({
            let ws = spec_analysis_warnings(prg, chr, m);
            let p = (prg.len() / 1024) as u32;
            let c = match chr {
                Some(d) => (d.len() / 1024) as u32,
                None => 0u32,
            };
            &&& ws.contains(AnalysisWarning::PrgTooLarge { mapper_max_kb: max_kb, actual_kb: actual_kb })
                <==> (spec_mapper_limits(m) matches Some((mp, _)) && max_kb == mp && actual_kb == p
                && p > mp)
            &&& ws.contains(AnalysisWarning::UnexpectedChrRom) <==> (spec_mapper_limits(m) matches Some(
                (_, mc),
            ) && mc == 0 && c > 0)
            &&& ws.contains(AnalysisWarning::ChrTooLarge { mapper_max_kb: max_kb, actual_kb: actual_kb })
                <==> (spec_mapper_limits(m) matches Some((_, mc)) && max_kb == mc && mc > 0
                && actual_kb == c && c > mc)
        }),
{
    let w_prg = match spec_blank_fill_byte(prg) {
        Some(f) => seq![AnalysisWarning::BlankPrg { fill_byte: f }],
        None => Seq::<AnalysisWarning>::empty(),
    };
    let w_chr = match chr {
        Some(c) => match spec_blank_fill_byte(c) {
            Some(f) => seq![AnalysisWarning::BlankChr { fill_byte: f }],
            None => Seq::<AnalysisWarning>::empty(),
        },
        None => Seq::<AnalysisWarning>::empty(),
    };
    let ws = spec_analysis_warnings(prg, chr, m);
    let pt = AnalysisWarning::PrgTooLarge { mapper_max_kb: max_kb, actual_kb: actual_kb };
    let un = AnalysisWarning::UnexpectedChrRom;
    let ct = AnalysisWarning::ChrTooLarge { mapper_max_kb: max_kb, actual_kb: actual_kb };
    let p = (prg.len() / 1024) as u32;
    let c = match chr {
        Some(d) => (d.len() / 1024) as u32,
        None => 0u32,
    };
    let head = w_prg + w_chr;
    assert(!head.contains(pt) && !head.contains(un) && !head.contains(ct)) by {
        lemma_concat_contains(w_prg, w_chr, pt);
        lemma_concat_contains(w_prg, w_chr, un);
        lemma_concat_contains(w_prg, w_chr, ct);
        match spec_blank_fill_byte(prg) {
            Some(f) => {
                lemma_single_contains(AnalysisWarning::BlankPrg { fill_byte: f }, pt);
                lemma_single_contains(AnalysisWarning::BlankPrg { fill_byte: f }, un);
                lemma_single_contains(AnalysisWarning::BlankPrg { fill_byte: f }, ct);
            },
            None => {},
        }
        match chr {
            Some(d) => match spec_blank_fill_byte(d) {
                Some(f) => {
                    lemma_single_contains(AnalysisWarning::BlankChr { fill_byte: f }, pt);
                    lemma_single_contains(AnalysisWarning::BlankChr { fill_byte: f }, un);
                    lemma_single_contains(AnalysisWarning::BlankChr { fill_byte: f }, ct);
                },
                None => {},
            },
            None => {},
        }
    }
    match spec_mapper_limits(m) {
        None => {
            assert(ws =~= head + Seq::<AnalysisWarning>::empty());
            lemma_concat_contains(head, Seq::<AnalysisWarning>::empty(), pt);
            lemma_concat_contains(head, Seq::<AnalysisWarning>::empty(), un);
            lemma_concat_contains(head, Seq::<AnalysisWarning>::empty(), ct);
        },
        Some((mp, mc)) => {
            let a = if p > mp {
                seq![AnalysisWarning::PrgTooLarge { mapper_max_kb: mp, actual_kb: p }]
            } else {
                Seq::<AnalysisWarning>::empty()
            };
            let b = if mc == 0 && c > 0 {
                seq![AnalysisWarning::UnexpectedChrRom]
            } else if mc > 0 && c > mc {
                seq![AnalysisWarning::ChrTooLarge { mapper_max_kb: mc, actual_kb: c }]
            } else {
                Seq::<AnalysisWarning>::empty()
            };
            assert(ws =~= head + (a + b));
            lemma_concat_contains(head, a + b, pt);
            lemma_concat_contains(head, a + b, un);
            lemma_concat_contains(head, a + b, ct);
            lemma_concat_contains(a, b, pt);
            lemma_concat_contains(a, b, un);
            lemma_concat_contains(a, b, ct);
            if p > mp {
                lemma_single_contains(AnalysisWarning::PrgTooLarge { mapper_max_kb: mp, actual_kb: p }, pt);
                lemma_single_contains(AnalysisWarning::PrgTooLarge { mapper_max_kb: mp, actual_kb: p }, un);
                lemma_single_contains(AnalysisWarning::PrgTooLarge { mapper_max_kb: mp, actual_kb: p }, ct);
            }
            if mc == 0 && c > 0 {
                lemma_single_contains(AnalysisWarning::UnexpectedChrRom, pt);
                lemma_single_contains(AnalysisWarning::UnexpectedChrRom, un);
                lemma_single_contains(AnalysisWarning::UnexpectedChrRom, ct);
            } else if mc > 0 && c > mc {
                lemma_single_contains(AnalysisWarning::ChrTooLarge { mapper_max_kb: mc, actual_kb: c }, pt);
                lemma_single_contains(AnalysisWarning::ChrTooLarge { mapper_max_kb: mc, actual_kb: c }, un);
                lemma_single_contains(AnalysisWarning::ChrTooLarge { mapper_max_kb: mc, actual_kb: c }, ct);
            }
        },
    }
}

} // verus!
