//! The few facts about Intel 8048 instructions that the cartridge analysis needs.

use vstd::prelude::*;

verus! {

/// `xxx00100`: JMP, with `xxx` the top three bits of the 11-bit target.
pub open spec fn spec_is_jmp(b: u8) -> bool {
    b % 32 == 0x04
}

/// `xxx10100`: CALL.
pub open spec fn spec_is_call(b: u8) -> bool {
    b % 32 == 0x14
}

/// The target of a JMP: the opcode's top three bits are address bits 10..8,
/// the operand is bits 7..0.
pub open spec fn spec_decode_jmp(opcode: u8, operand: u8) -> u16 {
    ((opcode / 32) as int * 256 + operand as int) as u16
}

pub fn decode_jmp(opcode: u8, operand: u8) -> (r: u16)
    ensures
        r == spec_decode_jmp(opcode, operand),
        r < 0x800,
{
    ((opcode / 32) as u16) * 256 + (operand as u16)
}

pub fn is_jmp(b: u8) -> (r: bool)
    ensures
        r == spec_is_jmp(b),
{
    b % 32 == 0x04
}

pub fn is_call(b: u8) -> (r: bool)
    ensures
        r == spec_is_call(b),
{
    b % 32 == 0x14
}

/// Conditional jumps (JZ, JNZ, JC, JNC, JBn, JTn, JNTn, JF0, JF1, JNI, JTF).
pub open spec fn is_cond_jump(op: u8) -> bool {
    op == 0x12 || op == 0x32 || op == 0x52 || op == 0x72 || op == 0x92 || op == 0xB2 || op == 0xD2
        || op == 0xF2 || op == 0x96 || op == 0xC6 || op == 0xF6 || op == 0xE6 || op == 0x76 || op
        == 0x86 || op == 0x36 || op == 0x26 || op == 0x56 || op == 0x46 || op == 0x16 || op == 0xB6
}

/// The length in bytes of an 8048 instruction: two for jumps, calls,
/// immediate operands and DJNZ, one for everything else.
pub open spec fn spec_instruction_len(op: u8) -> usize {
    if spec_is_jmp(op) || spec_is_call(op) {
        2
    } else if op == 0x03 || op == 0x23 || op == 0x43 || op == 0x53 || op == 0xD3 {
        2
    } else if 0xB0 <= op <= 0xBF {
        2
    } else if is_cond_jump(op) {
        2
    } else if 0xE8 <= op <= 0xEF {
        2
    } else {
        1
    }
}

pub fn instruction_len(op: u8) -> (r: usize)
    ensures
        r == spec_instruction_len(op),
        1 <= r <= 2,
{
    if is_jmp(op) || is_call(op) {
        return 2;
    }
    if op == 0x03 || op == 0x23 || op == 0x43 || op == 0x53 || op == 0xD3 {
        return 2;
    }
    if 0xB0 <= op && op <= 0xBF {
        return 2;
    }
    if op == 0x12 || op == 0x32 || op == 0x52 || op == 0x72 || op == 0x92 || op == 0xB2 || op
        == 0xD2 || op == 0xF2 || op == 0x96 || op == 0xC6 || op == 0xF6 || op == 0xE6 || op == 0x76
        || op == 0x86 || op == 0x36 || op == 0x26 || op == 0x56 || op == 0x46 || op == 0x16 || op
        == 0xB6 {
        return 2;
    }
    if 0xE8 <= op && op <= 0xEF {
        return 2;
    }
    1
}

/// What an instruction does to the accumulator.
#[derive(Clone, Copy, Debug, PartialEq, Eq, Structural)]
pub enum AccEffect {
    /// Reads or tests the current value of A.
    Reads,
    /// Overwrites A without reading it.
    Overwrites,
    /// Leaves A alone.
    Neutral,
}

/// Instructions that read A as a whole-opcode list.
pub open spec fn reads_acc_listed(op: u8) -> bool {
    op == 0x07 || op == 0x17 || op == 0x37 || op == 0x47 || op == 0x67 || op == 0x77 || op == 0xE7
        || op == 0xF7 || op == 0xA0 || op == 0xA1 || (0xA8 <= op <= 0xAF) || op == 0xC6 || op
        == 0x96 || op == 0xB3 || op == 0xA3 || op == 0x02 || op == 0x39 || op == 0x3A || op == 0x62
        || op == 0x57
}

/// Register-operand ALU groups that read A: `op & 0xF8` is one of
/// 0x60, 0x70, 0x58, 0x48, 0xD8.
pub open spec fn reads_acc_group(op: u8) -> bool {
    let g = op / 8;
    g == 0x60u8 / 8 || g == 0x70u8 / 8 || g == 0x58u8 / 8 || g == 0x48u8 / 8 || g == 0xD8u8 / 8
}

pub open spec fn spec_acc_effect(op: u8) -> AccEffect {
    if reads_acc_listed(op) {
        AccEffect::Reads
    } else if op == 0x03 || op == 0x43 || op == 0x53 || op == 0xD3 {
        AccEffect::Reads
    } else if reads_acc_group(op) {
        AccEffect::Reads
    } else if (0x28 <= op <= 0x2F) || op == 0x20 || op == 0x21 {
        AccEffect::Reads
    } else if op == 0x23 || op == 0x27 || op == 0x08 || op == 0x09 || op == 0x0A || op == 0xF0
        || op == 0xF1 || op == 0x42 || op == 0xC7 {
        AccEffect::Overwrites
    } else if 0xF8 <= op {
        AccEffect::Overwrites
    } else if spec_is_jmp(op) || spec_is_call(op) {
        AccEffect::Overwrites
    } else {
        AccEffect::Neutral
    }
}

pub fn acc_effect(op: u8) -> (r: AccEffect)
    ensures
        r == spec_acc_effect(op),
{
    if op == 0x07 || op == 0x17 || op == 0x37 || op == 0x47 || op == 0x67 || op == 0x77 || op
        == 0xE7 || op == 0xF7 || op == 0xA0 || op == 0xA1 || (0xA8 <= op && op <= 0xAF) || op
        == 0xC6 || op == 0x96 || op == 0xB3 || op == 0xA3 || op == 0x02 || op == 0x39 || op == 0x3A
        || op == 0x62 || op == 0x57 {
        return AccEffect::Reads;
    }
    if op == 0x03 || op == 0x43 || op == 0x53 || op == 0xD3 {
        return AccEffect::Reads;
    }
    let g = op / 8;
    if g == 0x60u8 / 8 || g == 0x70u8 / 8 || g == 0x58u8 / 8 || g == 0x48u8 / 8 || g == 0xD8u8 / 8 {
        return AccEffect::Reads;
    }
    if (0x28 <= op && op <= 0x2F) || op == 0x20 || op == 0x21 {
        return AccEffect::Reads;
    }
    if op == 0x23 || op == 0x27 || op == 0x08 || op == 0x09 || op == 0x0A || op == 0xF0 || op
        == 0xF1 || op == 0x42 || op == 0xC7 {
        return AccEffect::Overwrites;
    }
    if 0xF8 <= op {
        return AccEffect::Overwrites;
    }
    if is_jmp(op) || is_call(op) {
        return AccEffect::Overwrites;
    }
    AccEffect::Neutral
}

} // verus!
