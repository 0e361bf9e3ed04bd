use vstd::prelude::*;
use crate::instruction::instructions::displacement;

verus! {

/// The destination register `ddddd` of a one or two register instruction.
pub open spec fn rd5(opcode: u16) -> u16 {
    (opcode & 0x1f0) >> 4
}

/// The source register `rrrrr` of a two register instruction.
pub open spec fn rr5(opcode: u16) -> u16 {
    (opcode & 0xf) | ((opcode & 0x200) >> 5)
}

/// The destination register `dddd` of an instruction with an immediate
/// operand: one of r16..r31.
pub open spec fn rd4(opcode: u16) -> u16 {
    (((opcode & 0xf0) >> 4) + 16) as u16
}

/// The immediate operand `KKKK KKKK`.
pub open spec fn imm8(opcode: u16) -> u8 {
    ((opcode & 0xf) | ((opcode & 0xf00) >> 4)) as u8
}

/// The register pair `dd` of ADIW and SBIW: r24, r26, r28 or r30.
pub open spec fn pair(opcode: u16) -> u16 {
    (2 * ((opcode & 0x30) >> 4) + 24) as u16
}

/// The immediate operand `KK KKKK` of ADIW and SBIW.
pub open spec fn imm6(opcode: u16) -> u16 {
    (opcode & 0xf) | ((opcode & 0xc0) >> 2)
}

/// The data address of the I/O register `AAAAA` of SBI, CBI, SBIS and SBIC.
pub open spec fn io5(opcode: u16) -> u16 {
    (((opcode & 0xf8) >> 3) + 32) as u16
}

/// The data address of the I/O register `AAAAAA` of IN and OUT.
pub open spec fn io6(opcode: u16) -> u16 {
    (((opcode & 0xf) | ((opcode & 0x600) >> 5)) + 32) as u16
}

/// The bit number `bbb` of a bit instruction.
pub open spec fn bit3(opcode: u16) -> u8 {
    (opcode & 7) as u8
}

/// The SREG bit `sss` of BSET and BCLR.
pub open spec fn sreg_bit(opcode: u16) -> u8 {
    ((opcode & 0x70) >> 4) as u8
}

/// The source register pair of MOVW.
pub open spec fn movw_source(opcode: u16) -> u16 {
    (2 * (opcode & 0xf)) as u16
}

/// The destination register pair of MOVW.
pub open spec fn movw_destination(opcode: u16) -> u16 {
    (2 * ((opcode & 0xf0) >> 4)) as u16
}

/// The signed 7-bit offset of a conditional branch.
pub open spec fn branch_offset(opcode: u16) -> int {
    ((opcode & 0x1f8) >> 3) - (if opcode & 0x200 != 0 {
        0x40int
    } else {
        0int
    })
}

/// The signed 12-bit offset of RJMP and RCALL.
pub open spec fn relative_offset(opcode: u16) -> int {
    (opcode & 0x7ff) - (if opcode & 0x800 != 0 {
        0x800int
    } else {
        0int
    })
}

/// The 22-bit target of JMP and CALL, whose low 16 bits are the second word.
pub open spec fn long_target(opcode: u16, second: u16) -> u32 {
    second as u32 | ((opcode & 1) as u32) << 16 | ((opcode & 0x1f0) as u32) << 13
}

/// The ranges of the operand fields.
pub proof fn lemma_operand_bounds(opcode: u16)
    by (bit_vector)
    ensures
        rd5(opcode) < 32,
        rr5(opcode) < 32,
        (opcode & 0xf0) >> 4 < 16,
        (opcode & 0xf) | ((opcode & 0xf00) >> 4) < 256,
        (opcode & 0x30) >> 4 < 4,
        imm6(opcode) < 64,
        (opcode & 0xf8) >> 3 < 32,
        (opcode & 0xf) | ((opcode & 0x600) >> 5) < 64,
        opcode & 7 < 8,
        (opcode & 0x70) >> 4 < 8,
        opcode & 0xf < 16,
        (opcode & 0x1f8) >> 3 < 64,
        opcode & 0x7ff < 2048,
        displacement(opcode) < 64,
{
}

pub fn rd5_of(opcode: u16) -> (r: u16)
    ensures
        r == rd5(opcode),
        r < 32,
{
    proof {
        lemma_operand_bounds(opcode);
    }
    (opcode & 0x1f0) >> 4
}

pub fn rr5_of(opcode: u16) -> (r: u16)
    ensures
        r == rr5(opcode),
        r < 32,
{
    proof {
        lemma_operand_bounds(opcode);
    }
    (opcode & 0xf) | ((opcode & 0x200) >> 5)
}

pub fn rd4_of(opcode: u16) -> (r: u16)
    ensures
        r == rd4(opcode),
        16 <= r < 32,
{
    proof {
        lemma_operand_bounds(opcode);
    }
    ((opcode & 0xf0) >> 4) + 16
}

pub fn imm8_of(opcode: u16) -> (k: u8)
    ensures
        k == imm8(opcode),
{
    proof {
        lemma_operand_bounds(opcode);
    }
    ((opcode & 0xf) | ((opcode & 0xf00) >> 4)) as u8
}

pub fn pair_of(opcode: u16) -> (r: u16)
    ensures
        r == pair(opcode),
        24 <= r <= 30,
{
    proof {
        lemma_operand_bounds(opcode);
    }
    2 * ((opcode & 0x30) >> 4) + 24
}

pub fn imm6_of(opcode: u16) -> (k: u16)
    ensures
        k == imm6(opcode),
        k < 64,
{
    proof {
        lemma_operand_bounds(opcode);
    }
    (opcode & 0xf) | ((opcode & 0xc0) >> 2)
}

pub fn io5_of(opcode: u16) -> (a: u16)
    ensures
        a == io5(opcode),
        32 <= a < 64,
{
    proof {
        lemma_operand_bounds(opcode);
    }
    ((opcode & 0xf8) >> 3) + 32
}

pub fn io6_of(opcode: u16) -> (a: u16)
    ensures
        a == io6(opcode),
        32 <= a < 96,
{
    proof {
        lemma_operand_bounds(opcode);
    }
    ((opcode & 0xf) | ((opcode & 0x600) >> 5)) + 32
}

pub fn bit3_of(opcode: u16) -> (b: u8)
    ensures
        b == bit3(opcode),
        b < 8,
{
    proof {
        lemma_operand_bounds(opcode);
    }
    (opcode & 7) as u8
}

pub fn sreg_bit_of(opcode: u16) -> (b: u8)
    ensures
        b == sreg_bit(opcode),
        b < 8,
{
    proof {
        lemma_operand_bounds(opcode);
    }
    ((opcode & 0x70) >> 4) as u8
}

pub fn movw_source_of(opcode: u16) -> (r: u16)
    ensures
        r == movw_source(opcode),
        r <= 30,
{
    proof {
        lemma_operand_bounds(opcode);
    }
    2 * (opcode & 0xf)
}

pub fn movw_destination_of(opcode: u16) -> (r: u16)
    ensures
        r == movw_destination(opcode),
        r <= 30,
{
    proof {
        lemma_operand_bounds(opcode);
    }
    2 * ((opcode & 0xf0) >> 4)
}

pub fn branch_offset_of(opcode: u16) -> (k: i64)
    ensures
        k == branch_offset(opcode),
        -64 <= k < 64,
{
    proof {
        lemma_operand_bounds(opcode);
    }
    let low: i64 = ((opcode & 0x1f8) >> 3) as i64;
    if opcode & 0x200 != 0 {
        low - 0x40
    } else {
        low
    }
}

pub fn relative_offset_of(opcode: u16) -> (k: i64)
    ensures
        k == relative_offset(opcode),
        -2048 <= k < 2048,
{
    proof {
        lemma_operand_bounds(opcode);
    }
    let low: i64 = (opcode & 0x7ff) as i64;
    if opcode & 0x800 != 0 {
        low - 0x800
    } else {
        low
    }
}

pub fn long_target_of(opcode: u16, second: u16) -> (k: u32)
    ensures
        k == long_target(opcode, second),
{
    second as u32 | ((opcode & 1) as u32) << 16 | ((opcode & 0x1f0) as u32) << 13
}

} // verus!
