use vstd::prelude::*;

verus! {

/// The value of a byte read as a two's complement number.
pub open spec fn signed8(x: u8) -> int {
    if x >= 128 {
        x - 256
    } else {
        x as int
    }
}

/// The value of a 16-bit word read as a two's complement number.
pub open spec fn signed16(x: u16) -> int {
    if x >= 0x8000 {
        x - 0x10000
    } else {
        x as int
    }
}

pub open spec fn weight(on: bool, w: int) -> int {
    if on {
        w
    } else {
        0
    }
}

/// A status register value: `kept` holds the bits the instruction leaves
/// alone (and zeros elsewhere); carry, zero, negative, overflow and half carry
/// are as given, and the sign flag is negative xor overflow.
pub open spec fn status(kept: u8, c: bool, z: bool, n: bool, v: bool, h: bool) -> u8 {
    (kept + weight(c, 1) + weight(z, 2) + weight(n, 4) + weight(v, 8) + weight(n != v, 16)
        + weight(h, 32)) as u8
}

pub open spec fn bit_if(on: bool, mask: u8) -> u8 {
    if on {
        mask
    } else {
        0u8
    }
}

/// The status register assembled bit by bit, as the instruction set manual
/// draws it.
pub open spec fn status_bits(kept: u8, c: bool, z: bool, n: bool, v: bool, h: bool) -> u8 {
    kept | bit_if(c, 1) | bit_if(z, 2) | bit_if(n, 4) | bit_if(v, 8) | bit_if(n != v, 16) | bit_if(
        h,
        32,
    )
}

fn assemble(kept: u8, c: bool, z: bool, n: bool, v: bool, h: bool) -> (r: u8)
    ensures
        r == status_bits(kept, c, z, n, v, h),
{
    kept | (if c { 1u8 } else { 0u8 }) | (if z { 2u8 } else { 0u8 }) | (if n { 4u8 } else { 0u8 }) | (if v { 8u8 } else { 0u8 }) | (if n != v { 16u8 } else { 0u8 }) | (if h { 32u8 } else { 0u8 })
}

// ---------------------------------------------------------------- addition

/// `d + r + carry`, truncated to a byte.
pub open spec fn add_result(d: u8, r: u8, carry: u8) -> u8 {
    ((d + r + carry) % 256) as u8
}

/// SREG after ADD (`carry` 0) or ADC (`carry` the old C): C is the carry out
/// of bit 7, H the carry out of bit 3, V the signed overflow; I and T stay.
pub open spec fn add_sreg(d: u8, r: u8, carry: u8, sreg: u8) -> u8 {
    let res = add_result(d, r, carry);
    let signed_sum = signed8(d) + signed8(r) + carry;
    status(
        sreg & 0xc0,
        d + r + carry >= 256,
        res == 0,
        res >= 128,
        signed_sum < -128 || signed_sum > 127,
        d % 16 + r % 16 + carry >= 16,
    )
}

/// The manual's boolean table for ADD and ADC.
pub open spec fn add_sreg_table(d: u8, r: u8, carry: u8, sreg: u8) -> u8 {
    let res = add_result(d, r, carry);
    let carries = d & r | r & !res | !res & d;
    status_bits(
        sreg & 0xc0,
        carries & 0x80 != 0,
        res == 0,
        res & 0x80 != 0,
        (d & r & !res | !d & !r & res) & 0x80 != 0,
        carries & 0x08 != 0,
    )
}

/// The boolean table of ADD and ADC computes the arithmetic flags.
pub proof fn lemma_add_table(d: u8, r: u8, carry: u8, sreg: u8)
    by (bit_vector)
    requires
        carry <= 1,
    ensures
        add_sreg_table(d, r, carry, sreg) == add_sreg(d, r, carry, sreg),
{
}

/// Result and SREG of ADD or ADC.
pub fn alu_add(d: u8, r: u8, carry: u8, sreg: u8) -> (out: (u8, u8))
    requires
        carry <= 1,
    ensures
        out.0 == add_result(d, r, carry),
        out.1 == add_sreg(d, r, carry, sreg),
{
    let res: u8 = ((d as u16 + r as u16 + carry as u16) % 256) as u8;
    let carries: u8 = d & r | r & !res | !res & d;
    proof {
        lemma_add_table(d, r, carry, sreg);
    }
    (
        res,
        assemble(
            sreg & 0xc0,
            carries & 0x80 != 0,
            res == 0,
            res & 0x80 != 0,
            (d & r & !res | !d & !r & res) & 0x80 != 0,
            carries & 0x08 != 0,
        ),
    )
}

// ------------------------------------------------------------- subtraction

/// `d - r - borrow`, truncated to a byte.
pub open spec fn sub_result(d: u8, r: u8, borrow: u8) -> u8 {
    ((d - r - borrow) % 256) as u8
}

/// SREG after a subtraction or comparison. C is the borrow into bit 7, H the
/// borrow into bit 3, V the signed overflow. With `chained` (SBC, SBCI, CPC)
/// Z stays set only if it was set before and the result is zero; I and T stay.
pub open spec fn sub_sreg(d: u8, r: u8, borrow: u8, chained: bool, sreg: u8) -> u8 {
    let res = sub_result(d, r, borrow);
    let signed_diff = signed8(d) - signed8(r) - borrow;
    status(
        sreg & 0xc0,
        d - r - borrow < 0,
        res == 0 && (!chained || sreg & 2 != 0),
        res >= 128,
        signed_diff < -128 || signed_diff > 127,
        d % 16 - r % 16 - borrow < 0,
    )
}

/// The manual's boolean table for SUB, SUBI, SBC, SBCI, CP, CPC and CPI.
pub open spec fn sub_sreg_table(d: u8, r: u8, borrow: u8, chained: bool, sreg: u8) -> u8 {
    let res = sub_result(d, r, borrow);
    let borrows = !d & r | r & res | res & !d;
    status_bits(
        sreg & 0xc0,
        borrows & 0x80 != 0,
        res == 0 && (!chained || sreg & 2 != 0),
        res & 0x80 != 0,
        (d & !r & !res | !d & r & res) & 0x80 != 0,
        borrows & 0x08 != 0,
    )
}

/// The boolean table of the subtractions computes the arithmetic flags.
pub proof fn lemma_sub_table(d: u8, r: u8, borrow: u8, chained: bool, sreg: u8)
    by (bit_vector)
    requires
        borrow <= 1,
    ensures
        sub_sreg_table(d, r, borrow, chained, sreg) == sub_sreg(d, r, borrow, chained, sreg),
{
}

/// Result and SREG of a subtraction or comparison.
pub fn alu_sub(d: u8, r: u8, borrow: u8, chained: bool, sreg: u8) -> (out: (u8, u8))
    requires
        borrow <= 1,
    ensures
        out.0 == sub_result(d, r, borrow),
        out.1 == sub_sreg(d, r, borrow, chained, sreg),
{
    let res: u8 = ((256 + d as u16 - r as u16 - borrow as u16) % 256) as u8;
    let borrows: u8 = !d & r | r & res | res & !d;
    proof {
        lemma_sub_table(d, r, borrow, chained, sreg);
    }
    (
        res,
        assemble(
            sreg & 0xc0,
            borrows & 0x80 != 0,
            res == 0 && (!chained || sreg & 2 != 0),
            res & 0x80 != 0,
            (d & !r & !res | !d & r & res) & 0x80 != 0,
            borrows & 0x08 != 0,
        ),
    )
}

// ------------------------------------------------------------------- logic

/// SREG after AND, ANDI, OR, ORI (SBR) or EOR with result `res`: V is
/// cleared, N and Z follow the result; C, H, T and I stay.
pub open spec fn logic_sreg(res: u8, sreg: u8) -> u8 {
    status(sreg & 0xe1, false, res == 0, res >= 128, false, false)
}

pub open spec fn logic_sreg_table(res: u8, sreg: u8) -> u8 {
    status_bits(sreg & 0xe1, false, res == 0, res & 0x80 != 0, false, false)
}

/// The boolean table of the logic instructions computes their flags.
pub proof fn lemma_logic_table(res: u8, sreg: u8)
    by (bit_vector)
    ensures
        logic_sreg_table(res, sreg) == logic_sreg(res, sreg),
{
}

/// SREG of a logic instruction whose result is `res`.
pub fn alu_logic(res: u8, sreg: u8) -> (out: u8)
    ensures
        out == logic_sreg(res, sreg),
{
    proof {
        lemma_logic_table(res, sreg);
    }
    assemble(sreg & 0xe1, false, res == 0, res & 0x80 != 0, false, false)
}

// ---------------------------------------------------------- one's complement

pub open spec fn com_result(d: u8) -> u8 {
    (255 - d) as u8
}

/// SREG after COM: C is set, V cleared, N and Z follow the result; H, T, I stay.
pub open spec fn com_sreg(d: u8, sreg: u8) -> u8 {
    status(sreg & 0xe0, true, com_result(d) == 0, com_result(d) >= 128, false, false)
}

pub open spec fn com_sreg_table(d: u8, sreg: u8) -> u8 {
    let res = com_result(d);
    status_bits(sreg & 0xe0, true, res == 0, res & 0x80 != 0, false, false)
}

/// The boolean table of COM computes its flags.
pub proof fn lemma_com_table(d: u8, sreg: u8)
    by (bit_vector)
    ensures
        com_sreg_table(d, sreg) == com_sreg(d, sreg),
        com_result(d) == !d,
{
}

/// Result and SREG of COM.
pub fn alu_com(d: u8, sreg: u8) -> (out: (u8, u8))
    ensures
        out.0 == com_result(d),
        out.1 == com_sreg(d, sreg),
{
    let res: u8 = 255 - d;
    proof {
        lemma_com_table(d, sreg);
    }
    (res, assemble(sreg & 0xe0, true, res == 0, res & 0x80 != 0, false, false))
}

// ---------------------------------------------------------- two's complement

pub open spec fn neg_result(d: u8) -> u8 {
    ((256 - d) % 256) as u8
}

/// SREG after NEG: the flags of `0 - d`; I and T stay.
pub open spec fn neg_sreg(d: u8, sreg: u8) -> u8 {
    let res = neg_result(d);
    status(sreg & 0xc0, d != 0, res == 0, res >= 128, d == 128, d % 16 != 0)
}

pub open spec fn neg_sreg_table(d: u8, sreg: u8) -> u8 {
    let res = neg_result(d);
    status_bits(
        sreg & 0xc0,
        res != 0,
        res == 0,
        res & 0x80 != 0,
        res == 0x80,
        (res | d) & 0x08 != 0,
    )
}

/// The boolean table of NEG computes the flags of `0 - d`.
pub proof fn lemma_neg_table(d: u8, sreg: u8)
    by (bit_vector)
    ensures
        neg_sreg_table(d, sreg) == neg_sreg(d, sreg),
        neg_sreg(d, sreg) == sub_sreg(0, d, 0, false, sreg),
        neg_result(d) == sub_result(0, d, 0),
{
}

/// Result and SREG of NEG.
pub fn alu_neg(d: u8, sreg: u8) -> (out: (u8, u8))
    ensures
        out.0 == neg_result(d),
        out.1 == neg_sreg(d, sreg),
{
    let res: u8 = ((256 - d as u16) % 256) as u8;
    proof {
        lemma_neg_table(d, sreg);
    }
    (
        res,
        assemble(
            sreg & 0xc0,
            res != 0,
            res == 0,
            res & 0x80 != 0,
            res == 0x80,
            (res | d) & 0x08 != 0,
        ),
    )
}

// ------------------------------------------------------ increment, decrement

pub open spec fn inc_result(d: u8) -> u8 {
    ((d + 1) % 256) as u8
}

/// SREG after INC: V is set when 127 became -128; C, H, T and I stay.
pub open spec fn inc_sreg(d: u8, sreg: u8) -> u8 {
    let res = inc_result(d);
    status(sreg & 0xe1, false, res == 0, res >= 128, signed8(d) + 1 > 127, false)
}

pub open spec fn inc_sreg_table(d: u8, sreg: u8) -> u8 {
    let res = inc_result(d);
    status_bits(sreg & 0xe1, false, res == 0, res & 0x80 != 0, res == 0x80, false)
}

/// The boolean table of INC computes its flags.
pub proof fn lemma_inc_table(d: u8, sreg: u8)
    by (bit_vector)
    ensures
        inc_sreg_table(d, sreg) == inc_sreg(d, sreg),
{
}

/// Result and SREG of INC.
pub fn alu_inc(d: u8, sreg: u8) -> (out: (u8, u8))
    ensures
        out.0 == inc_result(d),
        out.1 == inc_sreg(d, sreg),
{
    let res: u8 = ((d as u16 + 1) % 256) as u8;
    proof {
        lemma_inc_table(d, sreg);
    }
    (res, assemble(sreg & 0xe1, false, res == 0, res & 0x80 != 0, res == 0x80, false))
}

pub open spec fn dec_result(d: u8) -> u8 {
    ((d + 255) % 256) as u8
}

/// SREG after DEC: V is set when -128 became 127; C, H, T and I stay.
pub open spec fn dec_sreg(d: u8, sreg: u8) -> u8 {
    let res = dec_result(d);
    status(sreg & 0xe1, false, res == 0, res >= 128, signed8(d) - 1 < -128, false)
}

pub open spec fn dec_sreg_table(d: u8, sreg: u8) -> u8 {
    let res = dec_result(d);
    status_bits(sreg & 0xe1, false, res == 0, res & 0x80 != 0, res == 0x7f, false)
}

/// The boolean table of DEC computes its flags.
pub proof fn lemma_dec_table(d: u8, sreg: u8)
    by (bit_vector)
    ensures
        dec_sreg_table(d, sreg) == dec_sreg(d, sreg),
{
}

/// Result and SREG of DEC.
pub fn alu_dec(d: u8, sreg: u8) -> (out: (u8, u8))
    ensures
        out.0 == dec_result(d),
        out.1 == dec_sreg(d, sreg),
{
    let res: u8 = ((d as u16 + 255) % 256) as u8;
    proof {
        lemma_dec_table(d, sreg);
    }
    (res, assemble(sreg & 0xe1, false, res == 0, res & 0x80 != 0, res == 0x7f, false))
}

// ------------------------------------------------------------------ shifts

/// The result of a right shift by one whose new bit 7 is `top`.
pub open spec fn shift_result(d: u8, top: bool) -> u8 {
    (d / 2 + weight(top, 128)) as u8
}

/// SREG after ASR, LSR or ROR: C is the bit shifted out, N the new bit 7,
/// V is N xor C; H, T and I stay.
pub open spec fn shift_sreg(d: u8, top: bool, sreg: u8) -> u8 {
    let res = shift_result(d, top);
    status(sreg & 0xe0, d % 2 == 1, res == 0, top, top != (d % 2 == 1), false)
}

pub open spec fn shift_sreg_table(d: u8, top: bool, sreg: u8) -> u8 {
    let res = (d >> 1) | bit_if(top, 0x80);
    let c = d & 1 != 0;
    let n = res & 0x80 != 0;
    status_bits(sreg & 0xe0, c, res == 0, n, n != c, false)
}

/// The boolean table of the shifts computes their flags.
pub proof fn lemma_shift_table(d: u8, top: bool, sreg: u8)
    by (bit_vector)
    ensures
        shift_sreg_table(d, top, sreg) == shift_sreg(d, top, sreg),
        (d >> 1) | bit_if(top, 0x80) == shift_result(d, top),
{
}

/// Result and SREG of a right shift by one whose new bit 7 is `top`: for ASR
/// the old bit 7, for LSR zero, for ROR the old carry.
pub fn alu_shift(d: u8, top: bool, sreg: u8) -> (out: (u8, u8))
    ensures
        out.0 == shift_result(d, top),
        out.1 == shift_sreg(d, top, sreg),
{
    let res: u8 = (d >> 1) | (if top { 0x80u8 } else { 0u8 });
    let c = d & 1 != 0;
    let n = res & 0x80 != 0;
    proof {
        lemma_shift_table(d, top, sreg);
    }
    (res, assemble(sreg & 0xe0, c, res == 0, n, n != c, false))
}

// ------------------------------------------------------- word add, subtract

pub open spec fn adiw_result(value: u16, k: u16) -> u16 {
    ((value + k) % 0x10000) as u16
}

/// SREG after ADIW: C is the carry out of bit 15, V the signed overflow;
/// H, T and I stay.
pub open spec fn adiw_sreg(value: u16, k: u16, sreg: u8) -> u8 {
    let res = adiw_result(value, k);
    status(
        sreg & 0xe0,
        value + k >= 0x10000,
        res == 0,
        res >= 0x8000,
        signed16(value) + k > 0x7fff,
        false,
    )
}

pub open spec fn adiw_sreg_table(value: u16, k: u16, sreg: u8) -> u8 {
    let res = adiw_result(value, k);
    status_bits(
        sreg & 0xe0,
        !res & value & 0x8000 != 0,
        res == 0,
        res & 0x8000 != 0,
        !value & res & 0x8000 != 0,
        false,
    )
}

/// The boolean table of ADIW computes its flags.
pub proof fn lemma_adiw_table(value: u16, k: u16, sreg: u8)
    by (bit_vector)
    requires
        k < 64,
    ensures
        adiw_sreg_table(value, k, sreg) == adiw_sreg(value, k, sreg),
{
}

/// Result and SREG of ADIW.
pub fn alu_adiw(value: u16, k: u16, sreg: u8) -> (out: (u16, u8))
    requires
        k < 64,
    ensures
        out.0 == adiw_result(value, k),
        out.1 == adiw_sreg(value, k, sreg),
{
    let res: u16 = ((value as u32 + k as u32) % 0x10000) as u16;
    proof {
        lemma_adiw_table(value, k, sreg);
    }
    (
        res,
        assemble(
            sreg & 0xe0,
            !res & value & 0x8000 != 0,
            res == 0,
            res & 0x8000 != 0,
            !value & res & 0x8000 != 0,
            false,
        ),
    )
}

pub open spec fn sbiw_result(value: u16, k: u16) -> u16 {
    ((value - k) % 0x10000) as u16
}

/// SREG after SBIW: C is the borrow, V the signed overflow; H, T and I stay.
pub open spec fn sbiw_sreg(value: u16, k: u16, sreg: u8) -> u8 {
    let res = sbiw_result(value, k);
    status(
        sreg & 0xe0,
        value - k < 0,
        res == 0,
        res >= 0x8000,
        signed16(value) - k < -0x8000,
        false,
    )
}

pub open spec fn sbiw_sreg_table(value: u16, k: u16, sreg: u8) -> u8 {
    let res = sbiw_result(value, k);
    status_bits(
        sreg & 0xe0,
        res & !value & 0x8000 != 0,
        res == 0,
        res & 0x8000 != 0,
        value & !res & 0x8000 != 0,
        false,
    )
}

/// The boolean table of SBIW computes its flags.
pub proof fn lemma_sbiw_table(value: u16, k: u16, sreg: u8)
    by (bit_vector)
    requires
        k < 64,
    ensures
        sbiw_sreg_table(value, k, sreg) == sbiw_sreg(value, k, sreg),
{
}

/// Result and SREG of SBIW.
pub fn alu_sbiw(value: u16, k: u16, sreg: u8) -> (out: (u16, u8))
    requires
        k < 64,
    ensures
        out.0 == sbiw_result(value, k),
        out.1 == sbiw_sreg(value, k, sreg),
{
    let res: u16 = ((0x10000 + value as u32 - k as u32) % 0x10000) as u16;
    proof {
        lemma_sbiw_table(value, k, sreg);
    }
    (
        res,
        assemble(
            sreg & 0xe0,
            res & !value & 0x8000 != 0,
            res == 0,
            res & 0x8000 != 0,
            value & !res & 0x8000 != 0,
            false,
        ),
    )
}

// ---------------------------------------------------------------- multiply

pub open spec fn mul_result(d: u8, r: u8) -> u16 {
    (d * r) as u16
}

/// SREG after MUL: C is bit 15 of the product, Z tells a zero product; the
/// other flags stay.
pub open spec fn mul_sreg(d: u8, r: u8, sreg: u8) -> u8 {
    ((sreg & 0xfc) + weight(mul_result(d, r) >= 0x8000, 1) + weight(mul_result(d, r) == 0, 2)) as u8
}

pub open spec fn mul_sreg_table(d: u8, r: u8, sreg: u8) -> u8 {
    (sreg & 0xfc) | bit_if(mul_result(d, r) & 0x8000 != 0, 1) | bit_if(mul_result(d, r) == 0, 2)
}

/// The boolean table of MUL computes its flags.
pub proof fn lemma_mul_table(d: u8, r: u8, sreg: u8)
    by (bit_vector)
    ensures
        mul_sreg_table(d, r, sreg) == mul_sreg(d, r, sreg),
{
}

/// Product and SREG of MUL.
pub fn alu_mul(d: u8, r: u8, sreg: u8) -> (out: (u16, u8))
    ensures
        out.0 == mul_result(d, r),
        out.1 == mul_sreg(d, r, sreg),
{
    assert(d * r <= 255 * 255) by (nonlinear_arith)
        requires
            d <= 255,
            r <= 255,
    ;
    let res: u16 = d as u16 * r as u16;
    proof {
        lemma_mul_table(d, r, sreg);
    }
    (res, (sreg & 0xfc) | (if res & 0x8000 != 0 { 1u8 } else { 0u8 }) | (if res == 0 { 2u8 } else { 0u8 }))
}

} // verus!
