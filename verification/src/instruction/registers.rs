use vstd::prelude::*;
use crate::cpu::{lemma_same_frame_wf, CpuState, CPU, DATA_SIZE, SREG};
use crate::instruction::alu::{
    add_result, add_sreg, adiw_result, adiw_sreg, alu_add, alu_adiw, alu_com, alu_dec, alu_inc,
    alu_logic, alu_mul, alu_neg, alu_sbiw, alu_shift, alu_sub, com_result, com_sreg, dec_result,
    dec_sreg, inc_result, inc_sreg, logic_sreg, mul_result, mul_sreg, neg_result, neg_sreg,
    sbiw_result, sbiw_sreg, shift_result, shift_sreg, sub_result, sub_sreg,
};
use crate::instruction::instructions::Instruction;
use crate::instruction::operand::{
    bit3, bit3_of, imm6, imm6_of, imm8, imm8_of, movw_destination, movw_destination_of,
    movw_source, movw_source_of, pair, pair_of, rd4, rd4_of, rd5, rd5_of, rr5, rr5_of, sreg_bit,
    sreg_bit_of, lemma_operand_bounds,
};

verus! {

/// The instructions that work on registers and SREG alone and go on to the
/// next program word.
pub open spec fn is_register_op(insn: Instruction) -> bool {
    match insn {
        Instruction::ADC
        | Instruction::ADD
        | Instruction::ADIW
        | Instruction::AND
        | Instruction::ANDI
        | Instruction::ASR
        | Instruction::BCLR
        | Instruction::BLD
        | Instruction::BSET
        | Instruction::BST
        | Instruction::COM
        | Instruction::CP
        | Instruction::CPC
        | Instruction::CPI
        | Instruction::DEC
        | Instruction::EOR
        | Instruction::INC
        | Instruction::LDI
        | Instruction::LSR
        | Instruction::MOV
        | Instruction::MOVW
        | Instruction::MUL
        | Instruction::NEG
        | Instruction::OR
        | Instruction::ROR
        | Instruction::SBC
        | Instruction::SBCI
        | Instruction::SBIW
        | Instruction::SBR
        | Instruction::SUB
        | Instruction::SUBI => true,
        _ => false,
    }
}

proof fn lemma_carry_bit(sreg: u8)
    by (bit_vector)
    ensures
        sreg & 1 <= 1,
{
}

impl CpuState {
    /// The carry flag as a number.
    pub open spec fn carry(self) -> u8 {
        self.sreg() & 1
    }

    /// An instruction with a destination register `d` and a second operand,
    /// which is a register's value or an immediate. Additions, subtractions
    /// and logic operations store their result in `d` and set the flags;
    /// comparisons only set the flags of the subtraction; MOV and LDI only
    /// store the operand.
    pub open spec fn binary_op(self, insn: Instruction, d: int, operand: u8) -> CpuState {
        let dv = self.data[d];
        let sreg = self.sreg();
        let carry = self.carry();
        match insn {
            Instruction::ADD => self.with_data(d, add_result(dv, operand, 0)).with_sreg(
                add_sreg(dv, operand, 0, sreg),
            ),
            Instruction::ADC => self.with_data(d, add_result(dv, operand, carry)).with_sreg(
                add_sreg(dv, operand, carry, sreg),
            ),
            Instruction::SUB | Instruction::SUBI => self.with_data(
                d,
                sub_result(dv, operand, 0),
            ).with_sreg(sub_sreg(dv, operand, 0, false, sreg)),
            Instruction::SBC | Instruction::SBCI => self.with_data(
                d,
                sub_result(dv, operand, carry),
            ).with_sreg(sub_sreg(dv, operand, carry, true, sreg)),
            Instruction::CP | Instruction::CPI => self.with_sreg(
                sub_sreg(dv, operand, 0, false, sreg),
            ),
            Instruction::CPC => self.with_sreg(sub_sreg(dv, operand, carry, true, sreg)),
            Instruction::AND | Instruction::ANDI => self.with_data(d, dv & operand).with_sreg(
                logic_sreg(dv & operand, sreg),
            ),
            Instruction::OR | Instruction::SBR => self.with_data(d, dv | operand).with_sreg(
                logic_sreg(dv | operand, sreg),
            ),
            Instruction::EOR => self.with_data(d, dv ^ operand).with_sreg(
                logic_sreg(dv ^ operand, sreg),
            ),
            Instruction::MOV | Instruction::LDI => self.with_data(d, operand),
            _ => self,
        }
    }

    /// An instruction that replaces register `d` by a function of itself: the
    /// complements, increment, decrement, and the shifts right by one, of
    /// which ASR keeps bit 7, LSR clears it and ROR moves the carry into it.
    pub open spec fn unary_op(self, insn: Instruction, d: int) -> CpuState {
        let dv = self.data[d];
        let sreg = self.sreg();
        match insn {
            Instruction::COM => self.with_data(d, com_result(dv)).with_sreg(com_sreg(dv, sreg)),
            Instruction::NEG => self.with_data(d, neg_result(dv)).with_sreg(neg_sreg(dv, sreg)),
            Instruction::INC => self.with_data(d, inc_result(dv)).with_sreg(inc_sreg(dv, sreg)),
            Instruction::DEC => self.with_data(d, dec_result(dv)).with_sreg(dec_sreg(dv, sreg)),
            Instruction::ASR => self.with_data(d, shift_result(dv, dv >= 128)).with_sreg(
                shift_sreg(dv, dv >= 128, sreg),
            ),
            Instruction::LSR => self.with_data(d, shift_result(dv, false)).with_sreg(
                shift_sreg(dv, false, sreg),
            ),
            Instruction::ROR => self.with_data(d, shift_result(dv, self.carry() != 0)).with_sreg(
                shift_sreg(dv, self.carry() != 0, sreg),
            ),
            _ => self,
        }
    }

    /// ADIW and SBIW: the register pair at `pair` plus or minus `k`, in one
    /// more cycle.
    pub open spec fn word_op(self, insn: Instruction, pair: int, k: u16) -> CpuState {
        let value = self.word(pair);
        let sreg = self.sreg();
        match insn {
            Instruction::ADIW => self.with_word(pair, adiw_result(value, k)).with_sreg(
                adiw_sreg(value, k, sreg),
            ).with_cycles((self.cycles + 1) as u32),
            Instruction::SBIW => self.with_word(pair, sbiw_result(value, k)).with_sreg(
                sbiw_sreg(value, k, sreg),
            ).with_cycles((self.cycles + 1) as u32),
            _ => self,
        }
    }

    /// MUL: the product of two registers goes to r1:r0, in one more cycle.
    pub open spec fn mul_op(self, d: int, r: int) -> CpuState {
        self.with_word(0, mul_result(self.data[d], self.data[r])).with_sreg(
            mul_sreg(self.data[d], self.data[r], self.sreg()),
        ).with_cycles((self.cycles + 1) as u32)
    }

    /// BSET, BCLR, BLD and BST: one bit of SREG is set or cleared, or moves
    /// between a register and the T flag.
    pub open spec fn bit_op(self, insn: Instruction, opcode: u16) -> CpuState {
        let d = rd5(opcode) as int;
        let b = bit3(opcode);
        match insn {
            Instruction::BCLR => self.with_sreg(self.sreg() & !(1u8 << sreg_bit(opcode))),
            Instruction::BSET => self.with_sreg(self.sreg() | (1u8 << sreg_bit(opcode))),
            Instruction::BLD => self.with_data(
                d,
                (!(1u8 << b) & self.data[d]) | (((self.sreg() >> 6) & 1) << b),
            ),
            Instruction::BST => self.with_sreg(
                (self.sreg() & 0xbf) | (if (self.data[d] >> b) & 1 != 0 {
                    0x40u8
                } else {
                    0u8
                }),
            ),
            _ => self,
        }
    }

    /// MOVW: a register pair is copied, low byte first.
    pub open spec fn movw_op(self, d: int, r: int) -> CpuState {
        let low = self.with_data(d, self.data[r]);
        low.with_data(d + 1, low.data[r + 1])
    }

    /// What a register instruction does to the CPU.
    pub open spec fn register_op(self, insn: Instruction, opcode: u16) -> CpuState {
        match insn {
            Instruction::ADC
            | Instruction::ADD
            | Instruction::AND
            | Instruction::CP
            | Instruction::CPC
            | Instruction::EOR
            | Instruction::MOV
            | Instruction::OR
            | Instruction::SBC
            | Instruction::SUB => self.binary_op(
                insn,
                rd5(opcode) as int,
                self.data[rr5(opcode) as int],
            ),
            Instruction::ANDI
            | Instruction::CPI
            | Instruction::LDI
            | Instruction::SBCI
            | Instruction::SBR
            | Instruction::SUBI => self.binary_op(insn, rd4(opcode) as int, imm8(opcode)),
            Instruction::ASR
            | Instruction::COM
            | Instruction::DEC
            | Instruction::INC
            | Instruction::LSR
            | Instruction::NEG
            | Instruction::ROR => self.unary_op(insn, rd5(opcode) as int),
            Instruction::ADIW | Instruction::SBIW => self.word_op(
                insn,
                pair(opcode) as int,
                imm6(opcode),
            ),
            Instruction::MUL => self.mul_op(rd5(opcode) as int, rr5(opcode) as int),
            Instruction::BCLR | Instruction::BLD | Instruction::BSET | Instruction::BST => self.bit_op(
                insn,
                opcode,
            ),
            Instruction::MOVW => self.movw_op(
                movw_destination(opcode) as int,
                movw_source(opcode) as int,
            ),
            _ => self,
        }
    }
}

impl CPU {
    fn binary_op(&mut self, insn: Instruction, d: u16, operand: u8)
        requires
            old(self)@.data.len() == DATA_SIZE,
            d < 32,
        ensures
            final(self)@ == old(self)@.binary_op(insn, d as int, operand),
    {
        let dv = self.get_data(d);
        let sreg = self.sreg();
        let carry = sreg & 1;
        proof {
            lemma_carry_bit(sreg);
        }
        match insn {
            Instruction::ADD => {
                let (res, flags) = alu_add(dv, operand, 0, sreg);
                self.set_data(d, res);
                self.set_sreg(flags);
            },
            Instruction::ADC => {
                let (res, flags) = alu_add(dv, operand, carry, sreg);
                self.set_data(d, res);
                self.set_sreg(flags);
            },
            Instruction::SUB | Instruction::SUBI => {
                let (res, flags) = alu_sub(dv, operand, 0, false, sreg);
                self.set_data(d, res);
                self.set_sreg(flags);
            },
            Instruction::SBC | Instruction::SBCI => {
                let (res, flags) = alu_sub(dv, operand, carry, true, sreg);
                self.set_data(d, res);
                self.set_sreg(flags);
            },
            Instruction::CP | Instruction::CPI => {
                let (_res, flags) = alu_sub(dv, operand, 0, false, sreg);
                self.set_sreg(flags);
            },
            Instruction::CPC => {
                let (_res, flags) = alu_sub(dv, operand, carry, true, sreg);
                self.set_sreg(flags);
            },
            Instruction::AND | Instruction::ANDI => {
                let res = dv & operand;
                self.set_data(d, res);
                self.set_sreg(alu_logic(res, sreg));
            },
            Instruction::OR | Instruction::SBR => {
                let res = dv | operand;
                self.set_data(d, res);
                self.set_sreg(alu_logic(res, sreg));
            },
            Instruction::EOR => {
                let res = dv ^ operand;
                self.set_data(d, res);
                self.set_sreg(alu_logic(res, sreg));
            },
            Instruction::MOV | Instruction::LDI => {
                self.set_data(d, operand);
            },
            _ => {},
        }
    }

    fn unary_op(&mut self, insn: Instruction, d: u16)
        requires
            old(self)@.data.len() == DATA_SIZE,
            d < 32,
        ensures
            final(self)@ == old(self)@.unary_op(insn, d as int),
    {
        let dv = self.get_data(d);
        let sreg = self.sreg();
        match insn {
            Instruction::COM => {
                let (res, flags) = alu_com(dv, sreg);
                self.set_data(d, res);
                self.set_sreg(flags);
            },
            Instruction::NEG => {
                let (res, flags) = alu_neg(dv, sreg);
                self.set_data(d, res);
                self.set_sreg(flags);
            },
            Instruction::INC => {
                let (res, flags) = alu_inc(dv, sreg);
                self.set_data(d, res);
                self.set_sreg(flags);
            },
            Instruction::DEC => {
                let (res, flags) = alu_dec(dv, sreg);
                self.set_data(d, res);
                self.set_sreg(flags);
            },
            Instruction::ASR => {
                let (res, flags) = alu_shift(dv, dv >= 128, sreg);
                self.set_data(d, res);
                self.set_sreg(flags);
            },
            Instruction::LSR => {
                let (res, flags) = alu_shift(dv, false, sreg);
                self.set_data(d, res);
                self.set_sreg(flags);
            },
            Instruction::ROR => {
                let (res, flags) = alu_shift(dv, sreg & 1 != 0, sreg);
                self.set_data(d, res);
                self.set_sreg(flags);
            },
            _ => {},
        }
    }

    fn word_op(&mut self, insn: Instruction, pair: u16, k: u16)
        requires
            old(self)@.data.len() == DATA_SIZE,
            pair < 31,
            k < 64,
            old(self)@.cycles < u32::MAX,
        ensures
            final(self)@ == old(self)@.word_op(insn, pair as int, k),
    {
        let value = self.get_data_u16(pair);
        let sreg = self.sreg();
        match insn {
            Instruction::ADIW => {
                let (res, flags) = alu_adiw(value, k, sreg);
                self.set_data_u16(pair, res);
                self.set_sreg(flags);
                self.cycles = self.cycles + 1;
            },
            Instruction::SBIW => {
                let (res, flags) = alu_sbiw(value, k, sreg);
                self.set_data_u16(pair, res);
                self.set_sreg(flags);
                self.cycles = self.cycles + 1;
            },
            _ => {},
        }
    }

    fn mul_op(&mut self, d: u16, r: u16)
        requires
            old(self)@.data.len() == DATA_SIZE,
            d < 32,
            r < 32,
            old(self)@.cycles < u32::MAX,
        ensures
            final(self)@ == old(self)@.mul_op(d as int, r as int),
    {
        let (res, flags) = alu_mul(self.get_data(d), self.get_data(r), self.sreg());
        self.set_data_u16(0, res);
        self.set_sreg(flags);
        self.cycles = self.cycles + 1;
    }

    fn bit_op(&mut self, insn: Instruction, opcode: u16)
        requires
            old(self)@.data.len() == DATA_SIZE,
        ensures
            final(self)@ == old(self)@.bit_op(insn, opcode),
    {
        let d = rd5_of(opcode);
        let b = bit3_of(opcode);
        let sreg = self.sreg();
        match insn {
            Instruction::BCLR => {
                self.set_sreg(sreg & !(1u8 << sreg_bit_of(opcode)));
            },
            Instruction::BSET => {
                self.set_sreg(sreg | (1u8 << sreg_bit_of(opcode)));
            },
            Instruction::BLD => {
                let value: u8 = (!(1u8 << b) & self.get_data(d)) | (((sreg >> 6) & 1) << b);
                self.set_data(d, value);
            },
            Instruction::BST => {
                let t: u8 = if (self.get_data(d) >> b) & 1 != 0 {
                    0x40
                } else {
                    0
                };
                self.set_sreg((sreg & 0xbf) | t);
            },
            _ => {},
        }
    }

    fn movw_op(&mut self, d: u16, r: u16)
        requires
            old(self)@.data.len() == DATA_SIZE,
            d <= 30,
            r <= 30,
        ensures
            final(self)@ == old(self)@.movw_op(d as int, r as int),
    {
        let low = self.get_data(r);
        self.set_data(d, low);
        let high = self.get_data(r + 1);
        self.set_data(d + 1, high);
    }

    /// Executes a register instruction.
    pub fn register_op(&mut self, insn: Instruction, opcode: u16)
        requires
            old(self)@.data.len() == DATA_SIZE,
            old(self)@.cycles < u32::MAX,
        ensures
            final(self)@ == old(self)@.register_op(insn, opcode),
            old(self)@.cycles <= final(self)@.cycles <= old(self)@.cycles + 1,
            old(self)@.same_frame(final(self)@),
            old(self)@.wf() ==> final(self)@.wf(),
    {
        proof {
            lemma_operand_bounds(opcode);
            if old(self)@.wf() {
                assert(old(self)@.same_frame(old(self)@.register_op(insn, opcode)));
                lemma_same_frame_wf(old(self)@, old(self)@.register_op(insn, opcode));
            }
        }
        match insn {
            Instruction::ADC
            | Instruction::ADD
            | Instruction::AND
            | Instruction::CP
            | Instruction::CPC
            | Instruction::EOR
            | Instruction::MOV
            | Instruction::OR
            | Instruction::SBC
            | Instruction::SUB => {
                let operand = self.get_data(rr5_of(opcode));
                self.binary_op(insn, rd5_of(opcode), operand);
            },
            Instruction::ANDI
            | Instruction::CPI
            | Instruction::LDI
            | Instruction::SBCI
            | Instruction::SBR
            | Instruction::SUBI => {
                self.binary_op(insn, rd4_of(opcode), imm8_of(opcode));
            },
            Instruction::ASR
            | Instruction::COM
            | Instruction::DEC
            | Instruction::INC
            | Instruction::LSR
            | Instruction::NEG
            | Instruction::ROR => {
                self.unary_op(insn, rd5_of(opcode));
            },
            Instruction::ADIW | Instruction::SBIW => {
                self.word_op(insn, pair_of(opcode), imm6_of(opcode));
            },
            Instruction::MUL => {
                self.mul_op(rd5_of(opcode), rr5_of(opcode));
            },
            Instruction::BCLR | Instruction::BLD | Instruction::BSET | Instruction::BST => {
                self.bit_op(insn, opcode);
            },
            Instruction::MOVW => {
                self.movw_op(movw_destination_of(opcode), movw_source_of(opcode));
            },
            _ => {},
        }
    }
}

} // verus!
