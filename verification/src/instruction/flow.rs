use vstd::prelude::*;
use crate::cpu::{CpuState, CPU, DATA_SIZE, SP};
use crate::instruction::instructions::{is_two_word, is_two_word_instruction, Instruction};
use crate::instruction::operand::{
    bit3, bit3_of, branch_offset, branch_offset_of, long_target, long_target_of, rd5, rd5_of,
    relative_offset, relative_offset_of, rr5, rr5_of,
};

verus! {

/// The instructions that choose the next program word: jumps, calls,
/// returns, branches, and the skips that test registers.
pub open spec fn is_flow_op(insn: Instruction) -> bool {
    match insn {
        Instruction::BRBC
        | Instruction::BRBS
        | Instruction::CALL
        | Instruction::CPSE
        | Instruction::ICALL
        | Instruction::IJMP
        | Instruction::JMP
        | Instruction::RCALL
        | Instruction::RET
        | Instruction::RETI
        | Instruction::RJMP
        | Instruction::SBRC
        | Instruction::SBRS => true,
        _ => false,
    }
}

impl CpuState {
    /// The program word behind the one being executed.
    pub open spec fn second_word(self) -> u16 {
        self.prog_mem[self.pc + 1]
    }

    /// Words to skip: two if the next instruction has two words, else one.
    pub open spec fn skip_size(self) -> int {
        if is_two_word(self.second_word()) {
            2
        } else {
            1
        }
    }

    /// With `taken`, the next instruction is skipped, which costs one cycle
    /// per skipped word. The second component is where execution goes on.
    pub open spec fn skip_if(self, taken: bool) -> (CpuState, int) {
        if taken {
            (
                self.with_cycles((self.cycles + self.skip_size()) as u32),
                self.pc + 1 + self.skip_size(),
            )
        } else {
            (self, self.pc + 1)
        }
    }

    /// The stack pointer after a return address has been popped.
    pub open spec fn popped_sp(self) -> u16 {
        self.sp().wrapping_add(self.return_size())
    }

    /// The bytes of a return address on the stack lie in the data space.
    pub open spec fn pop_defined(self) -> bool {
        let top = self.popped_sp();
        &&& top < self.data.len()
        &&& top.wrapping_sub(1) < self.data.len()
        &&& self.pc_22_bits ==> top.wrapping_sub(2) < self.data.len()
    }

    /// Pops a return address: the stack pointer moves up past it; the
    /// address is read low byte first from the top down.
    pub open spec fn pop_return(self) -> (CpuState, int) {
        let top = self.popped_sp();
        let moved = self.with_word(SP as int, top);
        (
            moved,
            moved.data[top as int] + 256 * moved.data[top.wrapping_sub(1) as int] + (
            if self.pc_22_bits {
                65536 * moved.data[top.wrapping_sub(2) as int]
            } else {
                0
            }),
        )
    }

    /// Whether a conditional branch or skip is taken.
    pub open spec fn flow_taken(self, insn: Instruction, opcode: u16) -> bool {
        match insn {
            Instruction::BRBC => self.sreg() & (1u8 << bit3(opcode)) == 0,
            Instruction::BRBS => self.sreg() & (1u8 << bit3(opcode)) != 0,
            Instruction::CPSE => self.data[rd5(opcode) as int] == self.data[rr5(opcode) as int],
            Instruction::SBRC => self.data[rd5(opcode) as int] & (1u8 << bit3(opcode)) == 0,
            Instruction::SBRS => self.data[rd5(opcode) as int] & (1u8 << bit3(opcode)) != 0,
            _ => true,
        }
    }

    /// The flow instruction can be executed: a second word it reads lies in
    /// the program, and the stack bytes it touches lie in the data space.
    pub open spec fn flow_defined(self, insn: Instruction, opcode: u16) -> bool {
        match insn {
            Instruction::CALL => self.pc + 1 < self.prog_mem.len() && self.push_defined(),
            Instruction::JMP => self.pc + 1 < self.prog_mem.len(),
            Instruction::RCALL | Instruction::ICALL => self.push_defined(),
            Instruction::RET | Instruction::RETI => self.pop_defined(),
            Instruction::CPSE | Instruction::SBRC | Instruction::SBRS => self.flow_taken(
                insn,
                opcode,
            ) ==> self.pc + 1 < self.prog_mem.len(),
            _ => true,
        }
    }

    /// What a flow instruction does to the CPU, and the program word at
    /// which execution goes on (before it is wrapped to the program's size).
    /// Branches and relative jumps count from the word behind the
    /// instruction; calls push the address of the word behind them.
    pub open spec fn flow_op(self, insn: Instruction, opcode: u16) -> (CpuState, int) {
        let wide: int = if self.pc_22_bits {
            1
        } else {
            0
        };
        match insn {
            Instruction::BRBC | Instruction::BRBS => if self.flow_taken(insn, opcode) {
                (
                    self.with_cycles((self.cycles + 1) as u32),
                    self.pc + 1 + branch_offset(opcode),
                )
            } else {
                (self, self.pc + 1)
            },
            Instruction::CALL => (
                self.push_return((self.pc + 2) as u32).with_cycles(
                    (self.cycles + 3 + wide) as u32,
                ),
                long_target(opcode, self.second_word()) as int,
            ),
            Instruction::ICALL => {
                let pushed = self.push_return((self.pc + 1) as u32);
                (pushed.with_cycles((self.cycles + 2 + wide) as u32), pushed.word(30) as int)
            },
            Instruction::IJMP => (self.with_cycles((self.cycles + 1) as u32), self.word(30) as int),
            Instruction::JMP => (
                self.with_cycles((self.cycles + 2) as u32),
                long_target(opcode, self.second_word()) as int,
            ),
            Instruction::RCALL => (
                self.push_return((self.pc + 1) as u32).with_cycles(
                    (self.cycles + 2 + wide) as u32,
                ),
                self.pc + 1 + relative_offset(opcode),
            ),
            Instruction::RET => {
                let (popped, target) = self.pop_return();
                (popped.with_cycles((self.cycles + 3 + wide) as u32), target)
            },
            Instruction::RETI => {
                let (popped, target) = self.pop_return();
                (
                    popped.with_cycles((self.cycles + 3 + wide) as u32).with_sreg(
                        popped.sreg() | 0x80,
                    ),
                    target,
                )
            },
            Instruction::RJMP => (
                self.with_cycles((self.cycles + 1) as u32),
                self.pc + 1 + relative_offset(opcode),
            ),
            Instruction::CPSE | Instruction::SBRC | Instruction::SBRS => self.skip_if(
                self.flow_taken(insn, opcode),
            ),
            _ => (self, self.pc + 1),
        }
    }
}

impl CPU {
    /// Skips the next instruction if `taken`.
    pub fn skip_if(&mut self, taken: bool) -> (next: i64)
        requires
            taken ==> old(self)@.pc + 1 < old(self)@.prog_mem.len(),
            old(self)@.cycles + 2 <= u32::MAX,
        ensures
            (final(self)@, next as int) == old(self)@.skip_if(taken),
    {
        if taken {
            let len = self.prog_mem.len();
            let next_opcode = self.prog_mem[self.pc as usize + 1];
            let skip_size: u32 = if is_two_word_instruction(next_opcode) {
                2
            } else {
                1
            };
            self.cycles = self.cycles + skip_size;
            self.pc as i64 + 1 + skip_size as i64
        } else {
            self.pc as i64 + 1
        }
    }

    /// Pops a return address.
    pub fn pop_return(&mut self) -> (target: u32)
        requires
            old(self)@.data.len() == DATA_SIZE,
            old(self)@.pop_defined(),
        ensures
            (final(self)@, target as int) == old(self)@.pop_return(),
    {
        let size: u16 = if self.pc_22_bits {
            3
        } else {
            2
        };
        let top = self.get_data_u16(SP).wrapping_add(size);
        self.set_data_u16(SP, top);
        let mut target: u32 = self.get_data(top) as u32 + 256 * (self.get_data(
            top.wrapping_sub(1),
        ) as u32);
        if self.pc_22_bits {
            target = target + 65536 * (self.get_data(top.wrapping_sub(2)) as u32);
        }
        target
    }

    fn flow_taken(&self, insn: Instruction, opcode: u16) -> (taken: bool)
        requires
            self@.data.len() == DATA_SIZE,
        ensures
            taken == self@.flow_taken(insn, opcode),
    {
        let b = bit3_of(opcode);
        match insn {
            Instruction::BRBC => self.sreg() & (1u8 << b) == 0,
            Instruction::BRBS => self.sreg() & (1u8 << b) != 0,
            Instruction::CPSE => self.get_data(rd5_of(opcode)) == self.get_data(rr5_of(opcode)),
            Instruction::SBRC => self.get_data(rd5_of(opcode)) & (1u8 << b) == 0,
            Instruction::SBRS => self.get_data(rd5_of(opcode)) & (1u8 << b) != 0,
            _ => true,
        }
    }

    /// Whether the bytes of a return address on the stack lie in the data
    /// space.
    pub fn pop_ready(&self) -> (ok: bool)
        requires
            self@.data.len() == DATA_SIZE,
        ensures
            ok == self@.pop_defined(),
    {
        let size: u16 = if self.pc_22_bits {
            3
        } else {
            2
        };
        let top = self.get_data_u16(SP).wrapping_add(size);
        let len = self.data.len();
        (top as usize) < len && (top.wrapping_sub(1) as usize) < len && (!self.pc_22_bits || (
        top.wrapping_sub(2) as usize) < len)
    }

    /// Whether the flow instruction can be executed.
    pub fn flow_ready(&self, insn: Instruction, opcode: u16) -> (ok: bool)
        requires
            self@.data.len() == DATA_SIZE,
            self@.pc < self@.prog_mem.len(),
        ensures
            ok == self@.flow_defined(insn, opcode),
    {
        let len = self.prog_mem.len();
        let second = (self.pc as usize) < len - 1;
        match insn {
            Instruction::CALL => second && self.push_ready(),
            Instruction::JMP => second,
            Instruction::RCALL | Instruction::ICALL => self.push_ready(),
            Instruction::RET | Instruction::RETI => self.pop_ready(),
            Instruction::CPSE | Instruction::SBRC | Instruction::SBRS => !self.flow_taken(
                insn,
                opcode,
            ) || second,
            _ => true,
        }
    }

    /// Executes a flow instruction; the result is the program word at which
    /// execution goes on.
    pub fn flow_op(&mut self, insn: Instruction, opcode: u16) -> (next: i64)
        requires
            old(self)@.data.len() == DATA_SIZE,
            old(self)@.pc < old(self)@.prog_mem.len() <= u32::MAX,
            old(self)@.cycles + 4 <= u32::MAX,
            old(self)@.flow_defined(insn, opcode),
        ensures
            (final(self)@, next as int) == old(self)@.flow_op(insn, opcode),
            old(self)@.cycles <= final(self)@.cycles <= old(self)@.cycles + 4,
            old(self)@.same_frame(final(self)@),
            -2048 <= next <= 0x1_0000_1000,
    {
        let wide: u32 = if self.pc_22_bits {
            1
        } else {
            0
        };
        let pc = self.pc;
        match insn {
            Instruction::BRBC | Instruction::BRBS => {
                if self.flow_taken(insn, opcode) {
                    self.cycles = self.cycles + 1;
                    pc as i64 + 1 + branch_offset_of(opcode)
                } else {
                    pc as i64 + 1
                }
            },
            Instruction::CALL => {
                let len = self.prog_mem.len();
                let target = long_target_of(opcode, self.prog_mem[pc as usize + 1]);
                self.push_return(pc + 2);
                self.cycles = self.cycles + 3 + wide;
                target as i64
            },
            Instruction::ICALL => {
                self.push_return(pc + 1);
                self.cycles = self.cycles + 2 + wide;
                self.get_data_u16(30) as i64
            },
            Instruction::IJMP => {
                self.cycles = self.cycles + 1;
                self.get_data_u16(30) as i64
            },
            Instruction::JMP => {
                let len = self.prog_mem.len();
                let target = long_target_of(opcode, self.prog_mem[pc as usize + 1]);
                self.cycles = self.cycles + 2;
                target as i64
            },
            Instruction::RCALL => {
                self.push_return(pc + 1);
                self.cycles = self.cycles + 2 + wide;
                pc as i64 + 1 + relative_offset_of(opcode)
            },
            Instruction::RET => {
                let target = self.pop_return();
                self.cycles = self.cycles + 3 + wide;
                target as i64
            },
            Instruction::RETI => {
                let target = self.pop_return();
                self.cycles = self.cycles + 3 + wide;
                let sreg = self.sreg();
                self.set_sreg(sreg | 0x80);
                target as i64
            },
            Instruction::RJMP => {
                self.cycles = self.cycles + 1;
                pc as i64 + 1 + relative_offset_of(opcode)
            },
            Instruction::CPSE | Instruction::SBRC | Instruction::SBRS => {
                let taken = self.flow_taken(insn, opcode);
                self.skip_if(taken)
            },
            _ => pc as i64 + 1,
        }
    }
}

} // verus!
