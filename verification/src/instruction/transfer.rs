use vstd::prelude::*;
use crate::cpu::{CpuState, CPU, DATA_SIZE, SP};
use crate::instruction::instructions::Instruction;
use crate::instruction::operand::{rd5, rd5_of};

verus! {

/// Address of RAMPZ, which extends the Z pointer for ELPM.
pub const RAMPZ: u16 = 0x5b;

/// The instructions that move a byte between a register and the program
/// memory or the stack.
pub open spec fn is_transfer_op(insn: Instruction) -> bool {
    match insn {
        Instruction::LPM
        | Instruction::LPM_REG
        | Instruction::LPM_INC
        | Instruction::ELPM_INC
        | Instruction::PUSH
        | Instruction::POP => true,
        _ => false,
    }
}

impl CpuState {
    /// The program byte address that ELPM reads: RAMPZ:Z.
    pub open spec fn extended_z(self) -> int {
        65536 * self.data[RAMPZ as int] + self.word(30)
    }

    /// The byte that the instruction moves lies in the program or in the
    /// data space.
    pub open spec fn transfer_defined(self, insn: Instruction, opcode: u16) -> bool {
        match insn {
            Instruction::LPM | Instruction::LPM_REG | Instruction::LPM_INC => self.word(30)
                < self.prog_bytes.len(),
            Instruction::ELPM_INC => self.extended_z() < self.prog_bytes.len(),
            Instruction::PUSH => self.sp() < self.data.len(),
            Instruction::POP => self.sp().wrapping_add(1) < self.data.len(),
            _ => true,
        }
    }

    /// What a transfer instruction does to the CPU. The loads from program
    /// memory take two more cycles, PUSH and POP one. LPM loads r0, the
    /// other loads register `d`; the post-increment forms then add one to Z,
    /// and ELPM carries into RAMPZ, which wraps at the number of 64 KiB
    /// pages of the program.
    pub open spec fn transfer_op(self, insn: Instruction, opcode: u16) -> CpuState {
        let d = rd5(opcode) as int;
        let z = self.word(30);
        match insn {
            Instruction::LPM => self.with_data(0, self.prog_bytes[z as int]).with_cycles(
                (self.cycles + 2) as u32,
            ),
            Instruction::LPM_REG => self.with_data(d, self.prog_bytes[z as int]).with_cycles(
                (self.cycles + 2) as u32,
            ),
            Instruction::LPM_INC => self.with_data(d, self.prog_bytes[z as int]).with_word(
                30,
                z.wrapping_add(1),
            ).with_cycles((self.cycles + 2) as u32),
            Instruction::ELPM_INC => {
                let rampz = self.data[RAMPZ as int];
                let loaded = self.with_data(d, self.prog_bytes[self.extended_z()]).with_word(
                    30,
                    z.wrapping_add(1),
                );
                let carried = if z == 0xffff {
                    loaded.with_data(
                        RAMPZ as int,
                        (((rampz + 1) % (self.prog_bytes.len() as int / 65536)) % 256) as u8,
                    )
                } else {
                    loaded
                };
                carried.with_cycles((self.cycles + 2) as u32)
            },
            Instruction::PUSH => {
                let sp = self.sp();
                self.with_data(sp as int, self.data[d]).with_word(
                    SP as int,
                    sp.wrapping_sub(1),
                ).with_cycles((self.cycles + 1) as u32)
            },
            Instruction::POP => {
                let top = self.sp().wrapping_add(1);
                let moved = self.with_word(SP as int, top);
                moved.with_data(d, moved.data[top as int]).with_cycles((self.cycles + 1) as u32)
            },
            _ => self,
        }
    }
}

impl CPU {
    /// Whether the transfer instruction can be executed.
    pub fn transfer_ready(&self, insn: Instruction, opcode: u16) -> (ok: bool)
        requires
            self@.data.len() == DATA_SIZE,
        ensures
            ok == self@.transfer_defined(insn, opcode),
    {
        match insn {
            Instruction::LPM | Instruction::LPM_REG | Instruction::LPM_INC => (self.get_data_u16(
                30,
            ) as usize) < self.prog_bytes.len(),
            Instruction::ELPM_INC => {
                let z = self.get_data_u16(30) as u64;
                let page = self.get_data(RAMPZ) as u64;
                let len = self.prog_bytes.len();
                65536 * page + z < len as u64
            },
            Instruction::PUSH => (self.get_data_u16(SP) as usize) < self.data.len(),
            Instruction::POP => (self.get_data_u16(SP).wrapping_add(1) as usize) < self.data.len(),
            _ => true,
        }
    }

    /// Executes a transfer instruction.
    pub fn transfer_op(&mut self, insn: Instruction, opcode: u16)
        requires
            old(self)@.data.len() == DATA_SIZE,
            old(self)@.cycles + 2 <= u32::MAX,
            old(self)@.transfer_defined(insn, opcode),
        ensures
            final(self)@ == old(self)@.transfer_op(insn, opcode),
            old(self)@.cycles <= final(self)@.cycles <= old(self)@.cycles + 2,
            old(self)@.same_frame(final(self)@),
    {
        let d = rd5_of(opcode);
        match insn {
            Instruction::LPM => {
                let z = self.get_data_u16(30);
                let byte = self.prog_bytes[z as usize];
                self.set_data(0, byte);
                self.cycles = self.cycles + 2;
            },
            Instruction::LPM_REG => {
                let z = self.get_data_u16(30);
                let byte = self.prog_bytes[z as usize];
                self.set_data(d, byte);
                self.cycles = self.cycles + 2;
            },
            Instruction::LPM_INC => {
                let z = self.get_data_u16(30);
                let byte = self.prog_bytes[z as usize];
                self.set_data(d, byte);
                self.set_data_u16(30, z.wrapping_add(1));
                self.cycles = self.cycles + 2;
            },
            Instruction::ELPM_INC => {
                let rampz = self.get_data(RAMPZ);
                let z = self.get_data_u16(30);
                let byte = self.prog_bytes[65536 * (rampz as usize) + z as usize];
                self.set_data(d, byte);
                self.set_data_u16(30, z.wrapping_add(1));
                if z == 0xffff {
                    let pages: usize = self.prog_bytes.len() / 65536;
                    let next: u8 = (((rampz as usize + 1) % pages) % 256) as u8;
                    self.set_data(RAMPZ, next);
                }
                self.cycles = self.cycles + 2;
            },
            Instruction::PUSH => {
                let sp = self.get_data_u16(SP);
                let value = self.get_data(d);
                self.set_data(sp, value);
                self.set_data_u16(SP, sp.wrapping_sub(1));
                self.cycles = self.cycles + 1;
            },
            Instruction::POP => {
                let top = self.get_data_u16(SP).wrapping_add(1);
                self.set_data_u16(SP, top);
                let value = self.get_data(top);
                self.set_data(d, value);
                self.cycles = self.cycles + 1;
            },
            _ => {},
        }
    }
}

} // verus!
