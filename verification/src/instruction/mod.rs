use vstd::prelude::*;
use crate::atmega328p::{ATMega328P, DeviceState};
use crate::cpu::{lemma_same_frame_wf, MAX_EVENT_DELAY};
use crate::instruction::flow::is_flow_op;
use crate::instruction::instructions::{decode_spec, try_decode, Instruction};
use crate::instruction::memory::{is_memory_op, lemma_memory_cycles};
use crate::instruction::registers::is_register_op;
use crate::instruction::transfer::is_transfer_op;

pub mod alu;
pub mod flow;
pub mod instructions;
pub mod memory;
pub mod operand;
pub mod registers;
pub mod transfer;

verus! {

/// Every instruction belongs to exactly one of the four classes.
pub proof fn lemma_instruction_classes(insn: Instruction)
    ensures
        is_register_op(insn) || is_flow_op(insn) || is_transfer_op(insn) || is_memory_op(insn),
        !(is_register_op(insn) && is_flow_op(insn)),
        !(is_register_op(insn) && is_transfer_op(insn)),
        !(is_register_op(insn) && is_memory_op(insn)),
        !(is_flow_op(insn) && is_transfer_op(insn)),
        !(is_flow_op(insn) && is_memory_op(insn)),
        !(is_transfer_op(insn) && is_memory_op(insn)),
{
}

impl DeviceState {
    /// The program word at the program counter.
    pub open spec fn opcode(self) -> u16 {
        self.cpu.prog_mem[self.cpu.pc as int]
    }

    /// The instruction `insn`, encoded by `opcode`, can be executed.
    pub open spec fn execute_defined(self, insn: Instruction, opcode: u16) -> bool {
        if is_flow_op(insn) {
            self.cpu.flow_defined(insn, opcode)
        } else if is_transfer_op(insn) {
            self.cpu.transfer_defined(insn, opcode)
        } else if is_memory_op(insn) {
            self.memory_defined(insn, opcode)
        } else {
            true
        }
    }

    /// What the instruction does to the device, and the program word at
    /// which execution goes on.
    pub open spec fn execute(self, insn: Instruction, opcode: u16) -> (DeviceState, int) {
        if is_register_op(insn) {
            (self.with_cpu(self.cpu.register_op(insn, opcode)), self.cpu.pc + 1)
        } else if is_flow_op(insn) {
            (self.with_cpu(self.cpu.flow_op(insn, opcode).0), self.cpu.flow_op(insn, opcode).1)
        } else if is_transfer_op(insn) {
            (self.with_cpu(self.cpu.transfer_op(insn, opcode)), self.cpu.pc + 1)
        } else {
            self.memory_op(insn, opcode)
        }
    }

    /// How an instruction that cannot be executed leaves the device: as it
    /// was, but for what reading an I/O register did before a memory
    /// instruction found that it cannot go on.
    pub open spec fn execute_fault(self, insn: Instruction, opcode: u16) -> DeviceState {
        if is_memory_op(insn) {
            self.memory_fault(insn, opcode)
        } else {
            self
        }
    }

    /// The room that the cycle counter must have for an instruction: its
    /// own cycles and, for a memory instruction, what a peripheral may
    /// schedule.
    pub open spec fn cycle_room(insn: Instruction) -> int {
        if is_memory_op(insn) {
            MAX_EVENT_DELAY + 16
        } else {
            5
        }
    }

    /// An instruction can be fetched and decoded: the program counter lies
    /// in the program, and the word there encodes an instruction.
    pub open spec fn fetch_defined(self) -> bool {
        &&& self.cpu.pc < self.cpu.prog_mem.len() <= u32::MAX
        &&& decode_spec(self.opcode()) is Some
    }

    /// How a fetch or an instruction that cannot be carried out leaves the
    /// device.
    pub open spec fn instruction_fault(self) -> DeviceState {
        if self.fetch_defined() && self.headroom(
            Self::cycle_room(decode_spec(self.opcode())->0),
        ) {
            self.execute_fault(decode_spec(self.opcode())->0, self.opcode())
        } else {
            self
        }
    }

    /// An instruction can be fetched, decoded and executed, and the cycle
    /// counter has room for it.
    pub open spec fn instruction_defined(self) -> bool {
        &&& self.fetch_defined()
        &&& self.headroom(Self::cycle_room(decode_spec(self.opcode())->0))
        &&& self.execute_defined(decode_spec(self.opcode())->0, self.opcode())
    }

    /// One instruction: fetch, decode, execute; then the program counter
    /// moves to the word at which execution goes on, wrapped to the size of
    /// the program, and the base cycle of the instruction passes.
    pub open spec fn avr_instruction(self) -> DeviceState {
        let (done, next) = self.execute(decode_spec(self.opcode())->0, self.opcode());
        done.with_cpu(
            done.cpu.with_pc((next % (done.cpu.prog_mem.len() as int)) as u32).with_cycles(
                (done.cpu.cycles + 1) as u32,
            ),
        )
    }
}

/// Every instruction advances the cycle counter, by five cycles at most.
pub proof fn lemma_instruction_advances_cycles(s: DeviceState)
    requires
        s.instruction_defined(),
    ensures
        s.cpu.cycles < s.avr_instruction().cpu.cycles <= s.cpu.cycles + 5,
{
    let opcode = s.opcode();
    let insn = decode_spec(opcode)->0;
    lemma_instruction_classes(insn);
    if is_memory_op(insn) {
        lemma_memory_cycles(s, insn, opcode);
    }
}

/// Executes the instruction at the program counter, if that can be done;
/// tells whether it was.
pub fn try_avr_instruction(atmega328p: &mut ATMega328P) -> (ok: bool)
    requires
        old(atmega328p)@.wf(),
    ensures
        ok == old(atmega328p)@.instruction_defined(),
        ok ==> final(atmega328p)@ == old(atmega328p)@.avr_instruction() && old(atmega328p)@.cpu.cycles < final(atmega328p)@.cpu.cycles && final(atmega328p)@.cpu.pc < final(atmega328p)@.cpu.prog_mem.len(),
        !ok ==> final(atmega328p)@ == old(atmega328p)@.instruction_fault(),
        final(atmega328p)@.wf(),
        old(atmega328p)@.cpu.cycles <= final(atmega328p)@.cpu.cycles <= old(atmega328p)@.cpu.cycles
            + 5,
{
    let len = atmega328p.cpu.prog_mem.len();
    if atmega328p.cpu.pc as usize >= len || len > u32::MAX as usize {
        return false;
    }
    let opcode = atmega328p.cpu.prog_mem[atmega328p.cpu.pc as usize];
    let instruction = match try_decode(opcode) {
        Some(instruction) => instruction,
        None => {
            return false;
        },
    };
    let room: u32 = if class_of(instruction) == 3 {
        MAX_EVENT_DELAY + 16
    } else {
        5
    };
    if atmega328p.cpu.cycles > u32::MAX - room {
        return false;
    }
    let next: i64 = match try_execute(atmega328p, instruction, opcode) {
        Some(next) => next,
        None => {
            return false;
        },
    };
    let len: i64 = len as i64;
    proof {
        vstd::arithmetic::div_mod::lemma_mod_multiples_vanish(2048, next as int, len as int);
        let s = atmega328p@;
        let stepped = s.cpu.with_pc((next as int % (len as int)) as u32).with_cycles(
            (s.cpu.cycles + 1) as u32,
        );
        lemma_same_frame_wf(s.cpu, stepped);
    }
    atmega328p.cpu.pc = ((len * 2048 + next) % len) as u32;
    atmega328p.cpu.cycles = atmega328p.cpu.cycles + 1;
    true
}

/// Executes the instruction at the program counter.
pub fn avr_instruction(atmega328p: &mut ATMega328P)
    requires
        old(atmega328p)@.wf(),
        old(atmega328p)@.instruction_defined(),
    ensures
        final(atmega328p)@ == old(atmega328p)@.avr_instruction(),
        final(atmega328p)@.wf(),
        old(atmega328p)@.cpu.cycles < final(atmega328p)@.cpu.cycles <= old(atmega328p)@.cpu.cycles
            + 5,
        final(atmega328p)@.cpu.pc < final(atmega328p)@.cpu.prog_mem.len(),
{
    try_avr_instruction(atmega328p);
}

/// Executes a decoded instruction if it can be executed; the result is then
/// the program word at which execution goes on.
pub(crate) fn try_execute(atmega328p: &mut ATMega328P, instruction: Instruction, opcode: u16) -> (next:
    Option<i64>)
    requires
        old(atmega328p)@.wf(),
        old(atmega328p)@.headroom(DeviceState::cycle_room(instruction)),
        old(atmega328p)@.cpu.pc < old(atmega328p)@.cpu.prog_mem.len() <= u32::MAX,
    ensures
        next is Some == old(atmega328p)@.execute_defined(instruction, opcode),
        next is Some ==> (final(atmega328p)@, next->0 as int) == old(atmega328p)@.execute(
            instruction,
            opcode,
        ) && -2048 <= next->0 <= 0x1_0000_1000,
        next is None ==> final(atmega328p)@ == old(atmega328p)@.execute_fault(instruction, opcode),
        final(atmega328p)@.wf(),
        old(atmega328p)@.cpu.cycles <= final(atmega328p)@.cpu.cycles <= old(atmega328p)@.cpu.cycles
            + 4,
        final(atmega328p)@.cpu.prog_mem == old(atmega328p)@.cpu.prog_mem,
{
    proof {
        lemma_instruction_classes(instruction);
    }
    let pc = atmega328p.cpu.pc;
    let class = class_of(instruction);
    if class == 0 {
        atmega328p.cpu.register_op(instruction, opcode);
        Some(pc as i64 + 1)
    } else if class == 1 {
        if !atmega328p.cpu.flow_ready(instruction, opcode) {
            return None;
        }
        let next = atmega328p.cpu.flow_op(instruction, opcode);
        proof {
            lemma_same_frame_wf(old(atmega328p)@.cpu, atmega328p@.cpu);
        }
        Some(next)
    } else if class == 2 {
        if !atmega328p.cpu.transfer_ready(instruction, opcode) {
            return None;
        }
        atmega328p.cpu.transfer_op(instruction, opcode);
        proof {
            lemma_same_frame_wf(old(atmega328p)@.cpu, atmega328p@.cpu);
        }
        Some(pc as i64 + 1)
    } else {
        atmega328p.try_memory_op(instruction, opcode)
    }
}

/// The class of an instruction: 0 for register, 1 for flow, 2 for transfer
/// and 3 for memory instructions.
pub fn class_of(insn: Instruction) -> (class: u8)
    ensures
        class == 0 <==> is_register_op(insn),
        class == 1 <==> is_flow_op(insn),
        class == 2 <==> is_transfer_op(insn),
        class == 3 <==> is_memory_op(insn),
{
    match insn {
        Instruction::ADC
        | Instruction::ADD
        | Instruction::ADIW
        | Instruction::AND
        | Instruction::ANDI
        | Instruction::ASR
        | Instruction::BCLR
        | Instruction::BLD
        | Instruction::BSET
        | Instruction::BST
        | Instruction::COM
        | Instruction::CP
        | Instruction::CPC
        | Instruction::CPI
        | Instruction::DEC
        | Instruction::EOR
        | Instruction::INC
        | Instruction::LDI
        | Instruction::LSR
        | Instruction::MOV
        | Instruction::MOVW
        | Instruction::MUL
        | Instruction::NEG
        | Instruction::OR
        | Instruction::ROR
        | Instruction::SBC
        | Instruction::SBCI
        | Instruction::SBIW
        | Instruction::SBR
        | Instruction::SUB
        | Instruction::SUBI => 0,
        Instruction::BRBC
        | Instruction::BRBS
        | Instruction::CALL
        | Instruction::CPSE
        | Instruction::ICALL
        | Instruction::IJMP
        | Instruction::JMP
        | Instruction::RCALL
        | Instruction::RET
        | Instruction::RETI
        | Instruction::RJMP
        | Instruction::SBRC
        | Instruction::SBRS => 1,
        Instruction::LPM
        | Instruction::LPM_REG
        | Instruction::LPM_INC
        | Instruction::ELPM_INC
        | Instruction::PUSH
        | Instruction::POP => 2,
        _ => 3,
    }
}

} // verus!
