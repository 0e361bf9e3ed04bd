use vstd::prelude::*;
use crate::atmega328p::{lemma_read_keeps_cycles, lemma_write_cycles, ATMega328P, DeviceState};
use crate::cpu::{lemma_same_frame_wf, DATA_SIZE, MAX_EVENT_DELAY};
use crate::instruction::instructions::{displacement, Instruction};
use crate::instruction::operand::{
    bit3, bit3_of, io5, io5_of, io6, io6_of, lemma_operand_bounds, rd5, rd5_of,
};

verus! {

/// How an indirect load or store uses its pointer register.
#[derive(Clone, Copy, Debug, PartialEq, Eq, Structural)]
pub enum AddressMode {
    /// The pointer is the address.
    Plain,
    /// The pointer is the address and is incremented afterwards.
    PostIncrement,
    /// The pointer is decremented first and then is the address.
    PreDecrement,
    /// The address is the pointer plus the displacement `q`.
    Displaced,
}

/// The instructions that read or write the data space through the memory
/// router.
pub open spec fn is_memory_op(insn: Instruction) -> bool {
    indirect_load(insn) is Some || indirect_store(insn) is Some || match insn {
        Instruction::IN
        | Instruction::OUT
        | Instruction::LDS
        | Instruction::STS
        | Instruction::SBI
        | Instruction::CBI
        | Instruction::SBIC
        | Instruction::SBIS => true,
        _ => false,
    }
}

/// For an indirect load: the address of its pointer register pair (X is 26,
/// Y is 28, Z is 30) and its address mode.
pub open spec fn indirect_load(insn: Instruction) -> Option<(u16, AddressMode)> {
    match insn {
        Instruction::LDX => Some((26, AddressMode::Plain)),
        Instruction::LDX_INC => Some((26, AddressMode::PostIncrement)),
        Instruction::LDX_DEC => Some((26, AddressMode::PreDecrement)),
        Instruction::LDY => Some((28, AddressMode::Plain)),
        Instruction::LDY_INC => Some((28, AddressMode::PostIncrement)),
        Instruction::LDY_DEC => Some((28, AddressMode::PreDecrement)),
        Instruction::LDDY => Some((28, AddressMode::Displaced)),
        Instruction::LDZ => Some((30, AddressMode::Plain)),
        Instruction::LDZ_INC => Some((30, AddressMode::PostIncrement)),
        Instruction::LDZ_DEC => Some((30, AddressMode::PreDecrement)),
        Instruction::LDDZ => Some((30, AddressMode::Displaced)),
        _ => None,
    }
}

/// For an indirect store: its pointer register pair and its address mode.
pub open spec fn indirect_store(insn: Instruction) -> Option<(u16, AddressMode)> {
    match insn {
        Instruction::STX => Some((26, AddressMode::Plain)),
        Instruction::STX_INC => Some((26, AddressMode::PostIncrement)),
        Instruction::STX_DEC => Some((26, AddressMode::PreDecrement)),
        Instruction::STY => Some((28, AddressMode::Plain)),
        Instruction::STY_INC => Some((28, AddressMode::PostIncrement)),
        Instruction::STY_DEC => Some((28, AddressMode::PreDecrement)),
        Instruction::STDY => Some((28, AddressMode::Displaced)),
        Instruction::STZ => Some((30, AddressMode::Plain)),
        Instruction::STZ_INC => Some((30, AddressMode::PostIncrement)),
        Instruction::STZ_DEC => Some((30, AddressMode::PreDecrement)),
        Instruction::STDZ => Some((30, AddressMode::Displaced)),
        _ => None,
    }
}

fn indirect_load_of(insn: Instruction) -> (r: Option<(u16, AddressMode)>)
    ensures
        r == indirect_load(insn),
        match r {
            Some((ptr, _)) => ptr == 26 || ptr == 28 || ptr == 30,
            None => true,
        },
{
    match insn {
        Instruction::LDX => Some((26, AddressMode::Plain)),
        Instruction::LDX_INC => Some((26, AddressMode::PostIncrement)),
        Instruction::LDX_DEC => Some((26, AddressMode::PreDecrement)),
        Instruction::LDY => Some((28, AddressMode::Plain)),
        Instruction::LDY_INC => Some((28, AddressMode::PostIncrement)),
        Instruction::LDY_DEC => Some((28, AddressMode::PreDecrement)),
        Instruction::LDDY => Some((28, AddressMode::Displaced)),
        Instruction::LDZ => Some((30, AddressMode::Plain)),
        Instruction::LDZ_INC => Some((30, AddressMode::PostIncrement)),
        Instruction::LDZ_DEC => Some((30, AddressMode::PreDecrement)),
        Instruction::LDDZ => Some((30, AddressMode::Displaced)),
        _ => None,
    }
}

fn indirect_store_of(insn: Instruction) -> (r: Option<(u16, AddressMode)>)
    ensures
        r == indirect_store(insn),
        match r {
            Some((ptr, _)) => ptr == 26 || ptr == 28 || ptr == 30,
            None => true,
        },
{
    match insn {
        Instruction::STX => Some((26, AddressMode::Plain)),
        Instruction::STX_INC => Some((26, AddressMode::PostIncrement)),
        Instruction::STX_DEC => Some((26, AddressMode::PreDecrement)),
        Instruction::STY => Some((28, AddressMode::Plain)),
        Instruction::STY_INC => Some((28, AddressMode::PostIncrement)),
        Instruction::STY_DEC => Some((28, AddressMode::PreDecrement)),
        Instruction::STDY => Some((28, AddressMode::Displaced)),
        Instruction::STZ => Some((30, AddressMode::Plain)),
        Instruction::STZ_INC => Some((30, AddressMode::PostIncrement)),
        Instruction::STZ_DEC => Some((30, AddressMode::PreDecrement)),
        Instruction::STDZ => Some((30, AddressMode::Displaced)),
        _ => None,
    }
}

impl DeviceState {
    /// The device `n` cycles later.
    pub open spec fn add_cycles(self, n: int) -> DeviceState {
        self.with_cpu(self.cpu.with_cycles((self.cpu.cycles + n) as u32))
    }

    /// The device with `value` in register or data byte `addr`, stored
    /// directly.
    pub open spec fn with_register(self, addr: int, value: u8) -> DeviceState {
        self.with_cpu(self.cpu.with_data(addr, value))
    }

    /// The device with `value` in the register pair at `addr`.
    pub open spec fn with_pointer(self, addr: int, value: u16) -> DeviceState {
        self.with_cpu(self.cpu.with_word(addr, value))
    }

    /// The data address that an indirect access through the pointer at `ptr`
    /// uses.
    pub open spec fn effective_address(self, ptr: int, mode: AddressMode, q: u16) -> int {
        match mode {
            AddressMode::Plain | AddressMode::PostIncrement => self.cpu.word(ptr) as int,
            AddressMode::PreDecrement => self.cpu.word(ptr).wrapping_sub(1) as int,
            AddressMode::Displaced => self.cpu.word(ptr) + q,
        }
    }

    /// An indirect load into register `d`. A pre-decrement updates the
    /// pointer before the read and costs two extra cycles, the other modes
    /// one; the extra cycles pass before the read, so a peripheral sees them.
    /// A post-increment updates the pointer after the register.
    pub open spec fn load_indirect(self, d: int, ptr: int, mode: AddressMode, q: u16) -> DeviceState {
        let addr = self.effective_address(ptr, mode, q) as u16;
        let before = if mode == AddressMode::PreDecrement {
            self.with_pointer(ptr, addr).add_cycles(2)
        } else {
            self.add_cycles(1)
        };
        let (read, value) = before.read_data(addr);
        let loaded = read.with_register(d, value);
        if mode == AddressMode::PostIncrement {
            loaded.with_pointer(ptr, addr.wrapping_add(1))
        } else {
            loaded
        }
    }

    /// The device at the moment an indirect store writes: a pre-decrement
    /// has updated the pointer.
    pub open spec fn store_ready(self, ptr: int, mode: AddressMode, q: u16) -> DeviceState {
        if mode == AddressMode::PreDecrement {
            self.with_pointer(ptr, self.effective_address(ptr, mode, q) as u16)
        } else {
            self
        }
    }

    /// An indirect store of register `r`. The write goes through the memory
    /// router; a post-increment updates the pointer after the write; the
    /// extra cycle passes last.
    pub open spec fn store_indirect(self, r: int, ptr: int, mode: AddressMode, q: u16) -> DeviceState {
        let addr = self.effective_address(ptr, mode, q) as u16;
        let written = self.store_ready(ptr, mode, q).write_data_with_mask(
            addr,
            self.cpu.data[r],
            0xff,
        );
        let after = if mode == AddressMode::PostIncrement {
            written.with_pointer(ptr, addr.wrapping_add(1))
        } else {
            written
        };
        after.add_cycles(1)
    }

    /// The memory instruction can be executed: the addresses it uses lie in
    /// the data space, a second word it reads lies in the program, and the
    /// peripheral behind a write can take it.
    pub open spec fn memory_defined(self, insn: Instruction, opcode: u16) -> bool {
        let d = rd5(opcode) as int;
        let q = displacement(opcode);
        let mask = 1u8 << bit3(opcode);
        if indirect_load(insn) is Some {
            let (ptr, mode) = indirect_load(insn)->0;
            self.effective_address(ptr as int, mode, q) < DATA_SIZE
        } else if indirect_store(insn) is Some {
            let (ptr, mode) = indirect_store(insn)->0;
            &&& self.effective_address(ptr as int, mode, q) < DATA_SIZE
            &&& self.store_ready(ptr as int, mode, q).write_defined(
                self.effective_address(ptr as int, mode, q) as u16,
                self.cpu.data[d],
            )
        } else {
            match insn {
                Instruction::OUT => self.write_defined(io6(opcode), self.cpu.data[d]),
                Instruction::LDS => self.cpu.pc + 1 < self.cpu.prog_mem.len()
                    && self.cpu.second_word() < DATA_SIZE,
                Instruction::STS => self.cpu.pc + 1 < self.cpu.prog_mem.len()
                    && self.write_defined(self.cpu.second_word(), self.cpu.data[d]),
                Instruction::SBI => {
                    let (read, value) = self.read_data(io5(opcode));
                    read.write_defined(io5(opcode), value | mask)
                },
                Instruction::CBI => {
                    let (read, value) = self.read_data(io5(opcode));
                    read.write_defined(io5(opcode), value & !mask)
                },
                Instruction::SBIC => self.read_data(io5(opcode)).1 & mask == 0 ==> self.cpu.pc + 1
                    < self.cpu.prog_mem.len(),
                Instruction::SBIS => self.read_data(io5(opcode)).1 & mask != 0 ==> self.cpu.pc + 1
                    < self.cpu.prog_mem.len(),
                _ => true,
            }
        }
    }

    /// How a memory instruction that cannot be executed leaves the device.
    /// The instructions that test or change a bit of an I/O register find
    /// out after they have read the register; every other instruction finds
    /// out before it does anything.
    pub open spec fn memory_fault(self, insn: Instruction, opcode: u16) -> DeviceState {
        match insn {
            Instruction::SBI | Instruction::CBI | Instruction::SBIC | Instruction::SBIS => self.read_data(
                io5(opcode),
            ).0,
            _ => self,
        }
    }

    /// What a memory instruction does to the device, and the program word at
    /// which execution goes on. IN, SBI, CBI, SBIS and SBIC address an I/O
    /// register, LDS and STS the data address in their second word, the
    /// indirect forms the address in X, Y or Z. SBI and CBI write the byte
    /// they read with one bit changed, and name that bit in the mask.
    pub open spec fn memory_op(self, insn: Instruction, opcode: u16) -> (DeviceState, int) {
        let d = rd5(opcode) as int;
        let q = displacement(opcode);
        let mask = 1u8 << bit3(opcode);
        let pc = self.cpu.pc as int;
        if indirect_load(insn) is Some {
            let (ptr, mode) = indirect_load(insn)->0;
            (self.load_indirect(d, ptr as int, mode, q), pc + 1)
        } else if indirect_store(insn) is Some {
            let (ptr, mode) = indirect_store(insn)->0;
            (self.store_indirect(d, ptr as int, mode, q), pc + 1)
        } else {
            match insn {
                Instruction::IN => {
                    let (read, value) = self.read_data(io6(opcode));
                    (read.with_register(d, value), pc + 1)
                },
                Instruction::OUT => (
                    self.write_data_with_mask(io6(opcode), self.cpu.data[d], 0xff),
                    pc + 1,
                ),
                Instruction::LDS => {
                    let (read, value) = self.add_cycles(1).read_data(self.cpu.second_word());
                    (read.with_register(d, value), pc + 2)
                },
                Instruction::STS => (
                    self.write_data_with_mask(
                        self.cpu.second_word(),
                        self.cpu.data[d],
                        0xff,
                    ).add_cycles(1),
                    pc + 2,
                ),
                Instruction::SBI => {
                    let (read, value) = self.read_data(io5(opcode));
                    (
                        read.write_data_with_mask(io5(opcode), value | mask, mask).add_cycles(1),
                        pc + 1,
                    )
                },
                Instruction::CBI => {
                    let (read, value) = self.read_data(io5(opcode));
                    (read.write_data_with_mask(io5(opcode), value & !mask, mask), pc + 1)
                },
                Instruction::SBIC => {
                    let (read, value) = self.read_data(io5(opcode));
                    let (cpu, next) = read.cpu.skip_if(value & mask == 0);
                    (read.with_cpu(cpu), next)
                },
                Instruction::SBIS => {
                    let (read, value) = self.read_data(io5(opcode));
                    let (cpu, next) = read.cpu.skip_if(value & mask != 0);
                    (read.with_cpu(cpu), next)
                },
                _ => (self, pc + 1),
            }
        }
    }
}

/// A memory instruction never turns the cycle counter back, and does not
/// touch the program.
pub proof fn lemma_memory_cycles(s: DeviceState, insn: Instruction, opcode: u16)
    requires
        s.headroom(MAX_EVENT_DELAY as int + 16),
        is_memory_op(insn),
        s.memory_defined(insn, opcode),
    ensures
        s.cpu.cycles <= s.memory_op(insn, opcode).0.cpu.cycles <= s.cpu.cycles + 3,
        s.memory_op(insn, opcode).0.cpu.prog_mem == s.cpu.prog_mem,
{
    lemma_operand_bounds(opcode);
    let q = displacement(opcode);
    let d = rd5(opcode) as int;
    let mask = 1u8 << bit3(opcode);
    if indirect_load(insn) is Some {
        let (ptr, mode) = indirect_load(insn)->0;
        let addr = s.effective_address(ptr as int, mode, q) as u16;
        let before = if mode == AddressMode::PreDecrement {
            s.with_pointer(ptr as int, addr).add_cycles(2)
        } else {
            s.add_cycles(1)
        };
        lemma_read_keeps_cycles(before, addr);
    } else if indirect_store(insn) is Some {
        let (ptr, mode) = indirect_store(insn)->0;
        let addr = s.effective_address(ptr as int, mode, q) as u16;
        lemma_write_cycles(s.store_ready(ptr as int, mode, q), addr, s.cpu.data[d], 0xff);
    } else {
        let read = s.read_data(io5(opcode));
        match insn {
            Instruction::IN => {
                lemma_read_keeps_cycles(s, io6(opcode));
            },
            Instruction::OUT => {
                lemma_write_cycles(s, io6(opcode), s.cpu.data[d], 0xff);
            },
            Instruction::LDS => {
                lemma_read_keeps_cycles(s.add_cycles(1), s.cpu.second_word());
            },
            Instruction::STS => {
                lemma_write_cycles(s, s.cpu.second_word(), s.cpu.data[d], 0xff);
            },
            Instruction::SBI => {
                lemma_read_keeps_cycles(s, io5(opcode));
                lemma_write_cycles(read.0, io5(opcode), read.1 | mask, mask);
            },
            Instruction::CBI => {
                lemma_read_keeps_cycles(s, io5(opcode));
                lemma_write_cycles(read.0, io5(opcode), read.1 & !mask, mask);
            },
            Instruction::SBIC | Instruction::SBIS => {
                lemma_read_keeps_cycles(s, io5(opcode));
            },
            _ => {},
        }
    }
}

impl ATMega328P {
    /// Lets `n` cycles pass.
    pub fn add_cycles(&mut self, n: u32)
        requires
            old(self)@.wf(),
            old(self)@.headroom(n as int),
        ensures
            final(self)@ == old(self)@.add_cycles(n as int),
            final(self)@.wf(),
    {
        proof {
            lemma_same_frame_wf(self@.cpu, self@.add_cycles(n as int).cpu);
        }
        self.cpu.cycles = self.cpu.cycles + n;
    }

    /// Stores `value` at `addr` directly, past the hooks.
    pub fn set_register(&mut self, addr: u16, value: u8)
        requires
            old(self)@.wf(),
            addr < DATA_SIZE,
        ensures
            final(self)@ == old(self)@.with_register(addr as int, value),
            final(self)@.wf(),
    {
        proof {
            lemma_same_frame_wf(self@.cpu, self@.with_register(addr as int, value).cpu);
        }
        self.cpu.set_data(addr, value);
    }

    /// Stores `value` in the register pair at `addr`.
    pub fn set_pointer(&mut self, addr: u16, value: u16)
        requires
            old(self)@.wf(),
            addr + 1 < DATA_SIZE,
        ensures
            final(self)@ == old(self)@.with_pointer(addr as int, value),
            final(self)@.wf(),
    {
        proof {
            lemma_same_frame_wf(self@.cpu, self@.with_pointer(addr as int, value).cpu);
        }
        self.cpu.set_data_u16(addr, value);
    }

    fn effective_address(&self, ptr: u16, mode: AddressMode, q: u16) -> (addr: u32)
        requires
            self@.wf(),
            ptr < 31,
            q < 64,
        ensures
            addr == self@.effective_address(ptr as int, mode, q),
    {
        let pointer = self.cpu.get_data_u16(ptr);
        match mode {
            AddressMode::Plain | AddressMode::PostIncrement => pointer as u32,
            AddressMode::PreDecrement => pointer.wrapping_sub(1) as u32,
            AddressMode::Displaced => pointer as u32 + q as u32,
        }
    }

    fn load_indirect(&mut self, d: u16, ptr: u16, mode: AddressMode, q: u16)
        requires
            old(self)@.wf(),
            old(self)@.headroom(MAX_EVENT_DELAY as int + 2),
            d < 32,
            ptr < 31,
            q < 64,
            old(self)@.effective_address(ptr as int, mode, q) < DATA_SIZE,
        ensures
            final(self)@ == old(self)@.load_indirect(d as int, ptr as int, mode, q),
            final(self)@.wf(),
            old(self)@.cpu.cycles < final(self)@.cpu.cycles <= old(self)@.cpu.cycles + 2,
            final(self)@.cpu.pc == old(self)@.cpu.pc,
            final(self)@.cpu.prog_mem == old(self)@.cpu.prog_mem,
    {
        let addr: u16 = self.effective_address(ptr, mode, q) as u16;
        match mode {
            AddressMode::PreDecrement => {
                self.set_pointer(ptr, addr);
                self.add_cycles(2);
            },
            _ => {
                self.add_cycles(1);
            },
        }
        let value = self.read_data(addr);
        self.set_register(d, value);
        match mode {
            AddressMode::PostIncrement => {
                self.set_pointer(ptr, addr.wrapping_add(1));
            },
            _ => {},
        }
    }

    /// An indirect store of register `r`, if it can be carried out.
    fn try_store_indirect(&mut self, r: u16, ptr: u16, mode: AddressMode, q: u16) -> (ok: bool)
        requires
            old(self)@.wf(),
            old(self)@.headroom(MAX_EVENT_DELAY as int + 9),
            r < 32,
            ptr < 31,
            q < 64,
        ensures
            ok == (old(self)@.effective_address(ptr as int, mode, q) < DATA_SIZE && old(self)@.store_ready(ptr as int, mode, q).write_defined(
                old(self)@.effective_address(ptr as int, mode, q) as u16,
                old(self)@.cpu.data[r as int],
            )),
            ok ==> final(self)@ == old(self)@.store_indirect(r as int, ptr as int, mode, q)
                && old(self)@.cpu.cycles < final(self)@.cpu.cycles,
            !ok ==> final(self)@ == old(self)@,
            final(self)@.wf(),
            old(self)@.cpu.cycles <= final(self)@.cpu.cycles <= old(self)@.cpu.cycles + 3,
            final(self)@.cpu.pc == old(self)@.cpu.pc,
            final(self)@.cpu.prog_mem == old(self)@.cpu.prog_mem,
    {
        let wide = self.effective_address(ptr, mode, q);
        if wide >= DATA_SIZE as u32 {
            return false;
        }
        let addr: u16 = wide as u16;
        let value = self.cpu.get_data(r);
        let pointer = self.cpu.get_data_u16(ptr);
        match mode {
            AddressMode::PreDecrement => {
                self.set_pointer(ptr, addr);
            },
            _ => {},
        }
        if !self.write_ready(addr, value) {
            match mode {
                AddressMode::PreDecrement => {
                    self.set_pointer(ptr, pointer);
                    assert(self@.cpu.data =~= old(self)@.cpu.data);
                },
                _ => {},
            }
            return false;
        }
        self.write_data_with_mask(addr, value, 0xff);
        match mode {
            AddressMode::PostIncrement => {
                self.set_pointer(ptr, addr.wrapping_add(1));
            },
            _ => {},
        }
        self.add_cycles(1);
        true
    }

    /// Executes a memory instruction if it can be executed; the result is
    /// then the program word at which execution goes on.
    pub(crate) fn try_memory_op(&mut self, insn: Instruction, opcode: u16) -> (next: Option<i64>)
        requires
            old(self)@.wf(),
            old(self)@.headroom(MAX_EVENT_DELAY as int + 12),
            old(self)@.cpu.pc < old(self)@.cpu.prog_mem.len() <= u32::MAX,
        ensures
            next is Some == old(self)@.memory_defined(insn, opcode),
            next is Some ==> (final(self)@, next->0 as int) == old(self)@.memory_op(insn, opcode)
                && 0 <= next->0 <= 0x1_0000_0002,
            next is None ==> final(self)@ == old(self)@.memory_fault(insn, opcode),
            final(self)@.wf(),
            old(self)@.cpu.cycles <= final(self)@.cpu.cycles <= old(self)@.cpu.cycles + 3,
            final(self)@.cpu.pc == old(self)@.cpu.pc,
            final(self)@.cpu.prog_mem == old(self)@.cpu.prog_mem,
    {
        proof {
            lemma_operand_bounds(opcode);
        }
        let d = rd5_of(opcode);
        let q = crate::instruction::instructions::displacement_of(opcode);
        let pc = self.cpu.pc;
        let len = self.cpu.prog_mem.len();
        let second = (pc as usize) < len - 1;
        match indirect_load_of(insn) {
            Some((ptr, mode)) => {
                if self.effective_address(ptr, mode, q) >= DATA_SIZE as u32 {
                    return None;
                }
                self.load_indirect(d, ptr, mode, q);
                return Some(pc as i64 + 1);
            },
            None => {},
        }
        match indirect_store_of(insn) {
            Some((ptr, mode)) => {
                if !self.try_store_indirect(d, ptr, mode, q) {
                    return None;
                }
                return Some(pc as i64 + 1);
            },
            None => {},
        }
        let mask: u8 = 1u8 << bit3_of(opcode);
        match insn {
            Instruction::IN => {
                let value = self.read_data(io6_of(opcode));
                self.set_register(d, value);
                Some(pc as i64 + 1)
            },
            Instruction::OUT => {
                let value = self.cpu.get_data(d);
                if !self.write_ready(io6_of(opcode), value) {
                    return None;
                }
                self.write_data_with_mask(io6_of(opcode), value, 0xff);
                Some(pc as i64 + 1)
            },
            Instruction::LDS => {
                if !second {
                    return None;
                }
                let addr = self.cpu.prog_mem[pc as usize + 1];
                if addr as usize >= DATA_SIZE {
                    return None;
                }
                self.add_cycles(1);
                let value = self.read_data(addr);
                self.set_register(d, value);
                Some(pc as i64 + 2)
            },
            Instruction::STS => {
                if !second {
                    return None;
                }
                let addr = self.cpu.prog_mem[pc as usize + 1];
                let value = self.cpu.get_data(d);
                if !self.write_ready(addr, value) {
                    return None;
                }
                self.write_data_with_mask(addr, value, 0xff);
                self.add_cycles(1);
                Some(pc as i64 + 2)
            },
            Instruction::SBI => {
                let target = io5_of(opcode);
                let value = self.read_data(target);
                if !self.write_ready(target, value | mask) {
                    return None;
                }
                self.write_data_with_mask(target, value | mask, mask);
                self.add_cycles(1);
                Some(pc as i64 + 1)
            },
            Instruction::CBI => {
                let target = io5_of(opcode);
                let value = self.read_data(target);
                if !self.write_ready(target, value & !mask) {
                    return None;
                }
                self.write_data_with_mask(target, value & !mask, mask);
                Some(pc as i64 + 1)
            },
            Instruction::SBIC => {
                let value = self.read_data(io5_of(opcode));
                if value & mask == 0 && !second {
                    return None;
                }
                proof {
                    lemma_same_frame_wf(self@.cpu, self@.cpu.skip_if(value & mask == 0).0);
                }
                Some(self.cpu.skip_if(value & mask == 0))
            },
            Instruction::SBIS => {
                let value = self.read_data(io5_of(opcode));
                if value & mask != 0 && !second {
                    return None;
                }
                proof {
                    lemma_same_frame_wf(self@.cpu, self@.cpu.skip_if(value & mask != 0).0);
                }
                Some(self.cpu.skip_if(value & mask != 0))
            },
            _ => Some(pc as i64 + 1),
        }
    }
}

} // verus!
