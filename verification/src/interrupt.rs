use vstd::prelude::*;
use crate::cpu::{CpuState, CPU, SP, SREG};
use crate::peripheral::timer::AVRTimerConfig;

verus! {

/// Number of interrupt vectors the queue can hold.
pub const MAX_INTERRUPTS: usize = 128;

/// Describes one interrupt source: its vector, and where its enable and flag
/// bits live. With `inverse_flag` the source is pending while the flag bits
/// are cleared.
#[derive(Clone, Copy, Debug, PartialEq, Eq, Structural)]
pub struct AVRInterruptConfig {
    pub address: u8,
    pub enable_register: u16,
    pub enable_mask: u8,
    pub flag_register: u16,
    pub flag_mask: u8,
    pub inverse_flag: bool,
}

impl AVRInterruptConfig {
    /// The overflow interrupt of the timer that `config` describes.
    pub open spec fn of_timer(config: AVRTimerConfig) -> AVRInterruptConfig {
        AVRInterruptConfig {
            address: config.ovf_interrupt,
            enable_register: config.TIMSK as u16,
            enable_mask: config.TOIE,
            flag_register: config.TIFR as u16,
            flag_mask: config.TOV,
            inverse_flag: false,
        }
    }

    pub fn new(config: &AVRTimerConfig) -> (r: Self)
        ensures
            r == Self::of_timer(*config),
    {
        AVRInterruptConfig {
            address: config.ovf_interrupt,
            enable_register: config.TIMSK as u16,
            enable_mask: config.TOIE,
            flag_register: config.TIFR as u16,
            flag_mask: config.TOV,
            inverse_flag: false,
        }
    }

    /// The descriptor's vector fits the queue and its registers lie in a data
    /// space of `data_len` bytes.
    pub open spec fn fits(self, data_len: int) -> bool {
        &&& self.address < MAX_INTERRUPTS
        &&& self.enable_register < data_len
        &&& self.flag_register < data_len
    }
}

impl CpuState {
    /// Bytes of a return address on the stack.
    pub open spec fn return_size(self) -> u16 {
        if self.pc_22_bits {
            3
        } else {
            2
        }
    }

    /// The stack has room in the data space for a return address.
    pub open spec fn push_defined(self) -> bool {
        let sp = self.sp();
        &&& sp < self.data.len()
        &&& sp.wrapping_sub(1) < self.data.len()
        &&& self.pc_22_bits ==> sp.wrapping_sub(2) < self.data.len()
    }

    /// Pushes the return address `ret`: low byte at the stack pointer, the
    /// higher bytes below it; the stack pointer then moves down past them.
    pub open spec fn push_return(self, ret: u32) -> CpuState {
        let sp = self.sp();
        let low = self.with_data(sp as int, (ret % 256) as u8).with_data(
            sp.wrapping_sub(1) as int,
            ((ret / 256) % 256) as u8,
        );
        let all = if self.pc_22_bits {
            low.with_data(sp.wrapping_sub(2) as int, ((ret / 65536) % 256) as u8)
        } else {
            low
        };
        all.with_word(SP as int, sp.wrapping_sub(self.return_size()))
    }

    /// Takes the interrupt with vector `addr`: the program counter is
    /// pushed, SREG.I is cleared, two cycles pass and execution continues at
    /// the vector.
    pub open spec fn avr_interrupt(self, addr: u8) -> CpuState {
        let pushed = self.push_return(self.pc);
        pushed.with_sreg(pushed.sreg() & 0x7f).with_cycles((self.cycles + 2) as u32).with_pc(
            addr as u32,
        )
    }
}

impl CPU {
    /// Whether the stack has room in the data space for a return address.
    pub fn push_ready(&self) -> (ok: bool)
        requires
            self@.data.len() >= 0x100,
        ensures
            ok == self@.push_defined(),
    {
        let sp = self.get_data_u16(SP);
        let len = self.data.len();
        (sp as usize) < len && (sp.wrapping_sub(1) as usize) < len && (!self.pc_22_bits || (
        sp.wrapping_sub(2) as usize) < len)
    }

    /// Pushes a return address.
    pub fn push_return(&mut self, ret: u32)
        requires
            old(self)@.data.len() >= 0x100,
            old(self)@.push_defined(),
        ensures
            final(self)@ == old(self)@.push_return(ret),
            old(self)@.wf() ==> final(self)@.wf(),
    {
        let sp = self.get_data_u16(SP);
        self.set_data(sp, (ret % 256) as u8);
        self.set_data(sp.wrapping_sub(1), ((ret / 256) % 256) as u8);
        if self.pc_22_bits {
            self.set_data(sp.wrapping_sub(2), ((ret / 65536) % 256) as u8);
        }
        let size: u16 = if self.pc_22_bits {
            3
        } else {
            2
        };
        self.set_data_u16(SP, sp.wrapping_sub(size));
    }
}

/// Enters the interrupt handler at vector `addr`.
pub fn avr_interrupt(cpu: &mut CPU, addr: u8)
    requires
        old(cpu)@.data.len() >= 0x100,
        old(cpu)@.push_defined(),
        old(cpu)@.cycles + 2 <= u32::MAX,
    ensures
        final(cpu)@ == old(cpu)@.avr_interrupt(addr),
        old(cpu)@.wf() ==> final(cpu)@.wf(),
{
    let pc = cpu.pc;
    cpu.push_return(pc);
    let sreg = cpu.sreg();
    cpu.set_sreg(sreg & 0x7f);
    cpu.cycles = cpu.cycles + 2;
    cpu.pc = addr as u32;
}

} // verus!
