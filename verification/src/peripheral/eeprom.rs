use vstd::prelude::*;
use std::collections::HashMap;
use crate::atmega328p::{ATMega328P, DeviceState, PeripheralMemoryWriteHook};
use crate::clock::{AVRClockEventCallback, AVRClockEventType};
use crate::cpu::MAX_EVENT_DELAY;
use crate::interrupt::AVRInterruptConfig;

verus! {

/// EEPROM Read Enable.
pub const EERE: u8 = 0x01;

/// EEPROM Write Enable.
pub const EEPE: u8 = 0x02;

/// EEPROM Master Write Enable.
pub const EEMPE: u8 = 0x04;

/// EEPROM Ready Interrupt Enable.
pub const EERIE: u8 = 0x08;

/// EEPROM Programming Mode bit 0: set for erase only.
pub const EEPM0: u8 = 0x10;

/// EEPROM Programming Mode bit 1: set for write only.
pub const EEPM1: u8 = 0x20;

/// The bits of EECR that a write goes to.
pub const EECR_WRITE_MASK: u8 = 0x3e;

/// Cycles for which EEMPE stays set.
pub const EEMPE_CYCLES: u32 = 4;

#[derive(Clone, Copy, Debug, PartialEq, Eq, Structural)]
pub struct AVREEPROMConfig {
    pub eepromReadyInterrupt: u8,
    pub EECR: u8,
    pub EEDR: u8,
    pub EEARL: u8,
    pub EEARH: u8,
    /// Clock cycles an erase takes.
    pub erase_cycles: u32,
    /// Clock cycles a write takes.
    pub write_cycles: u32,
}

/// The EEPROM of the ATmega328P; erase and write take 1.8 ms each at 16 MHz.
#[verifier::allow_in_spec]
pub fn EEPROM_CONFIG() -> AVREEPROMConfig
    returns
        (AVREEPROMConfig {
            eepromReadyInterrupt: 0x2c,
            EECR: 0x3f,
            EEDR: 0x40,
            EEARL: 0x41,
            EEARH: 0x42,
            erase_cycles: 28800,
            write_cycles: 28800,
        }),
{
    AVREEPROMConfig {
        eepromReadyInterrupt: 0x2c,
        EECR: 0x3f,
        EEDR: 0x40,
        EEARL: 0x41,
        EEARH: 0x42,
        erase_cycles: 28800,
        write_cycles: 28800,
    }
}

pub struct AVREEPROM {
    pub config: AVREEPROMConfig,
    pub eer: AVRInterruptConfig,
    /// The cycle at which the master write enable window closes.
    pub write_enabled_cycles: u32,
    /// The cycle at which the write in progress is complete.
    pub write_complete_cycles: u32,
    pub memory: Vec<u8>,
}

/// The mathematical value of the EEPROM controller.
pub struct EepromState {
    pub config: AVREEPROMConfig,
    pub eer: AVRInterruptConfig,
    pub write_enabled_cycles: u32,
    pub write_complete_cycles: u32,
    pub memory: Seq<u8>,
}

impl View for AVREEPROM {
    type V = EepromState;

    open spec fn view(&self) -> EepromState {
        EepromState {
            config: self.config,
            eer: self.eer,
            write_enabled_cycles: self.write_enabled_cycles,
            write_complete_cycles: self.write_complete_cycles,
            memory: self.memory@,
        }
    }
}

impl EepromState {
    /// An erased EEPROM of `memory_size` bytes. The ready interrupt is
    /// pending while EEPE is low, so its flag is inverse.
    pub open spec fn initial(config: AVREEPROMConfig, memory_size: nat) -> EepromState {
        EepromState {
            config,
            eer: AVRInterruptConfig {
                address: config.eepromReadyInterrupt,
                flag_register: config.EECR as u16,
                flag_mask: EEPE,
                enable_register: config.EECR as u16,
                enable_mask: EERIE,
                inverse_flag: true,
            },
            write_enabled_cycles: 0,
            write_complete_cycles: 0,
            memory: Seq::new(memory_size, |i: int| 0xffu8),
        }
    }

    /// A write can only clear bits: the byte becomes its old value AND
    /// `value`.
    pub open spec fn write_memory(self, addr: int, value: u8) -> EepromState {
        EepromState { memory: self.memory.update(addr, self.memory[addr] & value), ..self }
    }

    /// An erase sets every bit of the byte.
    pub open spec fn erase_memory(self, addr: int) -> EepromState {
        EepromState { memory: self.memory.update(addr, 0xffu8), ..self }
    }
}

impl AVREEPROM {
    pub fn new(config: AVREEPROMConfig, memory_size: usize) -> (eeprom: Self)
        ensures
            eeprom@ == EepromState::initial(config, memory_size as nat),
    {
        let eer = AVRInterruptConfig {
            address: config.eepromReadyInterrupt,
            flag_register: config.EECR as u16,
            flag_mask: EEPE,
            enable_register: config.EECR as u16,
            enable_mask: EERIE,
            inverse_flag: true,
        };
        let memory: Vec<u8> = vec![0xffu8; memory_size];
        assert(memory@ =~= Seq::new(memory_size as nat, |i: int| 0xffu8));
        Self { config, eer, write_enabled_cycles: 0, write_complete_cycles: 0, memory }
    }

    /// Binds writes of EECR to the EEPROM controller.
    pub fn add_EECR_write_hook(&self, write_hooks: &mut HashMap<u16, PeripheralMemoryWriteHook>)
        ensures
            final(write_hooks)@ == old(write_hooks)@.insert(
                self.config.EECR as u16,
                PeripheralMemoryWriteHook::EepromControl,
            ),
    {
        write_hooks.insert(self.config.EECR as u16, PeripheralMemoryWriteHook::EepromControl);
    }

    pub fn write_memory(&mut self, addr: u16, value: u8)
        requires
            addr < old(self)@.memory.len(),
        ensures
            final(self)@ == old(self)@.write_memory(addr as int, value),
    {
        self.memory[addr as usize] = self.memory[addr as usize] & value;
    }

    pub fn erase_memory(&mut self, addr: u16)
        requires
            addr < old(self)@.memory.len(),
        ensures
            final(self)@ == old(self)@.erase_memory(addr as int),
    {
        self.memory[addr as usize] = 0xff;
    }
}

impl DeviceState {
    /// The EEPROM address register, EEARH:EEARL.
    pub open spec fn eeprom_address(self) -> int {
        256 * self.cpu.data[self.eeprom.config.EEARH as int]
            + self.cpu.data[self.eeprom.config.EEARL as int]
    }

    /// The first half of a write to EECR: the writable bits are stored, the
    /// ready interrupt follows its enable bit, a read request clears it, and
    /// EEMPE opens the window in which EEPE is accepted.
    pub open spec fn eeprom_control(self, value: u8) -> DeviceState {
        let eecr = self.eeprom.config.EECR as int;
        let stored = self.cpu.with_data(
            eecr,
            (self.cpu.data[eecr] & !EECR_WRITE_MASK) | (value & EECR_WRITE_MASK),
        ).update_interrupt_enable(self.eeprom.eer, value);
        let read = if value & EERE != 0 {
            stored.clear_interrupt(self.eeprom.eer, true)
        } else {
            stored
        };
        if value & EEMPE != 0 {
            DeviceState {
                cpu: read.add_clock_event(
                    AVRClockEventCallback::EepromMasterWriteExpire,
                    EEMPE_CYCLES,
                    AVRClockEventType::EEPROMFinish,
                ),
                eeprom: EepromState {
                    write_enabled_cycles: (self.cpu.cycles + EEMPE_CYCLES) as u32,
                    ..self.eeprom
                },
                ..self
            }
        } else {
            self.with_cpu(read)
        }
    }

    /// Whether a write of `value` to EECR now starts programming: EEPE is
    /// written inside the EEMPE window while no write is in progress.
    pub open spec fn eeprom_write_accepted(self, value: u8) -> bool {
        let s = self.eeprom_control(value);
        &&& value & EEPE != 0
        &&& s.cpu.cycles < s.eeprom.write_enabled_cycles
        &&& s.cpu.cycles >= s.eeprom.write_complete_cycles
    }

    /// A write of `value` to EECR can be carried out: a byte that is to be
    /// erased or written lies inside the EEPROM.
    pub open spec fn eeprom_eecr_defined(self, value: u8) -> bool {
        self.eeprom_write_accepted(value) && (value & EEPM1 == 0 || value & EEPM0 == 0)
            ==> self.eeprom_address() < self.eeprom.memory.len()
    }

    /// A write of `value` to EECR. Programming erases the byte unless EEPM1
    /// is set and writes EEDR into it unless EEPM0 is set, sets EEPE until
    /// the programming time has passed, and halts the CPU for two cycles.
    /// EEPE outside the EEMPE window is dropped; EEPE during a write in
    /// progress is ignored.
    pub open spec fn eeprom_eecr_write(self, value: u8) -> DeviceState {
        let s = self.eeprom_control(value);
        let eecr = self.eeprom.config.EECR as int;
        if value & EEPE == 0 {
            s
        } else if s.cpu.cycles >= s.eeprom.write_enabled_cycles {
            s.with_cpu(s.cpu.with_data(eecr, s.cpu.data[eecr] & !EEPE))
        } else if s.cpu.cycles < s.eeprom.write_complete_cycles {
            s
        } else {
            let addr = self.eeprom_address();
            let eedr = s.cpu.data[self.eeprom.config.EEDR as int];
            let erased = if value & EEPM1 == 0 {
                s.eeprom.erase_memory(addr)
            } else {
                s.eeprom
            };
            let written = if value & EEPM0 == 0 {
                erased.write_memory(addr, eedr)
            } else {
                erased
            };
            let duration = (if value & EEPM1 == 0 {
                self.eeprom.config.erase_cycles as int
            } else {
                0
            }) + (if value & EEPM0 == 0 {
                self.eeprom.config.write_cycles as int
            } else {
                0
            });
            let busy = s.cpu.with_data(eecr, s.cpu.data[eecr] | EEPE).add_clock_event(
                AVRClockEventCallback::EepromWriteDone,
                duration as u32,
                AVRClockEventType::EEPROMWriteComplete,
            );
            DeviceState {
                cpu: busy.with_cycles((s.cpu.cycles + 2) as u32),
                eeprom: EepromState {
                    write_complete_cycles: (s.cpu.cycles + duration) as u32,
                    ..written
                },
                ..s
            }
        }
    }

    /// The EEMPE window closes: EEMPE is cleared.
    pub open spec fn eeprom_master_write_expire(self) -> DeviceState {
        let eecr = self.eeprom.config.EECR as int;
        self.with_cpu(self.cpu.with_data(eecr, self.cpu.data[eecr] & !EEMPE))
    }

    /// Programming is complete: the ready flag is raised, which clears EEPE.
    pub open spec fn eeprom_write_done(self) -> DeviceState {
        self.with_cpu(self.cpu.set_interrupt_flag(self.eeprom.eer))
    }
}

impl ATMega328P {
    /// Whether a write of `value` to EECR can be carried out.
    pub fn eeprom_eecr_ready(&self, value: u8) -> (ok: bool)
        requires
            self@.wf(),
            self@.headroom(MAX_EVENT_DELAY as int + 8),
        ensures
            ok == self@.eeprom_eecr_defined(value),
    {
        let window: u32 = if value & EEMPE != 0 {
            self.cpu.cycles + EEMPE_CYCLES
        } else {
            self.eeprom.write_enabled_cycles
        };
        let accepted = value & EEPE != 0 && self.cpu.cycles < window && self.cpu.cycles
            >= self.eeprom.write_complete_cycles;
        let addr: usize = 256 * (self.cpu.data[self.eeprom.config.EEARH as usize] as usize)
            + self.cpu.data[self.eeprom.config.EEARL as usize] as usize;
        if accepted && (value & EEPM1 == 0 || value & EEPM0 == 0) {
            addr < self.eeprom.memory.len()
        } else {
            true
        }
    }

    /// Carries out a write of `value` to EECR; the write is always handled.
    pub fn eeprom_eecr_write(&mut self, value: u8) -> (handled: bool)
        requires
            old(self)@.wf(),
            old(self)@.headroom(MAX_EVENT_DELAY as int + 8),
            old(self)@.eeprom_eecr_defined(value),
        ensures
            handled,
            final(self)@ == old(self)@.eeprom_eecr_write(value),
            final(self)@.wf(),
    {
        let eecr = self.eeprom.config.EECR as u16;
        let addr: u16 = 256 * (self.cpu.data[self.eeprom.config.EEARH as usize] as u16)
            + self.cpu.data[self.eeprom.config.EEARL as usize] as u16;
        let stored: u8 = (self.cpu.data[eecr as usize] & !EECR_WRITE_MASK) | (value
            & EECR_WRITE_MASK);
        self.cpu.set_data(eecr, stored);
        self.cpu.update_interrupt_enable(self.eeprom.eer, value);
        if value & EERE != 0 {
            self.cpu.clear_interrupt(&self.eeprom.eer, true);
        }
        if value & EEMPE != 0 {
            self.eeprom.write_enabled_cycles = self.cpu.cycles + EEMPE_CYCLES;
            self.cpu.add_clock_event(
                AVRClockEventCallback::EepromMasterWriteExpire,
                EEMPE_CYCLES,
                AVRClockEventType::EEPROMFinish,
            );
        }
        assert(self@ == old(self)@.eeprom_control(value));
        if value & EEPE != 0 {
            if self.cpu.cycles >= self.eeprom.write_enabled_cycles {
                let cleared: u8 = self.cpu.data[eecr as usize] & !EEPE;
                self.cpu.set_data(eecr, cleared);
                return true;
            }
            if self.cpu.cycles < self.eeprom.write_complete_cycles {
                return true;
            }
            let eedr = self.cpu.data[self.eeprom.config.EEDR as usize];
            let mut duration: u32 = 0;
            if value & EEPM1 == 0 {
                self.eeprom.erase_memory(addr);
                duration = duration + self.eeprom.config.erase_cycles;
            }
            if value & EEPM0 == 0 {
                self.eeprom.write_memory(addr, eedr);
                duration = duration + self.eeprom.config.write_cycles;
            }
            self.eeprom.write_complete_cycles = self.cpu.cycles + duration;
            let busy: u8 = self.cpu.data[eecr as usize] | EEPE;
            self.cpu.set_data(eecr, busy);
            self.cpu.add_clock_event(
                AVRClockEventCallback::EepromWriteDone,
                duration,
                AVRClockEventType::EEPROMWriteComplete,
            );
            self.cpu.cycles = self.cpu.cycles + 2;
        }
        true
    }

    /// The EEMPE window closes.
    pub fn eeprom_master_write_expire(&mut self)
        requires
            old(self)@.wf(),
        ensures
            final(self)@ == old(self)@.eeprom_master_write_expire(),
            final(self)@.wf(),
    {
        let eecr = self.eeprom.config.EECR as u16;
        let cleared: u8 = self.cpu.data[eecr as usize] & !EEMPE;
        self.cpu.set_data(eecr, cleared);
    }

    /// Programming is complete.
    pub fn eeprom_write_done(&mut self)
        requires
            old(self)@.wf(),
        ensures
            final(self)@ == old(self)@.eeprom_write_done(),
            final(self)@.wf(),
    {
        self.cpu.set_interrupt_flag(self.eeprom.eer);
    }
}

} // verus!
