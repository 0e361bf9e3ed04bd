use vstd::prelude::*;
use std::collections::HashMap;
use crate::atmega328p::{
    ATMega328P, DeviceState, PeripheralMemoryReadHook, PeripheralMemoryWriteHook,
};
use crate::clock::{AVRClockEventCallback, AVRClockEventType};
use crate::cpu::{CPU, DATA_SIZE, MAX_EVENT_DELAY};
use crate::interrupt::AVRInterruptConfig;
use crate::peripheral::i2c::bus::I2CBus;

verus! {

/// Register addresses, vector and bit masks of one 8-bit timer.
#[derive(Clone, Copy, Debug, PartialEq, Eq, Structural)]
pub struct AVRTimerConfig {
    pub ovf_interrupt: u8,
    pub TIFR: u8,
    pub TCNT: u8,
    pub OCRA: u8,
    pub TCCRA: u8,
    pub TCCRB: u8,
    pub TIMSK: u8,
    pub TOV: u8,
    pub TOIE: u8,
}

/// Timer/Counter0 of the ATmega328P.
#[verifier::allow_in_spec]
pub fn TIMER_0_CONFIG() -> AVRTimerConfig
    returns
        (AVRTimerConfig {
            ovf_interrupt: 0x20,
            TIFR: 0x35,
            TCNT: 0x46,
            OCRA: 0x47,
            TCCRA: 0x44,
            TCCRB: 0x45,
            TIMSK: 0x6e,
            TOV: 1,
            TOIE: 1,
        }),
{
    AVRTimerConfig {
        ovf_interrupt: 0x20,
        TIFR: 0x35,
        TCNT: 0x46,
        OCRA: 0x47,
        TCCRA: 0x44,
        TCCRB: 0x45,
        TIMSK: 0x6e,
        TOV: 1,
        TOIE: 1,
    }
}

/// Clock Select bit 0.
pub const CS00: u8 = 0x01;

/// Clock Select bit 1.
pub const CS01: u8 = 0x02;

/// Clock Select bit 2.
pub const CS02: u8 = 0x04;

/// The value at which the counter wraps to zero.
pub const TIMER_TOP: u16 = 0xff;

#[derive(Clone, Copy, Debug, PartialEq, Eq, Structural)]
pub enum OCRUpdateMode {
    Immediate,
}

/// An 8-bit timer/counter in normal mode.
#[derive(Clone, Copy, Debug, PartialEq, Eq, Structural)]
pub struct AVRTimer {
    pub max: u16,
    pub config: AVRTimerConfig,
    /// The cycle up to which the counter has been advanced.
    pub last_cycle: u32,
    pub ocra: u16,
    pub next_ocra: u16,
    pub ocr_update_mode: OCRUpdateMode,
    pub tcnt: u16,
    /// A value the CPU wrote to TCNT that has not been taken over yet.
    pub tcnt_next: u16,
    pub tcnt_updated: bool,
    /// The clock select bits were written and the divider is stale.
    pub update_divider: bool,
    /// CPU cycles per count; 0 while the timer is stopped.
    pub divider: u16,
    /// The temporary register for 16-bit accesses.
    pub high_byte_temp: u8,
    pub ovf: AVRInterruptConfig,
}

/// The prescaler that the clock select bits choose: stopped, 1, 8, 64, 256,
/// 1024; the two reserved values stop the timer.
pub open spec fn divider_for(cs: u8) -> u16 {
    if cs == 1 {
        1
    } else if cs == 2 {
        8
    } else if cs == 3 {
        64
    } else if cs == 4 {
        256
    } else if cs == 5 {
        1024
    } else {
        0
    }
}

fn divider_of(cs: u8) -> (d: u16)
    ensures
        d == divider_for(cs),
{
    if cs == 1 {
        1
    } else if cs == 2 {
        8
    } else if cs == 3 {
        64
    } else if cs == 4 {
        256
    } else if cs == 5 {
        1024
    } else {
        0
    }
}

impl AVRTimer {
    /// A stopped timer at zero.
    pub open spec fn initial(config: AVRTimerConfig) -> AVRTimer {
        AVRTimer {
            max: 0xff,
            config,
            last_cycle: 0,
            ocra: 0,
            next_ocra: 0,
            ocr_update_mode: OCRUpdateMode::Immediate,
            tcnt: 0,
            tcnt_next: 0,
            tcnt_updated: false,
            update_divider: false,
            divider: 0,
            high_byte_temp: 0,
            ovf: AVRInterruptConfig::of_timer(config),
        }
    }

    pub fn new(config: AVRTimerConfig) -> (timer: Self)
        ensures
            timer == Self::initial(config),
    {
        let ovf = AVRInterruptConfig::new(&config);
        AVRTimer {
            max: 0xff,
            config,
            last_cycle: 0,
            ocra: 0,
            next_ocra: 0,
            ocr_update_mode: OCRUpdateMode::Immediate,
            tcnt: 0,
            tcnt_next: 0,
            tcnt_updated: false,
            update_divider: false,
            divider: 0,
            high_byte_temp: 0,
            ovf,
        }
    }

    /// TOP value of the counter.
    pub fn top(&self) -> (top: u16)
        ensures
            top == TIMER_TOP,
    {
        0xff
    }

    /// Binds reads of TCNT to the timer.
    pub fn add_TCNT_read_hook(&self, read_hooks: &mut HashMap<u16, PeripheralMemoryReadHook>)
        ensures
            final(read_hooks)@ == old(read_hooks)@.insert(
                self.config.TCNT as u16,
                PeripheralMemoryReadHook::TimerCounter,
            ),
    {
        read_hooks.insert(self.config.TCNT as u16, PeripheralMemoryReadHook::TimerCounter);
    }

    /// Binds writes of TCNT to the timer.
    pub fn add_TCNT_write_hook(&self, write_hooks: &mut HashMap<u16, PeripheralMemoryWriteHook>)
        ensures
            final(write_hooks)@ == old(write_hooks)@.insert(
                self.config.TCNT as u16,
                PeripheralMemoryWriteHook::TimerCounter,
            ),
    {
        write_hooks.insert(self.config.TCNT as u16, PeripheralMemoryWriteHook::TimerCounter);
    }

    /// Binds writes of TCCRB to the timer.
    pub fn add_TCCRB_write_hook(&self, write_hooks: &mut HashMap<u16, PeripheralMemoryWriteHook>)
        ensures
            final(write_hooks)@ == old(write_hooks)@.insert(
                self.config.TCCRB as u16,
                PeripheralMemoryWriteHook::TimerControlB,
            ),
    {
        write_hooks.insert(self.config.TCCRB as u16, PeripheralMemoryWriteHook::TimerControlB);
    }

    /// Binds writes of TIMSK to the timer.
    pub fn add_TIMSK_write_hook(&self, write_hooks: &mut HashMap<u16, PeripheralMemoryWriteHook>)
        ensures
            final(write_hooks)@ == old(write_hooks)@.insert(
                self.config.TIMSK as u16,
                PeripheralMemoryWriteHook::TimerInterruptMask,
            ),
    {
        write_hooks.insert(
            self.config.TIMSK as u16,
            PeripheralMemoryWriteHook::TimerInterruptMask,
        );
    }

    /// The value of control register B.
    pub fn tccrb(&self, cpu: &CPU) -> (r: u8)
        requires
            cpu@.data.len() >= 0x100,
        ensures
            r == cpu@.data[self.config.TCCRB as int],
    {
        cpu.get_data(self.config.TCCRB as u16)
    }

    /// The clock select bits.
    pub fn cs(&self, cpu: &CPU) -> (r: u8)
        requires
            cpu@.data.len() >= 0x100,
        ensures
            r == cpu@.data[self.config.TCCRB as int] & 0x7,
    {
        self.tccrb(cpu) & 0x7
    }
}

impl DeviceState {
    /// How far a count event advances the counter: one step for an external
    /// clock edge, else one step per full `divider` cycles since the counter
    /// was last advanced; nothing while the timer is stopped.
    pub open spec fn count_steps(self, external: bool) -> int {
        let divider = self.timer0.divider;
        let delta = self.cpu.cycles - self.timer0.last_cycle;
        if external {
            1
        } else if divider != 0 && delta >= divider {
            delta / (divider as int)
        } else {
            0
        }
    }

    /// An external clock edge is counted only while the prescaler is
    /// stopped.
    pub open spec fn count_defined(self, external: bool) -> bool {
        external ==> self.timer0.divider == 0
    }

    /// The counter advanced by the steps that are due. The counter wraps
    /// behind TOP, and a wrap raises the overflow flag.
    pub open spec fn count_advance(self, external: bool) -> DeviceState {
        let divider = self.timer0.divider;
        let delta = self.cpu.cycles - self.timer0.last_cycle;
        if (divider != 0 && delta >= divider) || external {
            let steps = self.count_steps(external);
            let sum = self.timer0.tcnt + steps;
            let timer0 = AVRTimer {
                last_cycle: (self.timer0.last_cycle + steps * divider) as u32,
                tcnt: (sum % (TIMER_TOP + 1)) as u16,
                ..self.timer0
            };
            DeviceState {
                timer0,
                cpu: if sum > TIMER_TOP && TIMER_TOP == self.timer0.max {
                    self.cpu.set_interrupt_flag(self.timer0.ovf)
                } else {
                    self.cpu
                },
                ..self
            }
        } else {
            self
        }
    }

    /// A value the CPU wrote to TCNT overrides the count.
    pub open spec fn count_take_write(self) -> DeviceState {
        if self.timer0.tcnt_updated {
            DeviceState {
                timer0: AVRTimer {
                    tcnt: self.timer0.tcnt_next,
                    tcnt_updated: false,
                    ..self.timer0
                },
                ..self
            }
        } else {
            self
        }
    }

    /// A count event of Timer0. After the counter has been advanced and a
    /// written value taken over: if the clock select bits were written, the
    /// new divider takes effect from this cycle and, unless it stops the
    /// timer, the next count is scheduled one divider period ahead;
    /// otherwise, with `reschedule`, a running timer schedules its next
    /// count for the cycle at which the next step is due.
    pub open spec fn count(self, reschedule: bool, external: bool) -> DeviceState {
        let divider = self.timer0.divider;
        let s = self.count_advance(external).count_take_write();
        if s.timer0.update_divider {
            let new_divider = divider_for(
                s.cpu.data[s.timer0.config.TCCRB as int] & 0x7,
            );
            let timer0 = AVRTimer {
                last_cycle: if new_divider != 0 {
                    s.cpu.cycles
                } else {
                    0
                },
                update_divider: false,
                divider: new_divider,
                ..s.timer0
            };
            DeviceState {
                timer0,
                cpu: if new_divider != 0 {
                    s.cpu.add_clock_event(
                        AVRClockEventCallback::TimerCount,
                        new_divider as u32,
                        AVRClockEventType::Count,
                    )
                } else {
                    s.cpu
                },
                ..s
            }
        } else if reschedule && divider != 0 {
            s.with_cpu(
                s.cpu.add_clock_event(
                    AVRClockEventCallback::TimerCount,
                    (s.timer0.last_cycle + divider - s.cpu.cycles) as u32,
                    AVRClockEventType::Count,
                ),
            )
        } else {
            s
        }
    }

    /// A read of TCNT: the count is brought up to date and its low byte is
    /// stored at `addr` and returned.
    pub open spec fn timer_tcnt_read(self, addr: u16) -> (DeviceState, u8) {
        let s = self.count(false, false);
        let value = (s.timer0.tcnt & 0xff) as u8;
        (s.with_cpu(s.cpu.with_data(addr as int, value)), value)
    }

    /// A write to TCNT: the value is taken over at the next count event, and
    /// a scheduled count is moved to the next cycle. The router stores the
    /// byte.
    pub open spec fn timer_tcnt_write(self, value: u8) -> DeviceState {
        DeviceState {
            timer0: AVRTimer {
                tcnt_next: value as u16 | ((self.timer0.high_byte_temp as u16) << 8),
                tcnt_updated: true,
                ..self.timer0
            },
            cpu: self.cpu.update_clock_event(
                AVRClockEventCallback::TimerCount,
                AVRClockEventType::Count,
                0,
            ),
            ..self
        }
    }

    /// A write to TCCRB: the byte is stored, and one count event is
    /// scheduled for the next cycle in place of any that was scheduled; it
    /// will put the new clock select into effect.
    pub open spec fn timer_tccrb_write(self, value: u8) -> DeviceState {
        DeviceState {
            timer0: AVRTimer { update_divider: true, ..self.timer0 },
            cpu: self.cpu.with_data(self.timer0.config.TCCRB as int, value).clear_clock_event(
                AVRClockEventType::Count,
            ).add_clock_event(AVRClockEventCallback::TimerCount, 0, AVRClockEventType::Count),
            ..self
        }
    }

    /// A write to TIMSK: the overflow interrupt follows its enable bit. The
    /// router stores the byte.
    pub open spec fn timer_timsk_write(self, value: u8) -> DeviceState {
        self.with_cpu(self.cpu.update_interrupt_enable(self.timer0.ovf, value))
    }
}

impl ATMega328P {
    /// Timer0's clock select bits.
    pub fn timer0_cs(&self) -> (r: u8)
        requires
            self@.cpu.data.len() >= 0x100,
        ensures
            r == self@.cpu.data[self.timer0.config.TCCRB as int] & 0x7,
    {
        self.timer0.cs(&self.cpu)
    }

    /// A count event of Timer0.
    pub fn count(&mut self, _bus: Option<&mut I2CBus>, reschedule: bool, external: bool)
        requires
            old(self)@.wf(),
            old(self)@.headroom(MAX_EVENT_DELAY as int),
            old(self)@.count_defined(external),
        ensures
            final(self)@ == old(self)@.count(reschedule, external),
            final(self)@.wf(),
            final(self)@.cpu.cycles == old(self)@.cpu.cycles,
            match _bus {
                Some(b) => *final(b) == *b,
                None => true,
            },
    {
        let divider = self.timer0.divider;
        let last_cycle = self.timer0.last_cycle;
        let cycles = self.cpu.cycles;
        let delta: u32 = cycles - last_cycle;
        if (divider != 0 && delta >= divider as u32) || external {
            let steps: u32 = if external {
                1
            } else {
                delta / (divider as u32)
            };
            assert(steps * divider <= delta && (divider != 0 ==> delta - steps * divider
                < divider)) by (nonlinear_arith)
                requires
                    external ==> steps == 1 && divider == 0,
                    !external ==> divider != 0 && steps == delta / (divider as u32),
            ;
            self.timer0.last_cycle = last_cycle + steps * (divider as u32);
            let sum: u64 = self.timer0.tcnt as u64 + steps as u64;
            let top = self.timer0.top();
            self.timer0.tcnt = (sum % (top as u64 + 1)) as u16;
            if sum > top as u64 && top == self.timer0.max {
                self.cpu.set_interrupt_flag(self.timer0.ovf);
            }
        }
        assert(self@ == old(self)@.count_advance(external));
        if self.timer0.tcnt_updated {
            self.timer0.tcnt = self.timer0.tcnt_next;
            self.timer0.tcnt_updated = false;
        }
        if self.timer0.update_divider {
            let cs = self.timer0_cs();
            let new_divider = divider_of(cs);
            self.timer0.last_cycle = if new_divider != 0 {
                self.cpu.cycles
            } else {
                0
            };
            self.timer0.update_divider = false;
            self.timer0.divider = new_divider;
            if new_divider != 0 {
                self.cpu.add_clock_event(
                    AVRClockEventCallback::TimerCount,
                    new_divider as u32,
                    AVRClockEventType::Count,
                );
            }
            return ;
        }
        if reschedule && divider != 0 {
            self.cpu.add_clock_event(
                AVRClockEventCallback::TimerCount,
                self.timer0.last_cycle + divider as u32 - self.cpu.cycles,
                AVRClockEventType::Count,
            );
        }
    }

    /// Carries out a read of TCNT at `addr`.
    pub fn timer_tcnt_read(&mut self, addr: u16) -> (value: u8)
        requires
            old(self)@.wf(),
            old(self)@.headroom(MAX_EVENT_DELAY as int),
            addr < DATA_SIZE,
        ensures
            (final(self)@, value) == old(self)@.timer_tcnt_read(addr),
            final(self)@.wf(),
            final(self)@.cpu.cycles == old(self)@.cpu.cycles,
    {
        self.count(None, false, false);
        let data: u8 = (self.timer0.tcnt & 0xff) as u8;
        self.cpu.set_data(addr, data);
        data
    }

    /// Carries out a write to TCNT; the router still stores the byte.
    pub fn timer_tcnt_write(&mut self, value: u8) -> (handled: bool)
        requires
            old(self)@.wf(),
            old(self)@.headroom(MAX_EVENT_DELAY as int),
        ensures
            !handled,
            final(self)@ == old(self)@.timer_tcnt_write(value),
            final(self)@.wf(),
            final(self)@.cpu.cycles == old(self)@.cpu.cycles,
    {
        self.timer0.tcnt_next = value as u16 | ((self.timer0.high_byte_temp as u16) << 8);
        self.timer0.tcnt_updated = true;
        self.cpu.update_clock_event(
            AVRClockEventCallback::TimerCount,
            AVRClockEventType::Count,
            0,
        );
        false
    }

    /// Carries out a write to TCCRB.
    pub fn timer_tccrb_write(&mut self, value: u8) -> (handled: bool)
        requires
            old(self)@.wf(),
            old(self)@.headroom(MAX_EVENT_DELAY as int),
        ensures
            handled,
            final(self)@ == old(self)@.timer_tccrb_write(value),
            final(self)@.wf(),
            final(self)@.cpu.cycles == old(self)@.cpu.cycles,
    {
        self.cpu.set_data(self.timer0.config.TCCRB as u16, value);
        self.timer0.update_divider = true;
        self.cpu.clear_clock_event(AVRClockEventType::Count);
        self.cpu.add_clock_event(AVRClockEventCallback::TimerCount, 0, AVRClockEventType::Count);
        true
    }

    /// Carries out a write to TIMSK; the router still stores the byte.
    pub fn timer_timsk_write(&mut self, value: u8) -> (handled: bool)
        requires
            old(self)@.wf(),
        ensures
            !handled,
            final(self)@ == old(self)@.timer_timsk_write(value),
            final(self)@.wf(),
            final(self)@.cpu.cycles == old(self)@.cpu.cycles,
    {
        self.cpu.update_interrupt_enable(self.timer0.ovf, value);
        false
    }
}

} // verus!
