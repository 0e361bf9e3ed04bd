use vstd::prelude::*;
use std::collections::HashMap;
use crate::atmega328p::{ATMega328P, DeviceState, PeripheralMemoryWriteHook};
use crate::clock::{AVRClockEventCallback, AVRClockEventType};
use crate::cpu::{CpuState, CPU, DATA_SIZE, MAX_EVENT_DELAY};
use crate::interrupt::AVRInterruptConfig;
use crate::peripheral::i2c::bus::{bus_before, I2CBus, I2CBusStatus};

pub mod bus;

verus! {

/// TWI Interrupt Flag.
pub const TWCR_TWINT: u8 = 0x80;

/// TWI Enable Acknowledge Bit.
pub const TWCR_TWEA: u8 = 0x40;

/// TWI START Condition Bit.
pub const TWCR_TWSTA: u8 = 0x20;

/// TWI STOP Condition Bit.
pub const TWCR_TWSTO: u8 = 0x10;

/// TWI Interrupt Enable.
pub const TWCR_TWIE: u8 = 0x1;

/// TWI Enable Bit.
pub const TWCR_TWEN: u8 = 0x4;

/// TWI Status field of TWSR.
pub const TWSR_TWS_MASK: u8 = 0xf8;

/// TWI Prescaler field of TWSR.
pub const TWSR_TWPS_MASK: u8 = 0x3;

pub const STATUS_IDLE: u8 = 0xf8;

pub const STATUS_START: u8 = 0x08;

pub const STATUS_REPEATED_START: u8 = 0x10;

pub const STATUS_SLAW_ACK: u8 = 0x18;

pub const STATUS_SLAW_NACK: u8 = 0x20;

pub const STATUS_DATA_SENT_ACK: u8 = 0x28;

pub const STATUS_DATA_SENT_NACK: u8 = 0x30;

pub const STATUS_SLAR_ACK: u8 = 0x40;

pub const STATUS_SLAR_NACK: u8 = 0x48;

pub const STATUS_DATA_RECEIVED_ACK: u8 = 0x50;

pub const STATUS_DATA_RECEIVED_NACK: u8 = 0x58;

/// Vector and register addresses of the two-wire interface.
#[derive(Clone, Copy, Debug, PartialEq, Eq, Structural)]
pub struct TWIConfig {
    pub twi_interrupt: u8,
    pub TWBR: u8,
    pub TWSR: u8,
    pub TWCR: u8,
    pub TWDR: u8,
}

#[verifier::allow_in_spec]
pub fn TWI_CONFIG() -> TWIConfig
    returns
        (TWIConfig { twi_interrupt: 0x30, TWBR: 0xb8, TWSR: 0xb9, TWCR: 0xbc, TWDR: 0xbb }),
{
    TWIConfig { twi_interrupt: 0x30, TWBR: 0xb8, TWSR: 0xb9, TWCR: 0xbc, TWDR: 0xbb }
}

/// The two-wire (I2C) master.
#[derive(Clone, Copy, Debug, PartialEq, Eq, Structural)]
pub struct AVRI2C {
    pub config: TWIConfig,
    /// Clock frequency in Hz.
    pub freq_hz: usize,
    pub twi: AVRInterruptConfig,
    /// A bus operation is under way.
    pub busy: bool,
    /// The master has put a byte on the bus and waits for the slave's answer.
    pub wait_ack: bool,
}

/// The bit rate prescaler that the two prescaler bits choose.
pub open spec fn prescaler_for(bits: u8) -> int {
    if bits == 0 {
        1
    } else if bits == 1 {
        4
    } else if bits == 2 {
        16
    } else {
        64
    }
}

impl AVRI2C {
    pub open spec fn initial(config: TWIConfig, freq_hz: usize) -> AVRI2C {
        AVRI2C {
            config,
            freq_hz,
            twi: AVRInterruptConfig {
                address: config.twi_interrupt,
                flag_register: config.TWCR as u16,
                flag_mask: TWCR_TWINT,
                enable_register: config.TWCR as u16,
                enable_mask: TWCR_TWIE,
                inverse_flag: false,
            },
            busy: false,
            wait_ack: false,
        }
    }

    /// The status field of TWSR.
    pub open spec fn status_of(self, data: Seq<u8>) -> u8 {
        data[self.config.TWSR as int] & TWSR_TWS_MASK
    }

    /// The CPU after the master has reported `status`: the status field of
    /// TWSR holds it and the interrupt flag TWINT is raised.
    pub open spec fn reported(self, cpu: CpuState, status: u8) -> CpuState {
        let twsr = self.config.TWSR as int;
        cpu.with_data(twsr, (cpu.data[twsr] & !TWSR_TWS_MASK) | status).set_interrupt_flag(
            self.twi,
        )
    }

    /// The status that a completed START reports: START from idle, else
    /// REPEATED START.
    pub open spec fn start_status(self, data: Seq<u8>) -> u8 {
        if self.status_of(data) == STATUS_IDLE {
            STATUS_START
        } else {
            STATUS_REPEATED_START
        }
    }

    /// The status that a completed address phase reports, by the direction
    /// bit in TWDR and the slave's answer.
    pub open spec fn connect_status(self, data: Seq<u8>, acked: bool) -> u8 {
        if data[self.config.TWDR as int] & 0x1 != 0 {
            if acked {
                STATUS_SLAR_ACK
            } else {
                STATUS_SLAR_NACK
            }
        } else {
            if acked {
                STATUS_SLAW_ACK
            } else {
                STATUS_SLAW_NACK
            }
        }
    }

    /// SCL frequency: `f_cpu / (16 + 2 * TWBR * prescaler)`.
    pub open spec fn scl_frequency_of(self, data: Seq<u8>) -> int {
        self.freq_hz as int / (16 + 2 * data[self.config.TWBR as int] * prescaler_for(
            data[self.config.TWSR as int] & TWSR_TWPS_MASK,
        ))
    }

    /// A master that has just been enabled; it reports the idle status.
    pub fn new(config: TWIConfig, freq_hz: usize, cpu: &mut CPU) -> (i2c: Self)
        requires
            old(cpu)@.wf(),
            config.twi_interrupt < 128,
        ensures
            i2c == Self::initial(config, freq_hz),
            final(cpu)@ == i2c.reported(old(cpu)@, STATUS_IDLE),
            final(cpu)@.wf(),
    {
        let twi = AVRInterruptConfig {
            address: config.twi_interrupt,
            flag_register: config.TWCR as u16,
            flag_mask: TWCR_TWINT,
            enable_register: config.TWCR as u16,
            enable_mask: TWCR_TWIE,
            inverse_flag: false,
        };
        let mut i2c = Self { config, freq_hz, twi, busy: false, wait_ack: false };
        assert(STATUS_IDLE & 0x3 == 0) by (bit_vector);
        i2c.update_status(cpu, STATUS_IDLE);
        i2c
    }

    /// Binds writes of TWCR to the two-wire master.
    pub fn add_TWCR_write_hook(&self, write_hooks: &mut HashMap<u16, PeripheralMemoryWriteHook>)
        ensures
            final(write_hooks)@ == old(write_hooks)@.insert(
                self.config.TWCR as u16,
                PeripheralMemoryWriteHook::TwiControl,
            ),
    {
        write_hooks.insert(self.config.TWCR as u16, PeripheralMemoryWriteHook::TwiControl);
    }

    /// The START condition has been sent.
    pub fn complete_start(&mut self, cpu: &mut CPU)
        requires
            old(cpu)@.wf(),
            old(self).twi.fits(DATA_SIZE as int),
        ensures
            *final(self) == (AVRI2C { busy: false, ..*old(self) }),
            final(cpu)@ == old(self).reported(
                old(cpu)@,
                old(self).start_status(old(cpu)@.data),
            ),
            final(cpu)@.wf(),
    {
        self.busy = false;
        let status = if self.status(&cpu.data) == STATUS_IDLE {
            STATUS_START
        } else {
            STATUS_REPEATED_START
        };
        assert(STATUS_START & 0x3 == 0 && STATUS_REPEATED_START & 0x3 == 0) by (bit_vector);
        self.update_status(cpu, status);
    }

    /// The STOP condition has been sent: TWSTO is cleared and the master is
    /// idle again.
    pub fn complete_stop(&mut self, cpu: &mut CPU)
        requires
            old(cpu)@.wf(),
            old(self).twi.fits(DATA_SIZE as int),
        ensures
            *final(self) == (AVRI2C { busy: false, ..*old(self) }),
            final(cpu)@ == old(self).reported(
                old(cpu)@.with_data(
                    old(self).config.TWCR as int,
                    old(cpu)@.data[old(self).config.TWCR as int] & !TWCR_TWSTO,
                ),
                STATUS_IDLE,
            ),
            final(cpu)@.wf(),
    {
        self.busy = false;
        let twcr = self.config.TWCR as u16;
        let cleared: u8 = cpu.get_data(twcr) & !TWCR_TWSTO;
        cpu.set_data(twcr, cleared);
        assert(STATUS_IDLE & 0x3 == 0) by (bit_vector);
        self.update_status(cpu, STATUS_IDLE);
    }

    /// The address has been sent and the slave has answered.
    pub fn complete_connect(&mut self, acked: bool, cpu: &mut CPU)
        requires
            old(cpu)@.wf(),
            old(self).twi.fits(DATA_SIZE as int),
        ensures
            *final(self) == (AVRI2C { busy: false, ..*old(self) }),
            final(cpu)@ == old(self).reported(
                old(cpu)@,
                old(self).connect_status(old(cpu)@.data, acked),
            ),
            final(cpu)@.wf(),
    {
        self.busy = false;
        assert(STATUS_SLAR_ACK & 0x3 == 0 && STATUS_SLAR_NACK & 0x3 == 0 && STATUS_SLAW_ACK & 0x3
            == 0 && STATUS_SLAW_NACK & 0x3 == 0) by (bit_vector);
        if cpu.get_data(self.config.TWDR as u16) & 0x1 != 0 {
            self.update_status(
                cpu,
                if acked {
                    STATUS_SLAR_ACK
                } else {
                    STATUS_SLAR_NACK
                },
            );
        } else {
            self.update_status(
                cpu,
                if acked {
                    STATUS_SLAW_ACK
                } else {
                    STATUS_SLAW_NACK
                },
            );
        }
    }

    /// A data byte has been sent and the slave has answered.
    pub fn complete_write(&mut self, acked: bool, cpu: &mut CPU)
        requires
            old(cpu)@.wf(),
            old(self).twi.fits(DATA_SIZE as int),
        ensures
            *final(self) == (AVRI2C { busy: false, ..*old(self) }),
            final(cpu)@ == old(self).reported(
                old(cpu)@,
                if acked {
                    STATUS_DATA_SENT_ACK
                } else {
                    STATUS_DATA_SENT_NACK
                },
            ),
            final(cpu)@.wf(),
    {
        self.busy = false;
        assert(STATUS_DATA_SENT_ACK & 0x3 == 0 && STATUS_DATA_SENT_NACK & 0x3 == 0)
            by (bit_vector);
        self.update_status(
            cpu,
            if acked {
                STATUS_DATA_SENT_ACK
            } else {
                STATUS_DATA_SENT_NACK
            },
        );
    }

    /// A data byte has been received and answered with `ack`.
    pub fn complete_read(&mut self, ack: bool, cpu: &mut CPU)
        requires
            old(cpu)@.wf(),
            old(self).twi.fits(DATA_SIZE as int),
        ensures
            *final(self) == (AVRI2C { busy: false, ..*old(self) }),
            final(cpu)@ == old(self).reported(
                old(cpu)@,
                if ack {
                    STATUS_DATA_RECEIVED_ACK
                } else {
                    STATUS_DATA_RECEIVED_NACK
                },
            ),
            final(cpu)@.wf(),
    {
        self.busy = false;
        assert(STATUS_DATA_RECEIVED_ACK & 0x3 == 0 && STATUS_DATA_RECEIVED_NACK & 0x3 == 0)
            by (bit_vector);
        self.update_status(
            cpu,
            if ack {
                STATUS_DATA_RECEIVED_ACK
            } else {
                STATUS_DATA_RECEIVED_NACK
            },
        );
    }

    pub fn status(&self, data: &Vec<u8>) -> (status: u8)
        requires
            data@.len() >= 0x100,
        ensures
            status == self.status_of(data@),
    {
        data[self.config.TWSR as usize] & TWSR_TWS_MASK
    }

    /// Reports `status`, whose two low bits must be clear: they are not part
    /// of the status field.
    pub fn update_status(&mut self, cpu: &mut CPU, status: u8)
        requires
            old(cpu)@.wf(),
            old(self).twi.fits(DATA_SIZE as int),
            status & 0x3 == 0,
        ensures
            *final(self) == *old(self),
            final(cpu)@ == old(self).reported(old(cpu)@, status),
            final(cpu)@.wf(),
    {
        let twsr = self.config.TWSR as u16;
        let merged: u8 = (cpu.get_data(twsr) & !TWSR_TWS_MASK) | status;
        cpu.set_data(twsr, merged);
        cpu.set_interrupt_flag(self.twi);
    }

    pub fn scl_frequency(&self, data: &Vec<u8>) -> (hz: usize)
        requires
            data@.len() >= 0x100,
        ensures
            hz == self.scl_frequency_of(data@),
    {
        let divisor: usize = 16 + 2 * (data[self.config.TWBR as usize] as usize) * self.prescaler(
            data,
        );
        self.freq_hz / divisor
    }

    pub fn prescaler(&self, data: &Vec<u8>) -> (p: usize)
        requires
            data@.len() >= 0x100,
        ensures
            p == prescaler_for(data@[self.config.TWSR as int] & TWSR_TWPS_MASK),
            p <= 64,
    {
        let bits: u8 = data[self.config.TWSR as usize] & TWSR_TWPS_MASK;
        if bits == 0 {
            1
        } else if bits == 1 {
            4
        } else if bits == 2 {
            16
        } else {
            64
        }
    }
}

impl DeviceState {
    /// The device after a bus operation has completed with `status`.
    pub open spec fn i2c_complete(self, status: u8) -> DeviceState {
        DeviceState {
            i2c: AVRI2C { busy: false, wait_ack: false, ..self.i2c },
            cpu: self.i2c.reported(self.cpu, status),
            ..self
        }
    }

    /// The device after the master has put a byte on the bus: it stays busy
    /// and looks for the slave's answer on the next cycle.
    pub open spec fn i2c_await_ack(self) -> DeviceState {
        DeviceState {
            i2c: AVRI2C { busy: true, wait_ack: true, ..self.i2c },
            cpu: self.cpu.add_clock_event(
                AVRClockEventCallback::I2COperation,
                0,
                AVRClockEventType::I2C,
            ),
            ..self
        }
    }

    /// A write of `value` to TWCR: the byte is stored; writing a one to
    /// TWINT clears the flag; the interrupt follows its enable bit; and
    /// clearing TWINT with TWEN set, while the master is not busy, starts
    /// the next bus operation on the next cycle.
    pub open spec fn i2c_twcr_write(self, value: u8) -> DeviceState {
        let cpu = self.cpu.with_data(self.i2c.config.TWCR as int, value).clear_interrupt_by_flag(
            self.i2c.twi,
            value,
        ).update_interrupt_enable(self.i2c.twi, value);
        self.with_cpu(
            if value & TWCR_TWINT != 0 && value & TWCR_TWEN != 0 && !self.i2c.busy {
                cpu.add_clock_event(
                    AVRClockEventCallback::I2COperation,
                    0,
                    AVRClockEventType::I2C,
                )
            } else {
                cpu
            },
        )
    }

    /// The bus operation that is due can be carried out: a slave on the bus
    /// is in the transfer direction that the master's status says.
    pub open spec fn i2c_op_defined(self, bus: Option<I2CBus>) -> bool {
        let twcr = self.cpu.data[self.i2c.config.TWCR as int];
        let status = self.i2c.status_of(self.cpu.data);
        twcr & TWCR_TWSTA == 0 && twcr & TWCR_TWSTO == 0 && status != STATUS_START && status
            != STATUS_REPEATED_START && bus is Some ==> {
            &&& status == STATUS_SLAW_ACK || status == STATUS_DATA_SENT_ACK ==> !bus->0.read
            &&& status == STATUS_SLAR_ACK || status == STATUS_DATA_RECEIVED_ACK ==> bus->0.read
        }
    }

    /// A START goes out; the status becomes START, or REPEATED START if the
    /// master was not idle.
    pub open spec fn i2c_start(self, bus: Option<I2CBus>) -> (DeviceState, Option<I2CBus>) {
        (
            DeviceState {
                i2c: AVRI2C { busy: false, ..self.i2c },
                cpu: self.i2c.reported(self.cpu, self.i2c.start_status(self.cpu.data)),
                ..self
            },
            match bus {
                Some(b) => Some(I2CBus { status: I2CBusStatus::START, ..b }),
                None => None,
            },
        )
    }

    /// A STOP goes out, TWSTO is cleared and the master is idle.
    pub open spec fn i2c_stop(self, bus: Option<I2CBus>) -> (DeviceState, Option<I2CBus>) {
        let twcr = self.i2c.config.TWCR as int;
        (
            DeviceState {
                i2c: AVRI2C { busy: false, ..self.i2c },
                cpu: self.i2c.reported(
                    self.cpu.with_data(twcr, self.cpu.data[twcr] & !TWCR_TWSTO),
                    STATUS_IDLE,
                ),
                ..self
            },
            match bus {
                Some(b) => Some(I2CBus { status: I2CBusStatus::STOP, ..b }),
                None => None,
            },
        )
    }

    /// The address phase: first the address and direction in TWDR go out;
    /// one cycle later the slave's answer decides between the ACK and the
    /// NACK status. Without a bus nobody answers.
    pub open spec fn i2c_connect(self, bus: Option<I2CBus>) -> (DeviceState, Option<I2CBus>) {
        let twdr = self.cpu.data[self.i2c.config.TWDR as int];
        match bus {
            Some(b) => if !self.i2c.wait_ack {
                (
                    self.i2c_await_ack(),
                    Some(
                        I2CBus {
                            status: I2CBusStatus::ADDRESS,
                            address: twdr >> 1,
                            read: twdr & 0x1 != 0,
                            ..b
                        },
                    ),
                )
            } else {
                (
                    self.i2c_complete(self.i2c.connect_status(self.cpu.data, b.acked)),
                    Some(I2CBus { acked: false, ..b }),
                )
            },
            None => (self.i2c_complete(self.i2c.connect_status(self.cpu.data, false)), None),
        }
    }

    /// Sending a data byte: first TWDR goes out; one cycle later the slave's
    /// answer decides between the ACK and the NACK status.
    pub open spec fn i2c_send(self, bus: Option<I2CBus>) -> (DeviceState, Option<I2CBus>) {
        let twdr = self.cpu.data[self.i2c.config.TWDR as int];
        match bus {
            Some(b) => if !self.i2c.wait_ack {
                (
                    self.i2c_await_ack(),
                    Some(I2CBus { status: I2CBusStatus::DATA_AVAILABLE, data: twdr, ..b }),
                )
            } else {
                (
                    self.i2c_complete(
                        if b.acked {
                            STATUS_DATA_SENT_ACK
                        } else {
                            STATUS_DATA_SENT_NACK
                        },
                    ),
                    Some(I2CBus { acked: false, ..b }),
                )
            },
            None => (self.i2c_complete(STATUS_DATA_SENT_NACK), None),
        }
    }

    /// Receiving a data byte: the byte on the bus is latched into TWDR and
    /// answered with the ACK that TWEA asks for; the master then requests
    /// the next byte.
    pub open spec fn i2c_receive(self, bus: Option<I2CBus>) -> (DeviceState, Option<I2CBus>) {
        let twcr = self.cpu.data[self.i2c.config.TWCR as int];
        match bus {
            Some(b) => {
                let ack = twcr & TWCR_TWEA != 0;
                (
                    DeviceState {
                        i2c: AVRI2C { busy: false, ..self.i2c },
                        cpu: self.i2c.reported(
                            self.cpu.with_data(self.i2c.config.TWDR as int, b.data),
                            if ack {
                                STATUS_DATA_RECEIVED_ACK
                            } else {
                                STATUS_DATA_RECEIVED_NACK
                            },
                        ),
                        ..self
                    },
                    Some(I2CBus { status: I2CBusStatus::DATA_REQUEST, acked: ack, ..b }),
                )
            },
            None => (
                DeviceState {
                    i2c: AVRI2C { busy: false, ..self.i2c },
                    cpu: self.i2c.reported(self.cpu, STATUS_DATA_RECEIVED_NACK),
                    ..self
                },
                None,
            ),
        }
    }

    /// One step of the master's state machine, chosen by TWCR and the
    /// current status: TWSTA asks for a START, TWSTO for a STOP; after a
    /// START the address phase follows; after an acknowledged address or
    /// data byte of a write the next data byte is sent; after an
    /// acknowledged address or data byte of a read the next byte is
    /// received. In any other status nothing happens.
    pub open spec fn i2c_op(self, bus: Option<I2CBus>) -> (DeviceState, Option<I2CBus>) {
        let twcr = self.cpu.data[self.i2c.config.TWCR as int];
        let status = self.i2c.status_of(self.cpu.data);
        if twcr & TWCR_TWSTA != 0 {
            self.i2c_start(bus)
        } else if twcr & TWCR_TWSTO != 0 {
            self.i2c_stop(bus)
        } else if status == STATUS_START || status == STATUS_REPEATED_START {
            self.i2c_connect(bus)
        } else if status == STATUS_SLAW_ACK || status == STATUS_DATA_SENT_ACK {
            self.i2c_send(bus)
        } else if status == STATUS_SLAR_ACK || status == STATUS_DATA_RECEIVED_ACK {
            self.i2c_receive(bus)
        } else {
            (self, bus)
        }
    }
}

impl ATMega328P {
    pub fn i2c_scl_frequency(&self) -> (hz: usize)
        requires
            self@.cpu.data.len() >= 0x100,
        ensures
            hz == self.i2c.scl_frequency_of(self@.cpu.data),
    {
        self.i2c.scl_frequency(&self.cpu.data)
    }

    pub fn i2c_status(&self) -> (status: u8)
        requires
            self@.cpu.data.len() >= 0x100,
        ensures
            status == self.i2c.status_of(self@.cpu.data),
    {
        self.i2c.status(&self.cpu.data)
    }

    /// Carries out a write to TWCR.
    pub fn i2c_twcr_write(&mut self, value: u8) -> (handled: bool)
        requires
            old(self)@.wf(),
            old(self)@.headroom(MAX_EVENT_DELAY as int),
        ensures
            handled,
            final(self)@ == old(self)@.i2c_twcr_write(value),
            final(self)@.wf(),
            final(self)@.cpu.cycles == old(self)@.cpu.cycles,
    {
        self.cpu.set_data(self.i2c.config.TWCR as u16, value);
        let twi = self.i2c.twi;
        self.cpu.clear_interrupt_by_flag(&twi, value);
        self.cpu.update_interrupt_enable(twi, value);
        if value & TWCR_TWINT != 0 && value & TWCR_TWEN != 0 && !self.i2c.busy {
            self.cpu.add_clock_event(
                AVRClockEventCallback::I2COperation,
                0,
                AVRClockEventType::I2C,
            );
        }
        true
    }

    fn i2c_start(&mut self, i2c_bus: Option<&mut I2CBus>)
        requires
            old(self)@.wf(),
        ensures
            (final(self)@, match i2c_bus {
                Some(b) => Some(*final(b)),
                None => None,
            }) == old(self)@.i2c_start(bus_before(i2c_bus)),
            final(self)@.wf(),
            final(self)@.cpu.cycles == old(self)@.cpu.cycles,
    {
        self.i2c.busy = true;
        match i2c_bus {
            Some(bus) => {
                bus.status = I2CBusStatus::START;
            },
            None => {},
        }
        self.i2c.complete_start(&mut self.cpu);
    }

    fn i2c_stop(&mut self, i2c_bus: Option<&mut I2CBus>)
        requires
            old(self)@.wf(),
        ensures
            (final(self)@, match i2c_bus {
                Some(b) => Some(*final(b)),
                None => None,
            }) == old(self)@.i2c_stop(bus_before(i2c_bus)),
            final(self)@.wf(),
            final(self)@.cpu.cycles == old(self)@.cpu.cycles,
    {
        self.i2c.busy = true;
        match i2c_bus {
            Some(bus) => {
                bus.status = I2CBusStatus::STOP;
            },
            None => {},
        }
        self.i2c.complete_stop(&mut self.cpu);
    }

    fn i2c_connect(&mut self, i2c_bus: Option<&mut I2CBus>)
        requires
            old(self)@.wf(),
            old(self)@.headroom(MAX_EVENT_DELAY as int),
        ensures
            (final(self)@, match i2c_bus {
                Some(b) => Some(*final(b)),
                None => None,
            }) == old(self)@.i2c_connect(bus_before(i2c_bus)),
            final(self)@.wf(),
            final(self)@.cpu.cycles == old(self)@.cpu.cycles,
    {
        let twdr_value = self.cpu.get_data(self.i2c.config.TWDR as u16);
        self.i2c.busy = true;
        match i2c_bus {
            Some(bus) => {
                if !self.i2c.wait_ack {
                    bus.status = I2CBusStatus::ADDRESS;
                    bus.address = twdr_value >> 1;
                    bus.read = (twdr_value & 0x1) != 0;
                    self.i2c.wait_ack = true;
                    self.cpu.add_clock_event(
                        AVRClockEventCallback::I2COperation,
                        0,
                        AVRClockEventType::I2C,
                    );
                } else {
                    self.i2c.wait_ack = false;
                    let acked = bus.acked;
                    self.i2c.complete_connect(acked, &mut self.cpu);
                    bus.acked = false;
                }
            },
            None => {
                self.i2c.wait_ack = false;
                self.i2c.complete_connect(false, &mut self.cpu);
            },
        }
    }

    fn i2c_send(&mut self, i2c_bus: Option<&mut I2CBus>)
        requires
            old(self)@.wf(),
            old(self)@.headroom(MAX_EVENT_DELAY as int),
        ensures
            (final(self)@, match i2c_bus {
                Some(b) => Some(*final(b)),
                None => None,
            }) == old(self)@.i2c_send(bus_before(i2c_bus)),
            final(self)@.wf(),
            final(self)@.cpu.cycles == old(self)@.cpu.cycles,
    {
        let twdr_value = self.cpu.get_data(self.i2c.config.TWDR as u16);
        self.i2c.busy = true;
        match i2c_bus {
            Some(bus) => {
                if !self.i2c.wait_ack {
                    bus.status = I2CBusStatus::DATA_AVAILABLE;
                    bus.data = twdr_value;
                    self.i2c.wait_ack = true;
                    self.cpu.add_clock_event(
                        AVRClockEventCallback::I2COperation,
                        0,
                        AVRClockEventType::I2C,
                    );
                } else {
                    self.i2c.wait_ack = false;
                    let acked = bus.acked;
                    self.i2c.complete_write(acked, &mut self.cpu);
                    bus.acked = false;
                }
            },
            None => {
                self.i2c.wait_ack = false;
                self.i2c.complete_write(false, &mut self.cpu);
            },
        }
    }

    fn i2c_receive(&mut self, i2c_bus: Option<&mut I2CBus>)
        requires
            old(self)@.wf(),
        ensures
            (final(self)@, match i2c_bus {
                Some(b) => Some(*final(b)),
                None => None,
            }) == old(self)@.i2c_receive(bus_before(i2c_bus)),
            final(self)@.wf(),
            final(self)@.cpu.cycles == old(self)@.cpu.cycles,
    {
        let twcr_value = self.cpu.get_data(self.i2c.config.TWCR as u16);
        self.i2c.busy = true;
        match i2c_bus {
            Some(bus) => {
                self.cpu.set_data(self.i2c.config.TWDR as u16, bus.data);
                let ack = twcr_value & TWCR_TWEA != 0;
                bus.status = I2CBusStatus::DATA_REQUEST;
                bus.acked = ack;
                self.i2c.complete_read(ack, &mut self.cpu);
            },
            None => {
                self.i2c.complete_read(false, &mut self.cpu);
            },
        }
    }

    /// What the two-wire hardware does next.
    pub fn i2c_op(&mut self, i2c_bus: Option<&mut I2CBus>, _reschedule: bool, _external: bool)
        requires
            old(self)@.wf(),
            old(self)@.headroom(MAX_EVENT_DELAY as int),
            old(self)@.i2c_op_defined(bus_before(i2c_bus)),
        ensures
            (final(self)@, match i2c_bus {
                Some(b) => Some(*final(b)),
                None => None,
            }) == old(self)@.i2c_op(bus_before(i2c_bus)),
            final(self)@.wf(),
            final(self)@.cpu.cycles == old(self)@.cpu.cycles,
    {
        let twcr_value = self.cpu.get_data(self.i2c.config.TWCR as u16);
        let status = self.i2c.status(&self.cpu.data);
        if twcr_value & TWCR_TWSTA != 0 {
            self.i2c_start(i2c_bus);
        } else if twcr_value & TWCR_TWSTO != 0 {
            self.i2c_stop(i2c_bus);
        } else if status == STATUS_START || status == STATUS_REPEATED_START {
            self.i2c_connect(i2c_bus);
        } else if status == STATUS_SLAW_ACK || status == STATUS_DATA_SENT_ACK {
            self.i2c_send(i2c_bus);
        } else if status == STATUS_SLAR_ACK || status == STATUS_DATA_RECEIVED_ACK {
            self.i2c_receive(i2c_bus);
        }
    }
}

} // verus!
