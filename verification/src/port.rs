use vstd::prelude::*;
use std::collections::HashMap;
use crate::atmega328p::{ATMega328P, DeviceState, PeripheralMemoryWriteHook};
use vstd::string::StringSliceAdditionalSpecFns;

verus! {

/// The observable state of one pin.
#[derive(Clone, Copy, Debug, PartialEq, Eq, Structural)]
pub enum PinState {
    Low,
    High,
    Input,
    InputPullUp,
}

/// Addresses of the three registers of one port.
#[derive(Clone, Copy, Debug, PartialEq, Eq, Structural)]
pub struct AVRPortConfig {
    /// Input register.
    pub PIN: u8,
    /// Direction register.
    pub DDR: u8,
    /// Data register.
    pub PORT: u8,
}

#[verifier::allow_in_spec]
pub fn PORTB_CONFIG() -> AVRPortConfig
    returns
        (AVRPortConfig { PIN: 0x23, DDR: 0x24, PORT: 0x25 }),
{
    AVRPortConfig { PIN: 0x23, DDR: 0x24, PORT: 0x25 }
}

#[verifier::allow_in_spec]
pub fn PORTC_CONFIG() -> AVRPortConfig
    returns
        (AVRPortConfig { PIN: 0x26, DDR: 0x27, PORT: 0x28 }),
{
    AVRPortConfig { PIN: 0x26, DDR: 0x27, PORT: 0x28 }
}

#[verifier::allow_in_spec]
pub fn PORTD_CONFIG() -> AVRPortConfig
    returns
        (AVRPortConfig { PIN: 0x29, DDR: 0x2a, PORT: 0x2b }),
{
    AVRPortConfig { PIN: 0x29, DDR: 0x2a, PORT: 0x2b }
}

/// One 8-bit GPIO port.
#[derive(Clone, Copy, Debug, PartialEq, Eq, Structural)]
pub struct AVRIOPort {
    pub config: AVRPortConfig,
    /// What the outside world drives onto the pins.
    pub pin_value: u8,
    pub override_mask: u8,
    pub override_value: u8,
    /// The levels the port drives, as last written.
    pub last_value: u8,
    pub last_ddr: u8,
    pub last_pin: u8,
    /// Pins that can only pull low.
    pub open_collector: u8,
}

impl AVRIOPort {
    /// A port after reset: every pin an input without pull-up.
    pub open spec fn initial(config: AVRPortConfig) -> AVRIOPort {
        AVRIOPort {
            config,
            pin_value: 0,
            override_mask: 0xff,
            override_value: 0,
            last_value: 0,
            last_ddr: 0,
            last_pin: 0,
            open_collector: 0,
        }
    }

    pub fn new(config: AVRPortConfig) -> (port: Self)
        ensures
            port == Self::initial(config),
    {
        AVRIOPort {
            config,
            pin_value: 0,
            override_mask: 0xff,
            override_value: 0,
            last_value: 0,
            last_ddr: 0,
            last_pin: 0,
            open_collector: 0,
        }
    }

    /// Binds writes of this port's direction register to port `port_id`.
    pub fn add_ddr_handler(
        &self,
        write_hooks: &mut HashMap<u16, PeripheralMemoryWriteHook>,
        port_id: usize,
    )
        ensures
            final(write_hooks)@ == old(write_hooks)@.insert(
                self.config.DDR as u16,
                PeripheralMemoryWriteHook::PortDirection(port_id),
            ),
    {
        write_hooks.insert(
            self.config.DDR as u16,
            PeripheralMemoryWriteHook::PortDirection(port_id),
        );
    }

    /// Binds writes of this port's data register to port `port_id`.
    pub fn add_port_handler(
        &self,
        write_hooks: &mut HashMap<u16, PeripheralMemoryWriteHook>,
        port_id: usize,
    )
        ensures
            final(write_hooks)@ == old(write_hooks)@.insert(
                self.config.PORT as u16,
                PeripheralMemoryWriteHook::PortData(port_id),
            ),
    {
        write_hooks.insert(self.config.PORT as u16, PeripheralMemoryWriteHook::PortData(port_id));
    }

    /// The port after a write of `value` to its data register under
    /// direction `ddr`, with the PIN register recomputed.
    pub open spec fn written(self, value: u8, ddr: u8) -> AVRIOPort {
        let driving = AVRIOPort { last_value: self.driven(value, ddr), last_ddr: ddr, ..self };
        AVRIOPort { last_pin: driving.pin_register(ddr), ..driving }
    }

    /// The PIN register for direction `ddr`: inputs show the outside level,
    /// outputs the driven level.
    pub open spec fn pin_register(self, ddr: u8) -> u8 {
        (self.pin_value & !ddr) | (self.last_value & ddr)
    }

    /// The levels driven when `value` is written with direction `ddr`.
    pub open spec fn driven(self, value: u8, ddr: u8) -> u8 {
        (((value & self.override_mask) | self.override_value) & ddr) | (value & !ddr)
    }

    /// Recomputes the PIN register for direction `ddr` and remembers it.
    pub fn update_pin_register(&mut self, ddr: u8) -> (new_pin: u8)
        ensures
            new_pin == old(self).pin_register(ddr),
            *final(self) == (AVRIOPort { last_pin: new_pin, ..*old(self) }),
    {
        let new_pin = (self.pin_value & !ddr) | (self.last_value & ddr);
        if self.last_pin != new_pin {
            self.last_pin = new_pin;
        }
        new_pin
    }

    /// Takes a write of `value` to the data register under direction `ddr`.
    pub fn write_gpio(&mut self, value: u8, ddr: u8)
        ensures
            *final(self) == (AVRIOPort {
                last_value: old(self).driven(value, ddr),
                last_ddr: ddr,
                ..*old(self)
            }),
    {
        let new_value = (((value & self.override_mask) | self.override_value) & ddr) | (value
            & !ddr);
        let prev_value = self.last_value;
        if new_value != prev_value || ddr != self.last_ddr {
            self.last_value = new_value;
            self.last_ddr = ddr;
        }
    }

    /// The state of pin `pin` given the direction and data registers. An
    /// output is Low or High by the level it drives (an open-collector pin
    /// that would drive high is released instead); an input has its pull-up
    /// on if its data bit is set.
    pub open spec fn pin_state_for(self, pin: u8, ddr: u8, port: u8) -> PinState {
        let bit_mask = 1u8 << pin;
        let open_state = if port & bit_mask != 0 {
            PinState::InputPullUp
        } else {
            PinState::Input
        };
        if ddr & bit_mask != 0 {
            if self.last_value & bit_mask != 0 {
                if self.open_collector & bit_mask != 0 {
                    open_state
                } else {
                    PinState::High
                }
            } else {
                PinState::Low
            }
        } else {
            open_state
        }
    }

    /// The state of pin `pin` (0 to 7), read from the data space.
    pub fn pin_state(&self, pin: u8, data: &Vec<u8>) -> (state: PinState)
        requires
            pin < 8,
            data@.len() >= 0x100,
        ensures
            state == self.pin_state_for(
                pin,
                data@[self.config.DDR as int],
                data@[self.config.PORT as int],
            ),
    {
        let ddr = data[self.config.DDR as usize];
        let port = data[self.config.PORT as usize];
        let bit_mask: u8 = 1u8 << pin;
        let open_state = if port & bit_mask != 0 {
            PinState::InputPullUp
        } else {
            PinState::Input
        };
        if ddr & bit_mask != 0 {
            if self.last_value & bit_mask != 0 {
                if self.open_collector & bit_mask != 0 {
                    open_state
                } else {
                    PinState::High
                }
            } else {
                PinState::Low
            }
        } else {
            open_state
        }
    }
}

/// The index of the port called `name`: "B" is 0, "C" is 1, "D" is 2.
pub open spec fn port_index(name: Seq<u8>) -> Option<int> {
    if name.len() != 1 {
        None
    } else if name[0] == 0x42 {
        Some(0)
    } else if name[0] == 0x43 {
        Some(1)
    } else if name[0] == 0x44 {
        Some(2)
    } else {
        None
    }
}

impl DeviceState {
    /// A write of `value` to the direction register of port `id`: the byte
    /// is stored, the port drives its data register under the new direction,
    /// and PIN is recomputed.
    pub open spec fn port_ddr_write(self, id: int, value: u8) -> DeviceState {
        let config = self.ports[id].config;
        let port = self.ports[id].written(self.cpu.data[config.PORT as int], value);
        DeviceState {
            ports: self.ports.update(id, port),
            cpu: self.cpu.with_data(config.DDR as int, value).with_data(
                config.PIN as int,
                port.last_pin,
            ),
            ..self
        }
    }

    /// A write of `value` to the data register of port `id`: the byte is
    /// stored, the port drives it under the current direction, and PIN is
    /// recomputed.
    pub open spec fn port_port_write(self, id: int, value: u8) -> DeviceState {
        let config = self.ports[id].config;
        let port = self.ports[id].written(value, self.cpu.data[config.DDR as int]);
        DeviceState {
            ports: self.ports.update(id, port),
            cpu: self.cpu.with_data(config.PORT as int, value).with_data(
                config.PIN as int,
                port.last_pin,
            ),
            ..self
        }
    }
}

impl ATMega328P {
    /// Carries out a write to the direction register of port `port_id`.
    pub fn port_ddr_write(&mut self, port_id: usize, value: u8) -> (handled: bool)
        requires
            old(self)@.wf(),
            port_id < 3,
        ensures
            handled,
            final(self)@ == old(self)@.port_ddr_write(port_id as int, value),
            final(self)@.wf(),
            final(self)@.cpu.cycles == old(self)@.cpu.cycles,
    {
        let config = self.ports[port_id].config;
        let port_value = self.cpu.get_data(config.PORT as u16);
        self.cpu.set_data(config.DDR as u16, value);
        let mut port = self.ports[port_id];
        port.write_gpio(port_value, value);
        let new_pin = port.update_pin_register(value);
        self.ports[port_id] = port;
        self.cpu.set_data(config.PIN as u16, new_pin);
        true
    }

    /// Carries out a write to the data register of port `port_id`.
    pub fn port_port_write(&mut self, port_id: usize, value: u8) -> (handled: bool)
        requires
            old(self)@.wf(),
            port_id < 3,
        ensures
            handled,
            final(self)@ == old(self)@.port_port_write(port_id as int, value),
            final(self)@.wf(),
            final(self)@.cpu.cycles == old(self)@.cpu.cycles,
    {
        let config = self.ports[port_id].config;
        let ddr = self.cpu.get_data(config.DDR as u16);
        self.cpu.set_data(config.PORT as u16, value);
        let mut port = self.ports[port_id];
        port.write_gpio(value, ddr);
        let new_pin = port.update_pin_register(ddr);
        self.ports[port_id] = port;
        self.cpu.set_data(config.PIN as u16, new_pin);
        true
    }

    /// The state of pin `pin` (0 to 7) of the port called `port`, which is
    /// "B", "C" or "D".
    pub fn port_pin_state(&self, port: &str, pin: u8) -> (state: PinState)
        requires
            self@.wf(),
            port_index(port.spec_bytes()) is Some,
            pin < 8,
        ensures
            ({
                let p = self@.ports[port_index(port.spec_bytes())->0];
                state == p.pin_state_for(
                    pin,
                    self@.cpu.data[p.config.DDR as int],
                    self@.cpu.data[p.config.PORT as int],
                )
            }),
    {
        let name = port.as_bytes();
        if name[0] == 0x42 {
            self.ports[0].pin_state(pin, &self.cpu.data)
        } else if name[0] == 0x43 {
            self.ports[1].pin_state(pin, &self.cpu.data)
        } else {
            self.ports[2].pin_state(pin, &self.cpu.data)
        }
    }
}

} // verus!
