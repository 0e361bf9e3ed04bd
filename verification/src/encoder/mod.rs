use vstd::prelude::*;
use crate::peripheral::i2c::bus::{I2CBus, I2CBusStatus};

verus! {

/// Magnet status register.
pub const ADDR_STATUS: u8 = 0x0b;

/// Magnitude register, high byte.
pub const ADDR_MAGNITUDE: u8 = 0x1b;

/// Magnitude register, low byte.
pub const ADDR_MAGNITUDE_LOWER: u8 = 0x1c;

/// Raw angle register, high byte.
pub const ADDR_RAW_ANGLE: u8 = 0x0c;

/// Raw angle register, low byte.
pub const ADDR_RAW_ANGLE_LOWER: u8 = 0x0d;

/// Steps of the raw angle in one turn.
pub const ANGLE_STEPS: u16 = 4096;

/// An AS5600 magnetic rotary encoder as a slave on the two-wire bus.
pub struct AS5600 {
    /// The fixed bus address of the device.
    pub device_address: u8,
    /// The register that the master has addressed.
    pub register_address: u8,
    /// The angle sensed, in steps of 1/4096 turn.
    pub raw_angle: u16,
}

/// Whether the encoder has a register at `register`.
pub open spec fn register_known(register: u8) -> bool {
    register == ADDR_STATUS || register == ADDR_MAGNITUDE || register == ADDR_MAGNITUDE_LOWER
        || register == ADDR_RAW_ANGLE || register == ADDR_RAW_ANGLE_LOWER
}

impl AS5600 {
    pub fn new() -> (encoder: Self)
        ensures
            encoder.device_address == 0x36,
            encoder.register_address == 0xff,
            encoder.raw_angle == 0,
    {
        Self { device_address: 0x36, register_address: 0xff, raw_angle: 0 }
    }

    /// What the addressed register holds: the status reports a magnet, the
    /// magnitude is 0x0f00, and the raw angle is the angle within one turn.
    pub open spec fn register_value(self) -> u8 {
        let raw = self.raw_angle % ANGLE_STEPS;
        if self.register_address == ADDR_STATUS {
            0x20
        } else if self.register_address == ADDR_MAGNITUDE {
            0x0f
        } else if self.register_address == ADDR_MAGNITUDE_LOWER {
            0x00
        } else if self.register_address == ADDR_RAW_ANGLE {
            (raw / 256) as u8
        } else {
            (raw % 256) as u8
        }
    }

    /// The encoder puts a byte on the bus in this cycle: it is addressed
    /// for reading, or the master has acknowledged the last byte of a read
    /// and requests the next one.
    pub open spec fn answers(self, bus: I2CBus) -> bool {
        ||| bus.status == I2CBusStatus::ADDRESS && bus.address == self.device_address && bus.read
        ||| bus.status == I2CBusStatus::DATA_REQUEST && bus.read && bus.acked
    }

    /// The encoder after one cycle on the bus. A byte that the master wrote
    /// selects the register; a byte that the encoder puts on the bus moves
    /// the selection to the next register.
    pub open spec fn stepped(self, bus: I2CBus) -> AS5600 {
        if self.answers(bus) {
            AS5600 { register_address: (self.register_address + 1) as u8, ..self }
        } else if bus.status == I2CBusStatus::DATA_AVAILABLE && !bus.read {
            AS5600 { register_address: bus.data, ..self }
        } else {
            self
        }
    }

    /// The bus after the encoder's cycle. The encoder acknowledges its own
    /// address; a byte it puts on the bus is marked as available.
    pub open spec fn answered(self, bus: I2CBus) -> I2CBus {
        let acked = if bus.status == I2CBusStatus::ADDRESS && bus.address == self.device_address {
            true
        } else {
            bus.acked
        };
        if self.answers(bus) {
            I2CBus {
                acked,
                data: self.register_value(),
                status: I2CBusStatus::DATA_AVAILABLE,
                ..bus
            }
        } else {
            I2CBus { acked, ..bus }
        }
    }

    /// Whether the encoder can take its cycle on the bus: a read finds a
    /// register of the encoder selected.
    pub fn can_step(&self, i2c_bus: &I2CBus) -> (ok: bool)
        ensures
            ok == (self.answers(*i2c_bus) ==> register_known(self.register_address)),
    {
        let answers = match i2c_bus.status {
            I2CBusStatus::ADDRESS => i2c_bus.address == self.device_address && i2c_bus.read,
            I2CBusStatus::DATA_REQUEST => i2c_bus.read && i2c_bus.acked,
            _ => false,
        };
        let register = self.register_address;
        !answers || register == ADDR_STATUS || register == ADDR_MAGNITUDE || register
            == ADDR_MAGNITUDE_LOWER || register == ADDR_RAW_ANGLE || register
            == ADDR_RAW_ANGLE_LOWER
    }

    /// One cycle of the encoder on the bus. A read must find a register of
    /// the encoder selected.
    pub fn step(&mut self, i2c_bus: &mut I2CBus)
        requires
            old(self).answers(*old(i2c_bus)) ==> register_known(old(self).register_address),
        ensures
            *final(self) == old(self).stepped(*old(i2c_bus)),
            *final(i2c_bus) == old(self).answered(*old(i2c_bus)),
    {
        match i2c_bus.status {
            I2CBusStatus::ADDRESS => {
                if i2c_bus.address == self.device_address {
                    i2c_bus.acked = true;
                    if i2c_bus.read {
                        i2c_bus.data = self.read_value();
                        i2c_bus.status = I2CBusStatus::DATA_AVAILABLE;
                    }
                }
            },
            I2CBusStatus::DATA_AVAILABLE => {
                if !i2c_bus.read {
                    self.register_address = i2c_bus.data;
                }
            },
            I2CBusStatus::DATA_REQUEST => {
                if i2c_bus.read {
                    if i2c_bus.acked {
                        i2c_bus.data = self.read_value();
                        i2c_bus.status = I2CBusStatus::DATA_AVAILABLE;
                    }
                }
            },
            _ => {},
        }
    }

    /// The value in the addressed register; the selection then moves on to
    /// the next register.
    pub fn read_value(&mut self) -> (value: u8)
        requires
            register_known(old(self).register_address),
        ensures
            value == old(self).register_value(),
            *final(self) == (AS5600 {
                register_address: (old(self).register_address + 1) as u8,
                ..*old(self)
            }),
    {
        let raw: u16 = self.raw_angle % ANGLE_STEPS;
        let register = self.register_address;
        let value: u8 = if register == ADDR_STATUS {
            0x20
        } else if register == ADDR_MAGNITUDE {
            0x0f
        } else if register == ADDR_MAGNITUDE_LOWER {
            0x00
        } else if register == ADDR_RAW_ANGLE {
            (raw / 256) as u8
        } else {
            (raw % 256) as u8
        };
        self.register_address = self.register_address + 1;
        value
    }
}

} // verus!
