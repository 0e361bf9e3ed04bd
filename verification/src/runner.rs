use vstd::prelude::*;
use crate::atmega328p::{ATMega328P, DeviceState, DEFAULT_FREQ};
use crate::peripheral::i2c::bus::{bus_before, I2CBus};
use crate::program::{hex_image, hex_well_formed};
use vstd::string::StringSliceAdditionalSpecFns;

verus! {

/// Runs a program on an ATmega328P at its nominal clock.
pub struct AVRRunner {
    pub atmega328p: ATMega328P,
}

impl AVRRunner {
    /// A runner for the program in the Intel HEX text `hex`.
    pub fn new(hex: &str) -> (runner: Self)
        requires
            hex_well_formed(hex.spec_bytes()),
        ensures
            runner.atmega328p@ == DeviceState::initial(hex_image(hex.spec_bytes()), DEFAULT_FREQ),
            runner.atmega328p@.wf(),
    {
        let atmega328p = ATMega328P::new(hex, DEFAULT_FREQ);
        AVRRunner { atmega328p }
    }

    /// One step of the microcontroller, if it can be carried out; tells
    /// whether it was.
    pub fn try_step(&mut self, i2c_bus: Option<&mut I2CBus>) -> (ok: bool)
        requires
            old(self).atmega328p@.wf(),
        ensures
            ok == old(self).atmega328p@.step_defined(bus_before(i2c_bus)),
            (final(self).atmega328p@, match i2c_bus {
                Some(b) => Some(*final(b)),
                None => None,
            }) == (if ok {
                old(self).atmega328p@.step(bus_before(i2c_bus))
            } else {
                old(self).atmega328p@.step_fault(bus_before(i2c_bus))
            }),
            ok ==> old(self).atmega328p@.cpu.cycles < final(self).atmega328p@.cpu.cycles,
            final(self).atmega328p@.wf(),
    {
        self.atmega328p.try_step(i2c_bus)
    }

    /// One step of the microcontroller: one instruction, then one tick.
    pub fn step(&mut self, i2c_bus: Option<&mut I2CBus>)
        requires
            old(self).atmega328p@.wf(),
            old(self).atmega328p@.step_defined(bus_before(i2c_bus)),
        ensures
            (final(self).atmega328p@, match i2c_bus {
                Some(b) => Some(*final(b)),
                None => None,
            }) == old(self).atmega328p@.step(bus_before(i2c_bus)),
            final(self).atmega328p@.wf(),
            old(self).atmega328p@.cpu.cycles < final(self).atmega328p@.cpu.cycles,
    {
        self.atmega328p.step(i2c_bus);
    }
}

} // verus!
