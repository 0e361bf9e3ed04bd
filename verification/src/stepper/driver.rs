use vstd::prelude::*;
use crate::port::PinState;

verus! {

/// A stepper motor driver with a step and a direction input. It walks
/// through a cycle of current patterns, one pattern per falling edge of the
/// step input.
pub struct StepperDriver {
    /// The level last seen on the step input.
    pub step_pin_state: PinState,
    /// The position in the cycle of current patterns.
    pub step: usize,
    /// Microsteps per full step: 2 or 4.
    pub microsteps: usize,
}

/// Patterns in one electrical cycle: 8 with half stepping, 16 with quarter
/// stepping.
pub open spec fn patterns_per_cycle(microsteps: usize) -> int {
    if microsteps == 2 {
        8
    } else {
        16
    }
}

impl StepperDriver {
    pub fn new(microsteps: usize) -> (driver: Self)
        ensures
            driver.step_pin_state == PinState::Low,
            driver.step == 0,
            driver.microsteps == microsteps,
    {
        Self { step_pin_state: PinState::Low, step: 0, microsteps }
    }

    /// The step input has gone from high to low.
    pub open spec fn falling_edge(self, step_pin_state: PinState) -> bool {
        self.step_pin_state == PinState::High && step_pin_state == PinState::Low
    }

    /// The position after the inputs have been sampled: on a falling edge of
    /// the step input it moves one pattern forward if the direction input
    /// is high and one back if it is low, around the cycle.
    pub open spec fn next_step(self, step_pin_state: PinState, dir_pin_state: PinState) -> int {
        let n = patterns_per_cycle(self.microsteps);
        if !self.falling_edge(step_pin_state) {
            self.step as int
        } else if dir_pin_state == PinState::High {
            (self.step + 1) % n
        } else if dir_pin_state == PinState::Low {
            (self.step + n - 1) % n
        } else {
            self.step as int
        }
    }

    /// Samples the step and direction inputs. Only half and quarter
    /// stepping are known.
    pub fn step(&mut self, step_pin_state: PinState, dir_pin_state: &PinState)
        requires
            old(self).falling_edge(step_pin_state) ==> (old(self).microsteps == 2
                || old(self).microsteps == 4) && old(self).step + 16 <= usize::MAX,
        ensures
            final(self).step == old(self).next_step(step_pin_state, *dir_pin_state),
            final(self).step_pin_state == step_pin_state,
            final(self).microsteps == old(self).microsteps,
            old(self).falling_edge(step_pin_state) && (*dir_pin_state == PinState::High
                || *dir_pin_state == PinState::Low) ==> final(self).step < patterns_per_cycle(
                old(self).microsteps,
            ),
    {
        if matches!(self.step_pin_state, PinState::High) && matches!(step_pin_state, PinState::Low) {
            let n_steps: usize = if self.microsteps == 2 {
                8
            } else {
                16
            };
            if matches!(dir_pin_state, PinState::High) {
                self.step = (self.step + 1) % n_steps;
            } else if matches!(dir_pin_state, PinState::Low) {
                self.step = (self.step + n_steps - 1) % n_steps;
            }
        }
        self.step_pin_state = step_pin_state;
    }
}

} // verus!
