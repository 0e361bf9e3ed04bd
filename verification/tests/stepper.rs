use avr8rs::port::PinState;
use avr8rs::stepper::driver::StepperDriver;

fn pulse(driver: &mut StepperDriver, dir: &PinState) {
    driver.step(PinState::High, dir);
    driver.step(PinState::Low, dir);
}

#[test]
fn new_driver() {
    let driver = StepperDriver::new(4);
    assert_eq!(driver.step, 0);
    assert_eq!(driver.microsteps, 4);
    assert_eq!(driver.step_pin_state, PinState::Low);
}

#[test]
fn one_pattern_per_falling_edge() {
    let mut driver = StepperDriver::new(2);
    let dir = PinState::High;
    driver.step(PinState::High, &dir);
    assert_eq!(driver.step, 0);
    assert_eq!(driver.step_pin_state, PinState::High);
    driver.step(PinState::High, &dir);
    assert_eq!(driver.step, 0);
    driver.step(PinState::Low, &dir);
    assert_eq!(driver.step, 1);
    driver.step(PinState::Low, &dir);
    assert_eq!(driver.step, 1);
}

#[test]
fn half_stepping_cycle_has_eight_patterns() {
    let mut driver = StepperDriver::new(2);
    for i in 1..=20usize {
        pulse(&mut driver, &PinState::High);
        assert_eq!(driver.step, i % 8);
    }
}

#[test]
fn quarter_stepping_cycle_has_sixteen_patterns() {
    let mut driver = StepperDriver::new(4);
    for i in 1..=40usize {
        pulse(&mut driver, &PinState::High);
        assert_eq!(driver.step, i % 16);
    }
}

#[test]
fn backwards_around_the_cycle() {
    let mut driver = StepperDriver::new(4);
    pulse(&mut driver, &PinState::Low);
    assert_eq!(driver.step, 15);
    pulse(&mut driver, &PinState::Low);
    assert_eq!(driver.step, 14);
    pulse(&mut driver, &PinState::High);
    assert_eq!(driver.step, 15);
    let mut driver = StepperDriver::new(2);
    pulse(&mut driver, &PinState::Low);
    assert_eq!(driver.step, 7);
}

#[test]
fn undriven_direction_input_holds_the_position() {
    let mut driver = StepperDriver::new(4);
    pulse(&mut driver, &PinState::High);
    pulse(&mut driver, &PinState::Input);
    pulse(&mut driver, &PinState::InputPullUp);
    assert_eq!(driver.step, 1);
    // an edge from an undriven step input is no falling edge
    driver.step(PinState::Input, &PinState::High);
    driver.step(PinState::Low, &PinState::High);
    assert_eq!(driver.step, 1);
}
