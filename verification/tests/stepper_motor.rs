use avr8rs::port::PinState;
use avr8rs::stepper::driver::StepperDriver;

type Float = f64;
const PI: Float = std::f64::consts::PI;

const KT: Float = 5.0;
const J: Float = 5.7e-6;
const B: Float = 5e-2;
const P: usize = 50;

/// The rotor of the motor that the driver feeds.
struct StepperMotor {
    omega: Float,
    theta: Float,
}

impl StepperMotor {
    fn new() -> Self {
        Self { omega: 0., theta: 0. }
    }

    fn torque(&self, ia: Float, ib: Float) -> Float {
        let theta = self.theta;
        KT * (-ia * (P as Float * theta).sin() + ib * (P as Float * theta).cos()) - B * self.omega
    }

    fn step(&mut self, dt: Float, ia: Float, ib: Float, load_torque: Float) {
        let domega_dt = (self.torque(ia, ib) - load_torque) / J;
        self.omega += domega_dt * dt;
        self.theta += self.omega * dt;
    }
}

/// The winding currents for the driver's position.
fn currents(driver: &StepperDriver) -> (Float, Float) {
    match driver.step_pin_state {
        PinState::Input => return (0., 0.),
        PinState::InputPullUp => return (0., 0.),
        _ => {}
    }
    let half_step_current = 1. / (2.0 as Float).sqrt();
    let cos_pi_over_8 = 0.924;
    let sin_pi_over_8 = 0.383;
    if driver.microsteps == 2 {
        let current_seq = [
            (1., 0.),
            (half_step_current, half_step_current),
            (0., 1.),
            (-half_step_current, half_step_current),
            (-1., 0.),
            (-half_step_current, -half_step_current),
            (0., -1.),
            (half_step_current, -half_step_current),
        ];
        current_seq[driver.step]
    } else if driver.microsteps == 4 {
        let current_seq = [
            (1., 0.),
            (cos_pi_over_8, sin_pi_over_8),
            (half_step_current, half_step_current),
            (sin_pi_over_8, cos_pi_over_8),
            (0., 1.),
            (-sin_pi_over_8, cos_pi_over_8),
            (-half_step_current, half_step_current),
            (-cos_pi_over_8, sin_pi_over_8),
            (-1., 0.),
            (-cos_pi_over_8, -sin_pi_over_8),
            (-half_step_current, -half_step_current),
            (-sin_pi_over_8, -cos_pi_over_8),
            (0., -1.),
            (sin_pi_over_8, -cos_pi_over_8),
            (half_step_current, -half_step_current),
            (cos_pi_over_8, -sin_pi_over_8),
        ];
        current_seq[driver.step]
    } else {
        panic!("unknown microsteps setting: {}", driver.microsteps)
    }
}

fn assert_close(left: Float, right: Float, tolerance: Float) {
    let diff = (left - right).abs();
    assert!(
        diff < tolerance,
        "assertion failed: {} ~= {} (tolerance: {}, difference: {})",
        left,
        right,
        tolerance,
        diff
    );
}

#[test]
fn half_stepping() {
    // Arrange
    let mut driver = StepperDriver::new(2);
    let mut motor = StepperMotor::new();
    let full_step = (2. * PI) / (4. * P as Float);
    let half_step = full_step / 2.0;
    let angle_tolerance = 0.09 / 180. * PI;

    // Act
    let dir_pin = PinState::High;

    let dt = 1e-4;
    driver.step(PinState::High, &dir_pin);
    let currents_now = currents(&driver);
    for _ in 0..10 {
        motor.step(dt, currents_now.0, currents_now.1, 0.);
    }

    driver.step(PinState::Low, &dir_pin);
    let currents_now = currents(&driver);
    for _ in 0..10 {
        motor.step(dt, currents_now.0, currents_now.1, 0.);
    }

    // Assert
    assert_close(motor.theta, half_step, angle_tolerance);
}

#[test]
fn four_microstepping() {
    // Arrange
    let mut driver = StepperDriver::new(4);
    let mut motor = StepperMotor::new();
    let full_step = (2. * PI) / (4. * P as Float);
    let one_fourth_step = full_step / 4.0;
    let angle_tolerance = 0.09 / 180. * PI;

    // Act
    let dir_pin = PinState::High;

    let dt = 1e-4;
    driver.step(PinState::High, &dir_pin);
    let currents_now = currents(&driver);
    for _ in 0..10 {
        motor.step(dt, currents_now.0, currents_now.1, 0.);
    }

    driver.step(PinState::Low, &dir_pin);
    let currents_now = currents(&driver);
    for _ in 0..10 {
        motor.step(dt, currents_now.0, currents_now.1, 0.);
    }

    // Assert
    assert_close(motor.theta, one_fourth_step, angle_tolerance);
}

#[test]
fn continuous_stepping() {
    // Arrange
    let mut driver = StepperDriver::new(4);
    let mut motor = StepperMotor::new();
    let full_step = (2. * PI) / (4. * P as Float);
    let one_fourth_step = full_step / 4.0;
    let n_steps = 100;
    let angle_tolerance = 0.09 / 180. * PI;

    // Act
    let dir_pin = PinState::High;
    let dt = 1e-4;
    for _ in 0..n_steps {
        driver.step(PinState::High, &dir_pin);
        let currents_now = currents(&driver);
        for _ in 0..10 {
            motor.step(dt, currents_now.0, currents_now.1, 0.);
        }

        driver.step(PinState::Low, &dir_pin);
        let currents_now = currents(&driver);
        for _ in 0..10 {
            motor.step(dt, currents_now.0, currents_now.1, 0.);
        }
    }

    // Assert
    assert_close(
        motor.theta,
        one_fourth_step * n_steps as Float,
        angle_tolerance,
    );
}

#[test]
fn reverse_direction() {
    // Arrange
    let mut driver = StepperDriver::new(4);
    let mut motor = StepperMotor::new();
    let full_step = (2. * PI) / (4. * P as Float);
    let one_fourth_step = full_step / 4.0;
    let n_steps = 100;
    let angle_tolerance = 0.09 / 180. * PI;

    // Act
    let dir_pin = PinState::Low;
    let dt = 1e-4;
    for _ in 0..n_steps {
        driver.step(PinState::High, &dir_pin);
        let currents_now = currents(&driver);
        for _ in 0..10 {
            motor.step(dt, currents_now.0, currents_now.1, 0.);
        }

        driver.step(PinState::Low, &dir_pin);
        let currents_now = currents(&driver);
        for _ in 0..10 {
            motor.step(dt, currents_now.0, currents_now.1, 0.);
        }
    }

    // Assert
    assert_close(
        motor.theta,
        -one_fourth_step * n_steps as Float,
        angle_tolerance,
    );
}
