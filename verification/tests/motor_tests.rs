use motor_chassis::hal::SimPin;
use motor_chassis::hal::SimPwm;
use motor_chassis::motor::Motor;

fn make_motor() -> Motor<SimPwm, SimPin> {
    Motor::new(SimPwm::new(), SimPin::new(), SimPin::new())
}

#[test]
fn new_motor_starts_low_and_idle() {
    let m = make_motor();
    assert!(!m.pin_a_high());
    assert!(!m.pin_b_high());
    assert_eq!(m.duty_percent(), 0);
}

#[test]
fn forward_in_range_applies_exact_duty() {
    let mut m = make_motor();
    m.forward(73);
    assert!(m.pin_a_high());
    assert!(!m.pin_b_high());
    assert_eq!(m.duty_percent(), 73);
}

#[test]
fn forward_over_100_clamps_to_100() {
    let mut m = make_motor();
    m.forward(255);
    assert_eq!(m.duty_percent(), 100);
    m.forward(101);
    assert_eq!(m.duty_percent(), 100);
}

#[test]
fn backward_in_range_applies_exact_duty() {
    let mut m = make_motor();
    m.backward(40);
    assert!(!m.pin_a_high());
    assert!(m.pin_b_high());
    assert_eq!(m.duty_percent(), 40);
}

#[test]
fn backward_over_100_clamps_to_100() {
    let mut m = make_motor();
    m.backward(200);
    assert_eq!(m.duty_percent(), 100);
}

#[test]
fn forward_boundary_speeds() {
    let mut m = make_motor();
    m.forward(0);
    assert_eq!(m.duty_percent(), 0);
    m.forward(100);
    assert_eq!(m.duty_percent(), 100);
}

#[test]
fn forward_then_backward_swaps_pins() {
    let mut m = make_motor();
    m.forward(60);
    let a_after_forward = m.pin_a_high();
    let b_after_forward = m.pin_b_high();
    assert!(a_after_forward != b_after_forward);
    m.backward(35);
    assert!(m.pin_a_high() != m.pin_b_high());
    assert_eq!(m.pin_a_high(), !a_after_forward);
    assert_eq!(m.pin_b_high(), !b_after_forward);
    assert_eq!(m.duty_percent(), 35);
}

#[test]
fn stop_zeroes_duty_and_keeps_pins() {
    let mut m = make_motor();
    m.forward(80);
    m.stop();
    assert_eq!(m.duty_percent(), 0);
    assert!(m.pin_a_high());
    assert!(!m.pin_b_high());

    let mut n = make_motor();
    n.backward(80);
    n.stop();
    assert_eq!(n.duty_percent(), 0);
    assert!(!n.pin_a_high());
    assert!(n.pin_b_high());
}

#[test]
fn brake_sets_both_pins_high_and_full_duty() {
    let mut m = make_motor();
    m.backward(20);
    m.brake();
    assert!(m.pin_a_high());
    assert!(m.pin_b_high());
    assert_eq!(m.duty_percent(), 100);
}

#[test]
fn emergency_stop_clears_pins_and_duty() {
    let mut m = make_motor();
    m.forward(90);
    m.emergency_stop();
    assert!(!m.pin_a_high());
    assert!(!m.pin_b_high());
    assert_eq!(m.duty_percent(), 0);
}
