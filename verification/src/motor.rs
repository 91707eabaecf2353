//! A single H-bridge motor channel: two direction lines plus one PWM
//! duty-cycle output, driven by direction-plus-speed commands.

use vstd::prelude::*;

use crate::hal::DirectionPin;
use crate::hal::DutyCycleOutput;

verus! {

/// The observable electrical state of one H-bridge channel: the level of
/// each direction line and the applied duty-cycle percentage.
pub struct MotorState {
    pub pin_a_high: bool,
    pub pin_b_high: bool,
    pub duty_percent: u8,
}

/// The speed clamping policy: inputs above 100 are silently capped to 100,
/// never rejected.
pub open spec fn clamped(speed: u8) -> u8 {
    if speed > 100 {
        100u8
    } else {
        speed
    }
}

/// The state a forward command leaves behind: pin A high, pin B low, duty
/// cycle at the clamped speed.
pub open spec fn forward_state(speed: u8) -> MotorState {
    MotorState { pin_a_high: true, pin_b_high: false, duty_percent: clamped(speed) }
}

/// The state a backward command leaves behind: pin A low, pin B high, duty
/// cycle at the clamped speed.
pub open spec fn backward_state(speed: u8) -> MotorState {
    MotorState { pin_a_high: false, pin_b_high: true, duty_percent: clamped(speed) }
}

/// The state a stop command leaves behind: duty cycle zero, direction lines
/// untouched (the motor coasts).
pub open spec fn coast_state(pre: MotorState) -> MotorState {
    MotorState { pin_a_high: pre.pin_a_high, pin_b_high: pre.pin_b_high, duty_percent: 0 }
}

/// The state a brake command leaves behind: both direction lines high and
/// full duty cycle, shorting the motor terminals for active braking.
pub open spec fn brake_state() -> MotorState {
    MotorState { pin_a_high: true, pin_b_high: true, duty_percent: 100 }
}

/// The state an emergency stop leaves behind: both direction lines low and
/// duty cycle zero, the strongest safe-at-rest condition.
pub open spec fn halt_state() -> MotorState {
    MotorState { pin_a_high: false, pin_b_high: false, duty_percent: 0 }
}

/// Whether the pin pair selects the forward drive mode of the H-bridge.
pub open spec fn drives_forward(s: MotorState) -> bool {
    s.pin_a_high && !s.pin_b_high
}

/// Whether the pin pair selects the backward drive mode of the H-bridge.
pub open spec fn drives_backward(s: MotorState) -> bool {
    !s.pin_a_high && s.pin_b_high
}

/// Whether the pin pair shorts the motor terminals (active braking).
pub open spec fn drives_brake(s: MotorState) -> bool {
    s.pin_a_high && s.pin_b_high
}

/// Whether the pin pair leaves the motor terminals floating (coasting).
pub open spec fn drives_float(s: MotorState) -> bool {
    !s.pin_a_high && !s.pin_b_high
}

/// Law: the direction lines assert exactly one H-bridge drive mode at any
/// instant; forward, backward, brake and float exclude one another.
pub proof fn lemma_exclusive_drive_mode(s: MotorState)
    ensures
        drives_forward(s) || drives_backward(s) || drives_brake(s) || drives_float(s),
        drives_forward(s) ==> !drives_backward(s) && !drives_brake(s) && !drives_float(s),
        drives_backward(s) ==> !drives_forward(s) && !drives_brake(s) && !drives_float(s),
        drives_brake(s) ==> !drives_forward(s) && !drives_backward(s) && !drives_float(s),
        drives_float(s) ==> !drives_forward(s) && !drives_backward(s) && !drives_brake(s),
{
}

/// Law: a forward command followed by a backward command leaves exactly one
/// direction line high after each, with the pair swapped between the two,
/// and the duty cycle at the second command's clamped speed.
pub proof fn lemma_forward_then_backward_swaps_pins(s1: u8, s2: u8)
    ensures
        forward_state(s1).pin_a_high != forward_state(s1).pin_b_high,
        backward_state(s2).pin_a_high != backward_state(s2).pin_b_high,
        backward_state(s2).pin_a_high == !forward_state(s1).pin_a_high,
        backward_state(s2).pin_b_high == !forward_state(s1).pin_b_high,
        backward_state(s2).duty_percent == clamped(s2),
{
}

/// One independently driven wheel: exclusively owns its PWM output and its
/// two direction lines for its whole lifetime.
pub struct Motor<PWM, PIN> {
    enable_pwm: PWM,
    input_1: PIN,
    input_2: PIN,
}

impl<PWM: DutyCycleOutput, PIN: DirectionPin> View for Motor<PWM, PIN> {
    type V = MotorState;

    closed spec fn view(&self) -> MotorState {
        MotorState {
            pin_a_high: self.input_1.is_high(),
            pin_b_high: self.input_2.is_high(),
            duty_percent: self.enable_pwm.duty_percent(),
        }
    }
}

impl<PWM: DutyCycleOutput, PIN: DirectionPin> Motor<PWM, PIN> {
    /// Take exclusive ownership of the three hardware handles; both
    /// direction lines are driven low, the duty cycle is left as handed in.
    pub fn new(pwm_pin: PWM, in1: PIN, in2: PIN) -> (r: Motor<PWM, PIN>)
        ensures
            !r@.pin_a_high,
            !r@.pin_b_high,
            r@.duty_percent == pwm_pin.duty_percent(),
    {
        let mut a = in1;
        let mut b = in2;
        a.set_low();
        b.set_low();
        Motor { enable_pwm: pwm_pin, input_1: a, input_2: b }
    }

    /// Drive the wheel in the forward rotational sense at the clamped speed.
    pub fn forward(&mut self, speed: u8)
        ensures
            final(self)@ == forward_state(speed),
            speed <= 100 ==> final(self)@.duty_percent == speed,
            speed > 100 ==> final(self)@.duty_percent == 100,
    {
        self.input_1.set_high();
        self.input_2.set_low();
        let duty: u8 = if speed > 100 {
            100
        } else {
            speed
        };
        self.enable_pwm.set_duty_percent(duty);
    }

    /// Drive the wheel in the backward rotational sense at the clamped speed.
    pub fn backward(&mut self, speed: u8)
        ensures
            final(self)@ == backward_state(speed),
            speed <= 100 ==> final(self)@.duty_percent == speed,
            speed > 100 ==> final(self)@.duty_percent == 100,
    {
        self.input_1.set_low();
        self.input_2.set_high();
        let duty: u8 = if speed > 100 {
            100
        } else {
            speed
        };
        self.enable_pwm.set_duty_percent(duty);
    }

    /// Let the wheel coast: duty cycle to zero, direction lines untouched.
    pub fn stop(&mut self)
        ensures
            final(self)@ == coast_state(old(self)@),
            final(self)@.duty_percent == 0,
            final(self)@.pin_a_high == old(self)@.pin_a_high,
            final(self)@.pin_b_high == old(self)@.pin_b_high,
    {
        self.enable_pwm.set_duty_percent(0);
    }

    /// Brake actively: both direction lines high, full duty cycle,
    /// regardless of the prior state.
    pub fn brake(&mut self)
        ensures
            final(self)@ == brake_state(),
    {
        self.input_1.set_high();
        self.input_2.set_high();
        self.enable_pwm.set_duty_percent(100);
    }

    /// Halt for a fault: both direction lines low and duty cycle zero,
    /// regardless of the prior state.
    pub fn emergency_stop(&mut self)
        ensures
            final(self)@ == halt_state(),
    {
        self.input_1.set_low();
        self.input_2.set_low();
        self.enable_pwm.set_duty_percent(0);
    }

    /// The duty-cycle percentage currently applied to the PWM output.
    pub fn duty_percent(&self) -> (r: u8)
        ensures
            r == self@.duty_percent,
    {
        self.enable_pwm.current_duty_percent()
    }

    /// Whether direction line A is currently driven high.
    pub fn pin_a_high(&self) -> (r: bool)
        ensures
            r == self@.pin_a_high,
    {
        self.input_1.read_high()
    }

    /// Whether direction line B is currently driven high.
    pub fn pin_b_high(&self) -> (r: bool)
        ensures
            r == self@.pin_b_high,
    {
        self.input_2.read_high()
    }
}

} // verus!
