//! Capability traits for the hardware outputs a motor drives, plus simple
//! in-memory implementations for host-side use and tests.
//!
//! A real board binds these traits to its PWM peripheral and GPIO pins; the
//! command logic in this crate is verified against the trait contracts alone.

use vstd::prelude::*;

verus! {

/// A PWM-capable output that accepts a duty-cycle percentage in `0..=100`.
pub trait DutyCycleOutput {
    /// The duty-cycle percentage currently applied to the output.
    spec fn duty_percent(&self) -> u8;

    /// Apply `percent` as the new duty cycle.
    fn set_duty_percent(&mut self, percent: u8)
        requires
            percent <= 100,
        ensures
            final(self).duty_percent() == percent,
    ;

    /// Report the duty-cycle percentage currently applied.
    fn current_duty_percent(&self) -> (r: u8)
        ensures
            r == self.duty_percent(),
    ;
}

/// A binary digital output used as one H-bridge direction line.
pub trait DirectionPin {
    /// Whether the line is currently driven high.
    spec fn is_high(&self) -> bool;

    /// Drive the line high.
    fn set_high(&mut self)
        ensures
            final(self).is_high(),
    ;

    /// Drive the line low.
    fn set_low(&mut self)
        ensures
            !final(self).is_high(),
    ;

    /// Report whether the line is currently driven high.
    fn read_high(&self) -> (r: bool)
        ensures
            r == self.is_high(),
    ;
}

/// An in-memory duty-cycle output: records the last applied percentage.
pub struct SimPwm {
    duty: u8,
}

impl SimPwm {
    /// A fresh simulated PWM output with a duty cycle of zero.
    pub fn new() -> (r: SimPwm)
        ensures
            r.duty_percent() == 0,
    {
        SimPwm { duty: 0 }
    }
}

impl DutyCycleOutput for SimPwm {
    closed spec fn duty_percent(&self) -> u8 {
        self.duty
    }

    fn set_duty_percent(&mut self, percent: u8) {
        self.duty = percent;
    }

    fn current_duty_percent(&self) -> u8 {
        self.duty
    }
}

/// An in-memory digital output: records the last level driven.
pub struct SimPin {
    high: bool,
}

impl SimPin {
    /// A fresh simulated pin, driven low.
    pub fn new() -> (r: SimPin)
        ensures
            !r.is_high(),
    {
        SimPin { high: false }
    }
}

impl DirectionPin for SimPin {
    closed spec fn is_high(&self) -> bool {
        self.high
    }

    fn set_high(&mut self) {
        self.high = true;
    }

    fn set_low(&mut self) {
        self.high = false;
    }

    fn read_high(&self) -> bool {
        self.high
    }
}

} // verus!
