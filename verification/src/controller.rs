//! The four-motor chassis controller: fans one locomotion command out to
//! four independently wired motors with fixed left/right semantics.

use vstd::prelude::*;

use crate::hal::DirectionPin;
use crate::hal::DutyCycleOutput;
use crate::motor::Motor;
use crate::motor::MotorState;
use crate::motor::backward_state;
use crate::motor::brake_state;
use crate::motor::coast_state;
use crate::motor::forward_state;
use crate::motor::halt_state;

verus! {

/// The observable state of the whole chassis: one electrical state per
/// motor. Motors 1 and 2 are the left side, motors 3 and 4 the right side.
pub struct ChassisState {
    pub motor_1: MotorState,
    pub motor_2: MotorState,
    pub motor_3: MotorState,
    pub motor_4: MotorState,
}

/// A whole-chassis locomotion command.
pub enum DriveCommand {
    Forward(u8),
    Backward(u8),
    TurnLeft(u8),
    TurnRight(u8),
    Stop,
    Brake,
    EmergencyStop,
}

/// The chassis state one command leaves behind. Turning reverses one side
/// relative to the other (skid-steer kinematics) at the same speed.
pub open spec fn chassis_step(pre: ChassisState, cmd: DriveCommand) -> ChassisState {
    match cmd {
        DriveCommand::Forward(s) => ChassisState {
            motor_1: forward_state(s),
            motor_2: forward_state(s),
            motor_3: forward_state(s),
            motor_4: forward_state(s),
        },
        DriveCommand::Backward(s) => ChassisState {
            motor_1: backward_state(s),
            motor_2: backward_state(s),
            motor_3: backward_state(s),
            motor_4: backward_state(s),
        },
        DriveCommand::TurnLeft(s) => ChassisState {
            motor_1: backward_state(s),
            motor_2: backward_state(s),
            motor_3: forward_state(s),
            motor_4: forward_state(s),
        },
        DriveCommand::TurnRight(s) => ChassisState {
            motor_1: forward_state(s),
            motor_2: forward_state(s),
            motor_3: backward_state(s),
            motor_4: backward_state(s),
        },
        DriveCommand::Stop => ChassisState {
            motor_1: coast_state(pre.motor_1),
            motor_2: coast_state(pre.motor_2),
            motor_3: coast_state(pre.motor_3),
            motor_4: coast_state(pre.motor_4),
        },
        DriveCommand::Brake => ChassisState {
            motor_1: brake_state(),
            motor_2: brake_state(),
            motor_3: brake_state(),
            motor_4: brake_state(),
        },
        DriveCommand::EmergencyStop => ChassisState {
            motor_1: halt_state(),
            motor_2: halt_state(),
            motor_3: halt_state(),
            motor_4: halt_state(),
        },
    }
}

/// Law: issuing the same command twice in succession leaves the chassis in
/// exactly the state one issue leaves; every command is idempotent.
pub proof fn lemma_command_idempotent(pre: ChassisState, cmd: DriveCommand)
    ensures
        chassis_step(chassis_step(pre, cmd), cmd) == chassis_step(pre, cmd),
{
}

/// Law: a right turn is the exact mirror of a left turn at the same speed;
/// each left-side motor state under one equals the matching right-side motor
/// state under the other.
pub proof fn lemma_turns_mirror(pre: ChassisState, speed: u8)
    ensures
        chassis_step(pre, DriveCommand::TurnLeft(speed)).motor_1 == chassis_step(
            pre,
            DriveCommand::TurnRight(speed),
        ).motor_3,
        chassis_step(pre, DriveCommand::TurnLeft(speed)).motor_2 == chassis_step(
            pre,
            DriveCommand::TurnRight(speed),
        ).motor_4,
        chassis_step(pre, DriveCommand::TurnLeft(speed)).motor_3 == chassis_step(
            pre,
            DriveCommand::TurnRight(speed),
        ).motor_1,
        chassis_step(pre, DriveCommand::TurnLeft(speed)).motor_4 == chassis_step(
            pre,
            DriveCommand::TurnRight(speed),
        ).motor_2,
{
}

/// The chassis's four-actuator ensemble; exclusively owns its motors, each
/// permanently bound to a fixed physical position.
pub struct MotorController<P1, P2, P3, P4, PIN> {
    motor_1: Motor<P1, PIN>,
    motor_2: Motor<P2, PIN>,
    motor_3: Motor<P3, PIN>,
    motor_4: Motor<P4, PIN>,
}

impl<
    P1: DutyCycleOutput,
    P2: DutyCycleOutput,
    P3: DutyCycleOutput,
    P4: DutyCycleOutput,
    PIN: DirectionPin,
> View for MotorController<P1, P2, P3, P4, PIN> {
    type V = ChassisState;

    closed spec fn view(&self) -> ChassisState {
        ChassisState {
            motor_1: self.motor_1@,
            motor_2: self.motor_2@,
            motor_3: self.motor_3@,
            motor_4: self.motor_4@,
        }
    }
}

impl<
    P1: DutyCycleOutput,
    P2: DutyCycleOutput,
    P3: DutyCycleOutput,
    P4: DutyCycleOutput,
    PIN: DirectionPin,
> MotorController<P1, P2, P3, P4, PIN> {
    /// Take exclusive ownership of the four motors, in fixed positions:
    /// motors 1 and 2 on the left side, motors 3 and 4 on the right side.
    pub fn new(
        motor1: Motor<P1, PIN>,
        motor2: Motor<P2, PIN>,
        motor3: Motor<P3, PIN>,
        motor4: Motor<P4, PIN>,
    ) -> (r: MotorController<P1, P2, P3, P4, PIN>)
        ensures
            r@.motor_1 == motor1@,
            r@.motor_2 == motor2@,
            r@.motor_3 == motor3@,
            r@.motor_4 == motor4@,
    {
        MotorController { motor_1: motor1, motor_2: motor2, motor_3: motor3, motor_4: motor4 }
    }

    /// Translate straight ahead: all four motors forward at the same speed.
    pub fn forward(&mut self, speed: u8)
        ensures
            final(self)@ == chassis_step(old(self)@, DriveCommand::Forward(speed)),
    {
        self.motor_1.forward(speed);
        self.motor_2.forward(speed);
        self.motor_3.forward(speed);
        self.motor_4.forward(speed);
    }

    /// Translate straight back: all four motors backward at the same speed.
    pub fn backward(&mut self, speed: u8)
        ensures
            final(self)@ == chassis_step(old(self)@, DriveCommand::Backward(speed)),
    {
        self.motor_1.backward(speed);
        self.motor_2.backward(speed);
        self.motor_3.backward(speed);
        self.motor_4.backward(speed);
    }

    /// Differential pivot left: left-side motors reverse, right-side motors
    /// forward, all at the same speed.
    pub fn turn_left(&mut self, speed: u8)
        ensures
            final(self)@ == chassis_step(old(self)@, DriveCommand::TurnLeft(speed)),
    {
        self.motor_1.backward(speed);
        self.motor_2.backward(speed);
        self.motor_3.forward(speed);
        self.motor_4.forward(speed);
    }

    /// Differential pivot right: the exact mirror of a left turn.
    pub fn turn_right(&mut self, speed: u8)
        ensures
            final(self)@ == chassis_step(old(self)@, DriveCommand::TurnRight(speed)),
    {
        self.motor_1.forward(speed);
        self.motor_2.forward(speed);
        self.motor_3.backward(speed);
        self.motor_4.backward(speed);
    }

    /// Coast all four motors: duty cycles to zero, direction lines untouched.
    pub fn stop(&mut self)
        ensures
            final(self)@ == chassis_step(old(self)@, DriveCommand::Stop),
    {
        self.motor_1.stop();
        self.motor_2.stop();
        self.motor_3.stop();
        self.motor_4.stop();
    }

    /// Actively brake all four motors.
    pub fn brake(&mut self)
        ensures
            final(self)@ == chassis_step(old(self)@, DriveCommand::Brake),
    {
        self.motor_1.brake();
        self.motor_2.brake();
        self.motor_3.brake();
        self.motor_4.brake();
    }

    /// Fault-safe halt of all four motors.
    pub fn emergency_stop(&mut self)
        ensures
            final(self)@ == chassis_step(old(self)@, DriveCommand::EmergencyStop),
    {
        self.motor_1.emergency_stop();
        self.motor_2.emergency_stop();
        self.motor_3.emergency_stop();
        self.motor_4.emergency_stop();
    }

    /// The front-left motor (left side).
    pub fn motor_1(&self) -> (r: &Motor<P1, PIN>)
        ensures
            r@ == self@.motor_1,
    {
        &self.motor_1
    }

    /// The rear-left motor (left side).
    pub fn motor_2(&self) -> (r: &Motor<P2, PIN>)
        ensures
            r@ == self@.motor_2,
    {
        &self.motor_2
    }

    /// The front-right motor (right side).
    pub fn motor_3(&self) -> (r: &Motor<P3, PIN>)
        ensures
            r@ == self@.motor_3,
    {
        &self.motor_3
    }

    /// The rear-right motor (right side).
    pub fn motor_4(&self) -> (r: &Motor<P4, PIN>)
        ensures
            r@ == self@.motor_4,
    {
        &self.motor_4
    }
}

} // verus!
