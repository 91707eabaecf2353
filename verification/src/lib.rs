//! Verified driver model for a four-wheel differential (skid-steer) robot
//! chassis built from dual H-bridge motor drivers.
//!
//! Each [`motor::Motor`] owns one PWM duty-cycle output and two digital
//! direction lines and translates a direction-plus-speed command into the
//! electrical state of a single H-bridge channel. A
//! [`controller::MotorController`] owns four motors and fans a single
//! locomotion command out to all of them with fixed left/right semantics.
//!
//! The hardware outputs are abstracted by the capability traits in [`hal`],
//! so the command logic is verified once and runs against any concrete
//! output implementation.

pub mod controller;
pub mod hal;
pub mod motor;
