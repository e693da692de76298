//! The core of a CAN motor workbench: what a bus analyzer keeps of the traffic and
//! hands out, how devices are told apart and shown, and how an IMU and a haptic knob
//! are run.
//!
//! Everything here works on plain values. Opening a bus, sending, receiving, waiting
//! and floating-point arithmetic belong to the program around it, which hands in what
//! it heard and carries out what it is told.

pub mod analyzer;
pub mod bits;
pub mod can;
pub mod canopen;
pub mod device_registry;
pub mod dto;
pub mod filter;
pub mod imu;
pub mod motor;
pub mod smartknob;
pub mod text;
