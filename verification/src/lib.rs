//! Verified configuration and control logic of a flocking simulator.
//!
//! The crate covers the parts of the simulator that decide rather than
//! draw: how launch settings from a configuration file and from the
//! command line are merged over the defaults, how textual option values
//! are read as numbers, and how window events are turned into commands
//! for the running simulation.

pub mod number;
pub mod config;
pub mod control;
pub mod error;
pub mod fps;
