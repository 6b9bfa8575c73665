//! The decision core of an interrupt-driven two-line clock panel.
//!
//! Everything here is a function from plain values to plain values: the
//! surrounding program owns the pins, the buses and the threads, feeds what it
//! observed into these state machines and carries out the actions they return.

pub mod alarm;
pub mod bridge;
pub mod clock;
pub mod config;
pub mod control;
pub mod display;
pub mod edges;
pub mod exchange;
pub mod text;
pub mod timesync;

pub use crate::config::AppConfig;
