//! A small desktop power tool: a live clock plus five power-state requests
//! (shutdown, reboot, logout, hibernate, sleep).
//!
//! This crate holds the verified core: the clock's wall-time model and its
//! textual rendering, and the serial event handler that reacts to button
//! requests and timer ticks. The windowing layer and the operating-system
//! power calls live outside the library and talk to it through plain values.

pub mod clock;
pub mod state;
