//! Software-clocked serial scan driver for a 16-channel key controller.
//!
//! The controller exposes no register interface, only a clock line and a
//! data line: the host toggles the clock sixteen times, samples the data
//! line once per cycle (the line is active-low), and must then leave the
//! bus quiet for a mandatory interval before the next frame.
//!
//! The engine is written against a small capability interface
//! ([`port::ScanPort`]) exposing only "drive the clock line", "read the
//! data line" and "block until N ticks have elapsed", so the scan
//! algorithm runs unchanged against real lines or against the simulated
//! pair in [`sim`].

pub mod config;
pub mod engine;
pub mod frame;
pub mod laws;
pub mod port;
pub mod sim;
