//! Control of external display monitors through the VESA Monitor Control
//! Command Set, carried over the host's DDC/CI display-control interface.
//!
//! The operating system is reached only through the two traits of
//! [`native`]; everything the library decides on top of their answers is
//! verified for every answer they can give.

pub mod cli;
pub mod error;
pub mod monitor;
pub mod native;
pub mod text;
pub mod vcp;

pub use crate::error::MonitorError;
