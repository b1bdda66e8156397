//! Control logic of a two-channel servo board.
//!
//! The board samples two signals, filters them and puts out the results, 500,000 times a second.
//! This library holds the decisions of its firmware: the order of work in the two interrupt
//! routines, the conversion between converter words and samples, the settings of the peripherals,
//! and the command server with the loop around it. Peripherals, network stack and the
//! floating-point filters are the caller's.

pub mod board;
pub mod buffer;
pub mod conversion;
pub mod network;
pub mod sample;
pub mod server;
pub mod stream;
pub mod trace;
pub mod trigger;
