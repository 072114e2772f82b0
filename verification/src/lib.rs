//! Timekeeping and interrupt-control core for a small RISC-V microcontroller.
//!
//! The hardware register file is modelled as plain data, so every register
//! access the logic performs is stated and proved bit for bit.

pub mod critical;
pub mod gpio;
pub mod pfic;
pub mod sys;
pub mod systick;
