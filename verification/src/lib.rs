//! A cycle-accurate emulator core for the 6502 microprocessor.
//!
//! The core is split into a flat byte-addressable memory (`mem`), the
//! register and status-flag model (`flags`, `cpu`), a mathematical model of
//! the fetch-decode-execute engine (`model`, `step`), and proved laws about
//! that engine (`laws`).

pub mod model;
pub mod flags;
pub mod mem;
pub mod cpu;
pub mod step;
pub mod laws;
