//! Control logic of a small embedded web service: an LED that fades in and
//! out on command, a chip temperature readout, and the pages that report both.
//!
//! Apart from reading the clock, everything here is pure decision making.
//! The caller owns the hardware, the threads and the sockets; it feeds
//! events in and carries actions out.

pub mod animator;
pub mod channel;
pub mod clock;
pub mod command;
pub mod controller;
pub mod dispatch;
pub mod error;
pub mod fade;
pub mod page;
