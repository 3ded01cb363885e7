//! Sans-I/O core of a driver for a radio coprocessor that is commanded through a
//! doorbell register pair.
//!
//! The crate decides *what* has to be done on the hardware and in which order; the
//! embedding firmware performs each register access and reports what it read.

pub mod bits;
pub mod rfc_commands;
pub mod procedure;
pub mod rfc;
pub mod runs;
pub mod registers;
