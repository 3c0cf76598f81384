//! Session engine of a serial-port terminal.
//!
//! A [`session::Session`] holds what one open-to-close lifetime of a serial
//! connection shares between the reader/writer loop and the commands issued
//! against it: the run flag, the queue of bytes waiting to be transmitted and
//! the accumulator of everything received. The loop itself performs port and
//! sink I/O and therefore lives with the caller; every decision it takes is a
//! method of the session, stated over the mathematical state in
//! [`model::SessionModel`].

pub mod error;
pub mod event;
pub mod laws;
pub mod model;
pub mod offsets;
pub mod pattern;
pub mod search;
pub mod session;
pub mod text;
