//! Verified binding layer for a messaging client that lives behind a
//! C-compatible function table.
//!
//! The exporting side owns the client instances, the strings it returns and
//! the threads that deliver inbound messages. This library holds the
//! decisions that the binding makes around each boundary call: how inputs are
//! marshalled, how the error slot and returned strings are interpreted, which
//! strings must be released, and in which order a client is torn down. The
//! raw calls themselves are made by the caller, who hands the results back as
//! plain values.
mod error;

pub use error::{ErrorKind, GomaxError};
mod json;
pub mod boundary;
pub mod timeout;
pub mod client;

pub use client::{Client, Completion, Creation, SendCall, TeardownStep};
