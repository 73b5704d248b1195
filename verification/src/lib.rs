//! Core of a gateway that forwards HTTP-carried payloads to persistent
//! TCP-connected backend hosts: a fixed connection pool per backend channel
//! with round-robin selection, a timeout-bounded write-then-read exchange,
//! three protocol adapters around external codecs, and a closed error
//! taxonomy that fixes the HTTP status of every failure.

pub mod errors;
pub mod pool;
pub mod exchange;
pub mod codec;
pub mod adapters;
