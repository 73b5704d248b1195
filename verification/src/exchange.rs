//! The timeout-bounded exchange engine: one write of the whole request
//! followed by one single-shot bounded read, both under a single deadline.
//!
//! The blocking work itself is performed by the runtime around the library;
//! the engine owns the decisions: what a finished exchange yields, and how
//! every way of not finishing is classified. No failure is retried, and a
//! response is only ever the bytes of a completed read - never a partial
//! result passed off silently.

use vstd::prelude::*;
use crate::errors::AppError;
use crate::errors::is_io;

verus! {

/// Capacity of the fixed read buffer: a backend response is captured by one
/// read of at most this many bytes.
pub const EXCHANGE_BUFFER_CAPACITY: usize = 8192;

/// The deadline for one whole write-then-read exchange, in seconds.
pub const DEFAULT_TIMEOUT_SECS: u64 = 5;

/// What one exchange yields: the bytes of a completed read, or a classified
/// failure.
#[derive(Debug)]
pub enum ExchangeOutcome {
    Response(Vec<u8>),
    Failure(AppError),
}

/// What the runtime reports of one write-then-read attempt: both steps
/// finished within the deadline and the read captured these bytes, or the
/// deadline elapsed first, or a socket-level step failed with this detail.
#[derive(Debug)]
pub enum IoEvent {
    Completed(Vec<u8>),
    TimedOut,
    SocketError(String),
}

impl ExchangeOutcome {
    /// Whether this outcome is a classified I/O failure.
    pub open spec fn spec_is_io_failure(self) -> bool {
        self matches ExchangeOutcome::Failure(e) && is_io(e)
    }
}

/// Classifies what the runtime reported of one exchange: a completed
/// write-then-read yields exactly the bytes read; an elapsed deadline or a
/// socket failure yields an I/O failure and nothing else. The bytes of a
/// completed read come from the fixed buffer and cannot exceed its capacity.
pub fn complete_exchange(ev: IoEvent) -> (o: ExchangeOutcome)
    requires
        ev matches IoEvent::Completed(b) ==> b@.len() <= EXCHANGE_BUFFER_CAPACITY,
    ensures
        o matches ExchangeOutcome::Response(b) ==> b@.len() <= EXCHANGE_BUFFER_CAPACITY,
        ev matches IoEvent::Completed(b) ==> o == ExchangeOutcome::Response(b),
        ev matches IoEvent::TimedOut ==> o.spec_is_io_failure(),
        ev matches IoEvent::SocketError(d) ==> o == ExchangeOutcome::Failure(
            AppError::IoError(d),
        ),
        o matches ExchangeOutcome::Response(b) ==> ev == IoEvent::Completed(b),
{
    match ev {
        IoEvent::Completed(bytes) => ExchangeOutcome::Response(bytes),
        IoEvent::TimedOut => ExchangeOutcome::Failure(
            AppError::IoError(String::from_str("exchange deadline elapsed")),
        ),
        IoEvent::SocketError(detail) => ExchangeOutcome::Failure(AppError::IoError(detail)),
    }
}

/// Unwraps one exchange outcome: the response bytes of a completed
/// exchange, or the classified failure as the error.
pub fn exchange_bytes(o: ExchangeOutcome) -> (r: Result<Vec<u8>, AppError>)
    ensures
        o matches ExchangeOutcome::Response(b) ==> r == Ok::<Vec<u8>, AppError>(b),
        o matches ExchangeOutcome::Failure(e) ==> r == Err::<Vec<u8>, AppError>(e),
{
    match o {
        ExchangeOutcome::Response(bytes) => Ok(bytes),
        ExchangeOutcome::Failure(e) => Err(e),
    }
}

/// Decides one exchange from the fate of its two steps, measured in whole
/// time units against one shared deadline.
///
/// `write_result` is the time the write took, or nothing if the socket
/// failed during it; `read_result` is the time the read took together with
/// the bytes it captured, or nothing if the socket failed during it. The
/// outcome is the bytes read exactly when both steps finished and their
/// total time kept the deadline; every other fate is an I/O failure - a
/// partial response is never returned.
pub fn resolve_exchange(
    timeout: u64,
    write_result: Option<u64>,
    read_result: Option<(u64, Vec<u8>)>,
) -> (o: ExchangeOutcome)
    requires
        read_result matches Some(r) ==> r.1@.len() <= EXCHANGE_BUFFER_CAPACITY,
    ensures
        write_result matches Some(tw) ==> (read_result matches Some(r) ==> (tw + r.0 <= timeout
            ==> o == ExchangeOutcome::Response(r.1))),
        o matches ExchangeOutcome::Response(b) ==> write_result is Some && read_result is Some
            && (read_result->Some_0).1 == b
            && write_result->Some_0 + (read_result->Some_0).0 <= timeout,
        !(write_result is Some && read_result is Some
            && write_result->Some_0 + (read_result->Some_0).0 <= timeout)
            ==> o.spec_is_io_failure(),
        o matches ExchangeOutcome::Response(b) ==> b@.len() <= EXCHANGE_BUFFER_CAPACITY,
{
    match (write_result, read_result) {
        (Some(write_cost), Some((read_cost, bytes))) => {
            match write_cost.checked_add(read_cost) {
                Some(total) => {
                    if total <= timeout {
                        ExchangeOutcome::Response(bytes)
                    } else {
                        ExchangeOutcome::Failure(
                            AppError::IoError(String::from_str("exchange deadline elapsed")),
                        )
                    }
                },
                None => ExchangeOutcome::Failure(
                    AppError::IoError(String::from_str("exchange deadline elapsed")),
                ),
            }
        },
        _ => ExchangeOutcome::Failure(
            AppError::IoError(String::from_str("socket failure during exchange")),
        ),
    }
}

} // verus!
