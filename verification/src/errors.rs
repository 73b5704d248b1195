//! The closed failure taxonomy shared by every protocol path, and the
//! classifier that fixes the externally observable HTTP status and body
//! for each kind of failure.

use vstd::prelude::*;

verus! {

/// One classified failure of a single in-flight request. The payload is the
/// logged detail text; the variant alone decides the HTTP-facing behaviour.
#[derive(Debug, Clone, PartialEq, Eq)]
pub enum AppError {
    /// The exchange deadline elapsed, or a socket write or read failed.
    IoError(String),
    /// The inbound payload was malformed, or the codec failed to decode the
    /// backend response.
    ParseError(String),
    /// The codec failed to encode the outbound request or response.
    SerializeError(String),
    /// Any other failure.
    Unclassified(String),
}

/// The backend channel a request was addressed to; it only picks the wording
/// of the generic failure bodies.
#[derive(Debug, Clone, Copy, PartialEq, Eq, Structural)]
pub enum ChannelKind {
    Dhi,
    Sp,
    Ips,
}

pub open spec fn is_io(e: AppError) -> bool {
    e matches AppError::IoError(_)
}

pub open spec fn is_parse(e: AppError) -> bool {
    e matches AppError::ParseError(_)
}

pub open spec fn is_serialize(e: AppError) -> bool {
    e matches AppError::SerializeError(_)
}

/// The fixed status of each failure kind: a gateway-timeout status for I/O
/// failures, an internal-error status for everything else.
pub open spec fn spec_status_code(e: AppError) -> u16 {
    if is_io(e) {
        504
    } else {
        500
    }
}

impl AppError {
    /// Maps this failure to the HTTP status code the gateway answers with.
    pub fn status_code(&self) -> (s: u16)
        ensures
            s == spec_status_code(*self),
            is_io(*self) <==> s == 504,
    {
        match self {
            AppError::IoError(_) => 504,
            AppError::ParseError(_) => 500,
            AppError::SerializeError(_) => 500,
            AppError::Unclassified(_) => 500,
        }
    }

    /// The logged detail carried by this failure.
    pub fn detail(&self) -> (d: &String)
        ensures
            *self matches AppError::IoError(t) ==> d == t,
            *self matches AppError::ParseError(t) ==> d == t,
            *self matches AppError::SerializeError(t) ==> d == t,
            *self matches AppError::Unclassified(t) ==> d == t,
    {
        match self {
            AppError::IoError(t) => t,
            AppError::ParseError(t) => t,
            AppError::SerializeError(t) => t,
            AppError::Unclassified(t) => t,
        }
    }
}

/// The generic text body answered for a classified failure on the given
/// channel. Every failure gets a fixed body; no detail leaks to the caller.
pub fn error_body(channel: ChannelKind, e: &AppError) -> (b: &'static str)
    ensures
        is_io(*e) && channel == ChannelKind::Dhi ==> b@ == "Error communicating with DHI host"@,
        is_io(*e) && channel == ChannelKind::Sp ==> b@ == "Error communicating with SP host"@,
        is_io(*e) && channel == ChannelKind::Ips ==> b@ == "Error communicating with IPS host"@,
        is_parse(*e) && channel == ChannelKind::Dhi ==> b@ == "Error processing data from DHI host"@,
        is_parse(*e) && channel == ChannelKind::Sp ==> b@ == "Error processing data from SP host"@,
        is_parse(*e) && channel == ChannelKind::Ips ==> b@ == "Error processing data from IPS host"@,
        is_serialize(*e) ==> b@ == "Serialization error"@,
        e matches AppError::Unclassified(_) ==> b@ == "Internal error"@,
{
    match e {
        AppError::IoError(_) => match channel {
            ChannelKind::Dhi => "Error communicating with DHI host",
            ChannelKind::Sp => "Error communicating with SP host",
            ChannelKind::Ips => "Error communicating with IPS host",
        },
        AppError::ParseError(_) => match channel {
            ChannelKind::Dhi => "Error processing data from DHI host",
            ChannelKind::Sp => "Error processing data from SP host",
            ChannelKind::Ips => "Error processing data from IPS host",
        },
        AppError::SerializeError(_) => "Serialization error",
        AppError::Unclassified(_) => "Internal error",
    }
}

} // verus!
