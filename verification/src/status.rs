//! Call statuses. A call's final outcome is a status code plus a message,
//! carried in a trailer per the RPC-over-HTTP/2 convention. This module also
//! holds the fixed table that maps HTTP/2 transport error codes to status
//! codes; peers depend on that table staying exactly as it is.

use vstd::prelude::*;

verus! {

/// The status codes of the RPC protocol.
#[derive(Debug, Clone, Copy, PartialEq, Eq, Structural)]
pub enum Code {
    Okay,
    Cancelled,
    Unknown,
    InvalidArgument,
    DeadlineExceeded,
    NotFound,
    AlreadyExists,
    PermissionDenied,
    ResourceExhausted,
    FailedPrecondition,
    Aborted,
    OutOfRange,
    Unimplemented,
    Internal,
    Unavailable,
    DataLoss,
    Unauthenticated,
}

/// The number each code is written as on the wire (the `grpc-status`
/// trailer value).
pub open spec fn code_number(c: Code) -> int {
    match c {
        Code::Okay => 0,
        Code::Cancelled => 1,
        Code::Unknown => 2,
        Code::InvalidArgument => 3,
        Code::DeadlineExceeded => 4,
        Code::NotFound => 5,
        Code::AlreadyExists => 6,
        Code::PermissionDenied => 7,
        Code::ResourceExhausted => 8,
        Code::FailedPrecondition => 9,
        Code::Aborted => 10,
        Code::OutOfRange => 11,
        Code::Unimplemented => 12,
        Code::Internal => 13,
        Code::Unavailable => 14,
        Code::DataLoss => 15,
        Code::Unauthenticated => 16,
    }
}

impl Code {
    /// The wire value of this code.
    pub fn wire_value(&self) -> (v: u64)
        ensures
            v == code_number(*self),
    {
        match *self {
            Code::Okay => 0,
            Code::Cancelled => 1,
            Code::Unknown => 2,
            Code::InvalidArgument => 3,
            Code::DeadlineExceeded => 4,
            Code::NotFound => 5,
            Code::AlreadyExists => 6,
            Code::PermissionDenied => 7,
            Code::ResourceExhausted => 8,
            Code::FailedPrecondition => 9,
            Code::Aborted => 10,
            Code::OutOfRange => 11,
            Code::Unimplemented => 12,
            Code::Internal => 13,
            Code::Unavailable => 14,
            Code::DataLoss => 15,
            Code::Unauthenticated => 16,
        }
    }
}

/// A call's final outcome: a code and a human-readable message.
#[derive(Debug, Clone, PartialEq, Eq)]
pub struct Status {
    pub code: Code,
    pub message: String,
}

// The HTTP/2 error codes (RST_STREAM / GOAWAY reasons) of RFC 7540.
pub const H2_NO_ERROR: u32 = 0;

pub const H2_PROTOCOL_ERROR: u32 = 1;

pub const H2_INTERNAL_ERROR: u32 = 2;

pub const H2_FLOW_CONTROL_ERROR: u32 = 3;

pub const H2_SETTINGS_TIMEOUT: u32 = 4;

pub const H2_STREAM_CLOSED: u32 = 5;

pub const H2_FRAME_SIZE_ERROR: u32 = 6;

pub const H2_REFUSED_STREAM: u32 = 7;

pub const H2_CANCEL: u32 = 8;

pub const H2_COMPRESSION_ERROR: u32 = 9;

pub const H2_CONNECT_ERROR: u32 = 10;

pub const H2_ENHANCE_YOUR_CALM: u32 = 11;

pub const H2_INADEQUATE_SECURITY: u32 = 12;

/// The fixed mapping from an HTTP/2 transport error code (if the transport
/// reported one) to the status code answered to the caller. This table is an
/// externally observable contract; changing it breaks interoperation.
pub open spec fn code_for_h2_reason(reason: Option<u32>) -> Code {
    match reason {
        Some(r) => if r == H2_NO_ERROR || r == H2_PROTOCOL_ERROR || r == H2_INTERNAL_ERROR
            || r == H2_FLOW_CONTROL_ERROR || r == H2_SETTINGS_TIMEOUT || r == H2_COMPRESSION_ERROR
            || r == H2_CONNECT_ERROR {
            Code::Internal
        } else if r == H2_REFUSED_STREAM {
            Code::Unavailable
        } else if r == H2_CANCEL {
            Code::Cancelled
        } else if r == H2_ENHANCE_YOUR_CALM {
            Code::ResourceExhausted
        } else if r == H2_INADEQUATE_SECURITY {
            Code::PermissionDenied
        } else {
            Code::Unknown
        },
        None => Code::Unknown,
    }
}

/// Map an HTTP/2 transport error code to a status code, per the fixed table.
pub fn status_code_for_h2_reason(reason: Option<u32>) -> (c: Code)
    ensures
        c == code_for_h2_reason(reason),
{
    match reason {
        Some(r) => {
            if r == H2_NO_ERROR || r == H2_PROTOCOL_ERROR || r == H2_INTERNAL_ERROR
                || r == H2_FLOW_CONTROL_ERROR || r == H2_SETTINGS_TIMEOUT
                || r == H2_COMPRESSION_ERROR || r == H2_CONNECT_ERROR {
                Code::Internal
            } else if r == H2_REFUSED_STREAM {
                Code::Unavailable
            } else if r == H2_CANCEL {
                Code::Cancelled
            } else if r == H2_ENHANCE_YOUR_CALM {
                Code::ResourceExhausted
            } else if r == H2_INADEQUATE_SECURITY {
                Code::PermissionDenied
            } else {
                Code::Unknown
            }
        },
        None => Code::Unknown,
    }
}

/// A call failure as the recovery middleware sees it, reduced to plain
/// values: a transport-level HTTP/2 error with its optional error code and
/// description, a failure that already carries a status, or anything else.
#[derive(Debug, Clone, PartialEq, Eq)]
pub enum Fault {
    Transport(Option<u32>, String),
    Status(Status),
    Other(String),
}

/// The status a fault is answered with: transport errors go through the
/// fixed table, an embedded status is kept as it is, and everything else is
/// unknown.
pub open spec fn fault_status(f: Fault) -> Status {
    match f {
        Fault::Transport(reason, message) => Status { code: code_for_h2_reason(reason), message },
        Fault::Status(s) => s,
        Fault::Other(message) => Status { code: Code::Unknown, message },
    }
}

/// Turn a call failure into the status answered to the caller.
pub fn status_for_fault(f: Fault) -> (st: Status)
    ensures
        st == fault_status(f),
{
    match f {
        Fault::Transport(reason, message) => Status {
            code: status_code_for_h2_reason(reason),
            message,
        },
        Fault::Status(s) => s,
        Fault::Other(message) => Status { code: Code::Unknown, message },
    }
}

} // verus!
