//! The router's fixed replies. Matching a call's path to a registered
//! handler is the routing collaborator's work, outside this crate; what is
//! pinned here is the reply for a path no handler claims: an HTTP-success
//! response whose trailer says the call is unimplemented, per the
//! status-in-trailer convention.

use vstd::prelude::*;
use crate::status::{Code, code_number};

verus! {

/// A trailers-only reply: an HTTP status with the call's outcome carried in
/// the `grpc-status` trailer, and no body.
#[derive(Debug, Clone, Copy, PartialEq, Eq, Structural)]
pub struct TrailersOnlyReply {
    pub http_status: u16,
    pub grpc_status: u64,
}

/// The reply for a path no registered handler claims: HTTP success with an
/// unimplemented status trailer. The call fails, yet the HTTP exchange
/// succeeds: the outcome travels in the trailer.
pub fn unimplemented_reply() -> (r: TrailersOnlyReply)
    ensures
        r.http_status == 200,
        r.grpc_status == code_number(Code::Unimplemented),
{
    TrailersOnlyReply { http_status: 200, grpc_status: Code::Unimplemented.wire_value() }
}

} // verus!
