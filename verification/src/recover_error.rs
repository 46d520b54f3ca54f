//! Recovery from call failures. A handler's failure never propagates as a raw
//! stream error: it is answered as a successful HTTP-level response carrying
//! only a status trailer and an empty body, so the caller always sees a
//! well-formed status instead of a dropped connection.

use vstd::prelude::*;
use h2::Error as H2Error;
use crate::status::{Fault, Status, code_for_h2_reason, fault_status, status_code_for_h2_reason, status_for_fault};

verus! {

#[verifier::external_type_specification]
#[verifier::external_body]
pub struct ExH2Error(H2Error);

/// The HTTP/2 error code an `h2::Error` carries, if it carries one, as its
/// wire number: what `h2::Error::reason` reports, a function of the error
/// value alone.
pub uninterp spec fn h2_reason_of(e: H2Error) -> Option<u32>;

/// The description an `h2::Error` is reported with: its rendering behind a
/// fixed prefix, a function of the error value alone.
pub uninterp spec fn h2_description_of(e: H2Error) -> Seq<char>;

/// Relies on `h2::Error::reason` for the HTTP/2 error code the transport
/// reported, if any (`u32::from` turns the code into its wire number), and on
/// the error's `Display` rendering for a description; both only read the
/// error value.
#[verifier::external_body]
fn h2_error_parts(e: &H2Error) -> (r: (Option<u32>, String))
    ensures
        r.0 == h2_reason_of(*e),
        r.1@ == h2_description_of(*e),
{
    (e.reason().map(u32::from), format!("h2 protocol error: {}", e))
}

/// The status for a transport-level HTTP/2 error: the error code it reports,
/// mapped through the fixed table, with its description as the message.
pub fn status_for_h2_error(e: &H2Error) -> (st: Status)
    ensures
        st.code == code_for_h2_reason(h2_reason_of(*e)),
        st.message@ == h2_description_of(*e),
{
    let (reason, message) = h2_error_parts(e);
    let code = status_code_for_h2_reason(reason);
    Status { code, message }
}

/// Middleware that recovers from a wrapped service's errors by answering
/// them as status-only responses.
#[derive(Debug, Clone)]
pub struct RecoverError<S> {
    pub inner: S,
}

impl<S> RecoverError<S> {
    pub fn new(inner: S) -> (r: Self)
        ensures
            r.inner == inner,
    {
        Self { inner }
    }
}

/// A response body that is either a wrapped body passed through unchanged,
/// or nothing at all (the body of a status-only response).
#[derive(Debug, Clone)]
pub struct MaybeEmptyBody<B> {
    pub inner: Option<B>,
}

impl<B> MaybeEmptyBody<B> {
    pub fn full(inner: B) -> (r: Self)
        ensures
            r.inner == Some(inner),
    {
        Self { inner: Some(inner) }
    }

    pub fn empty() -> (r: Self)
        ensures
            r.inner is None,
    {
        Self { inner: None }
    }

    /// An empty body yields no data and is at its end from the start; a full
    /// body defers both questions to the body it wraps.
    pub fn is_empty(&self) -> (r: bool)
        ensures
            r == (self.inner is None),
    {
        match &self.inner {
            Some(_) => false,
            None => true,
        }
    }
}

/// The outcome the recovery middleware hands upward: always a well-formed
/// response, never a raw error.
#[derive(Debug, Clone)]
pub struct Recovered<B> {
    /// The inner body, untouched, on success; empty on failure.
    pub body: MaybeEmptyBody<B>,
    /// The status trailer added on failure; `None` on success, where the
    /// inner response already carries its own outcome.
    pub status: Option<Status>,
}

/// Recover from a call's outcome: a successful response's body passes
/// through unchanged, and every failure becomes a status-only response with
/// an empty body and the status the fault maps to.
pub fn recover<B>(result: Result<B, Fault>) -> (r: Recovered<B>)
    ensures
        match result {
            Ok(body) => r.body.inner == Some(body) && r.status is None,
            Err(fault) => r.body.inner is None && r.status == Some(fault_status(fault)),
        },
{
    match result {
        Ok(body) => Recovered { body: MaybeEmptyBody::full(body), status: None },
        Err(fault) => Recovered {
            body: MaybeEmptyBody::empty(),
            status: Some(status_for_fault(fault)),
        },
    }
}

} // verus!
