//! Transport layer underneath an HTTP/2 RPC framework.
//!
//! The client side turns one endpoint, or a changing set of endpoints, into a
//! cheaply cloneable channel handle that funnels concurrent calls through one
//! bounded mailbox and, when several endpoints are known, picks among the
//! ready ones by power-of-two-choices. The server side turns a listening
//! socket into a stream of TLS-authenticated, protocol-negotiated connections
//! and recovers from transport-level call failures by answering with a
//! well-formed status instead of tearing the connection down.
//!
//! Everything that decides or computes lives here with a contract; the
//! surrounding socket, TLS and task plumbing is ordinary asynchronous code
//! built on top of this crate.

use vstd::prelude::*;

mod balance;
mod channel;
mod conn;
mod dur;
mod endpoint;
mod incoming;
mod recover_error;
mod router;
mod status;
mod tls;
mod uri;

pub use balance::Balancer;
pub use balance::BalancerEntry;
pub use balance::Change;
pub use balance::fresh_entry;
pub use balance::law_pick_liveness;
pub use balance::pick_spec;
pub use balance::ready_indices;
pub use channel::Backend;
pub use channel::Channel;
pub use channel::ConnState;
pub use channel::DEFAULT_BUFFER_SIZE;
pub use channel::IntoUri;
pub use channel::Mailbox;
pub use channel::buffer_size_of;
pub use channel::drain;
pub use channel::law_mailbox_fifo;
pub use conn::Connected;
pub use conn::IpAddress;
pub use conn::SocketAddress;
pub use conn::TcpConnectInfo;
pub use conn::TlsConnectInfo;
pub use dur::TimeSpan;
pub use endpoint::Endpoint;
pub use endpoint::resolved_tls_domain;
pub use endpoint::valid_header_byte;
pub use endpoint::valid_header_value;
pub use incoming::AcceptAction;
pub use incoming::AcceptEvent;
pub use incoming::AcceptLoop;
pub use incoming::WaitMode;
pub use incoming::accept_step;
pub use incoming::law_accept_loop_liveness;
pub use recover_error::MaybeEmptyBody;
pub use recover_error::RecoverError;
pub use recover_error::Recovered;
pub use recover_error::h2_description_of;
pub use recover_error::h2_reason_of;
pub use recover_error::recover;
pub use recover_error::status_for_h2_error;
pub use router::TrailersOnlyReply;
pub use router::unimplemented_reply;
pub use status::Code;
pub use status::Fault;
pub use status::Status;
pub use status::code_for_h2_reason;
pub use status::code_number;
pub use status::fault_status;
pub use status::status_code_for_h2_reason;
pub use status::status_for_fault;
pub use tls::Certificate;
pub use tls::TlsConnector;
pub use tls::is_h2_alpn;
pub use uri::Uri;
pub use uri::uri_parse;

verus! {

/// Errors produced while configuring endpoints and establishing connections.
#[derive(Debug, PartialEq, Eq)]
pub enum Error {
    /// The endpoint string did not parse as a URI, or the URI has no usable
    /// host to verify TLS against.
    InvalidUri(String),
    /// The user agent was not a valid header value.
    InvalidUserAgent,
    /// The TLS handshake succeeded but the peer negotiated a protocol other
    /// than HTTP/2.
    H2NotNegotiated,
    /// Any lower-layer failure, carried as its description.
    Other(String),
}

impl Error {
    pub fn new_invalid_uri(detail: String) -> (e: Error)
        ensures
            e == Error::InvalidUri(detail),
    {
        Error::InvalidUri(detail)
    }

    pub fn from_source(source: String) -> (e: Error)
        ensures
            e == Error::Other(source),
    {
        Error::Other(source)
    }
}

} // verus!
