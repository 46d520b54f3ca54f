//! Endpoint configuration. An `Endpoint` is an immutable value describing one
//! target: its URI plus every tunable of the connection built towards it.
//! Builder methods consume the value and return a new one with a single field
//! changed, so built endpoints can be shared freely.

use vstd::prelude::*;
use crate::Error;
use crate::channel::{Backend, Channel, ConnState, buffer_size_of};
use crate::dur::TimeSpan;
use crate::tls::TlsConnector;
use crate::uri::Uri;

verus! {

/// A byte a header value may hold: visible ASCII or space (but not delete),
/// or horizontal tab.
pub open spec fn valid_header_byte(b: u8) -> bool {
    (32 <= b && b != 127) || b == 9
}

/// A byte sequence every header byte of which is valid.
pub open spec fn valid_header_value(s: Seq<u8>) -> bool {
    forall|i: int| 0 <= i < s.len() ==> valid_header_byte(s[i])
}

/// Relies on `http::HeaderValue::from_bytes`, which accepts a byte slice
/// exactly when every byte is visible ASCII, space or horizontal tab.
#[verifier::external_body]
fn check_header_value(s: &[u8]) -> (r: bool)
    ensures
        r <==> valid_header_value(s@),
{
    http::HeaderValue::from_bytes(s).is_ok()
}

/// Configuration of one target endpoint.
///
/// Every field is plain data; durations are [`TimeSpan`]s and the user agent
/// is the raw bytes of the header value. Construction through [`Endpoint::new`]
/// or the parsing constructors keeps [`Endpoint::wf`]: the URI's stored host
/// agrees with its text, and a user agent, once set, is a valid header value.
#[derive(Debug, Clone)]
pub struct Endpoint {
    pub uri: Uri,
    pub tls_verify_domain: Option<String>,
    pub origin: Option<Uri>,
    pub user_agent: Option<Vec<u8>>,
    pub timeout: Option<TimeSpan>,
    pub concurrency_limit: Option<usize>,
    pub rate_limit: Option<(u64, TimeSpan)>,
    pub buffer_size: Option<usize>,
    pub init_stream_window_size: Option<u32>,
    pub init_connection_window_size: Option<u32>,
    pub tcp_keepalive: Option<TimeSpan>,
    pub tcp_nodelay: bool,
    pub http2_keep_alive_interval: Option<TimeSpan>,
    pub http2_keep_alive_timeout: Option<TimeSpan>,
    pub http2_keep_alive_while_idle: Option<bool>,
    pub connect_timeout: Option<TimeSpan>,
    pub http2_adaptive_window: Option<bool>,
}

/// The TLS verification domain of an endpoint: the explicit override when
/// one was set, else the host of the target URI, else nothing.
pub open spec fn resolved_tls_domain(e: Endpoint) -> Option<Seq<char>> {
    match e.tls_verify_domain {
        Some(d) => Some(d@),
        None => match e.uri.host {
            Some(h) => Some(h@),
            None => None,
        },
    }
}

impl Endpoint {
    /// The parsed URIs agree with their text and the user agent, if set, is
    /// a valid header value.
    pub open spec fn wf(&self) -> bool {
        &&& self.uri.wf()
        &&& (self.origin matches Some(o) ==> o.wf())
        &&& (self.user_agent matches Some(ua) ==> valid_header_value(ua@))
    }

    /// The options an endpoint starts from: nodelay is on, and every limit,
    /// timeout and override is absent.
    pub open spec fn has_default_options(&self) -> bool {
        &&& self.tls_verify_domain is None
        &&& self.origin is None
        &&& self.user_agent is None
        &&& self.timeout is None
        &&& self.concurrency_limit is None
        &&& self.rate_limit is None
        &&& self.buffer_size is None
        &&& self.init_stream_window_size is None
        &&& self.init_connection_window_size is None
        &&& self.tcp_keepalive is None
        &&& self.tcp_nodelay == true
        &&& self.http2_keep_alive_interval is None
        &&& self.http2_keep_alive_timeout is None
        &&& self.http2_keep_alive_while_idle is None
        &&& self.connect_timeout is None
        &&& self.http2_adaptive_window is None
    }

    /// Configure an endpoint for an already-parsed URI. Never fails; the
    /// fallible result mirrors the parsing constructors.
    pub fn new(uri: Uri) -> (r: Result<Endpoint, Error>)
        requires
            uri.wf(),
        ensures
            match r {
                Ok(e) => e.wf() && e.uri == uri && e.has_default_options(),
                Err(_) => false,
            },
    {
        Ok(Endpoint {
            uri,
            tls_verify_domain: None,
            origin: None,
            user_agent: None,
            timeout: None,
            concurrency_limit: None,
            rate_limit: None,
            buffer_size: None,
            init_stream_window_size: None,
            init_connection_window_size: None,
            tcp_keepalive: None,
            tcp_nodelay: true,
            http2_keep_alive_interval: None,
            http2_keep_alive_timeout: None,
            http2_keep_alive_while_idle: None,
            connect_timeout: None,
            http2_adaptive_window: None,
        })
    }

    /// Configure an endpoint from a URI string. Succeeds exactly on the
    /// strings that parse as URIs; everything else is an invalid-URI error.
    pub fn from_shared(s: String) -> (r: Result<Endpoint, Error>)
        ensures
            r is Ok <==> crate::uri::uri_parse(s@) is Some,
            match r {
                Ok(e) => e.wf() && e.uri.text@ == s@ && Some(e.uri.host.deep_view())
                    == crate::uri::uri_parse(s@) && e.has_default_options(),
                Err(err) => err == Error::InvalidUri(s),
            },
    {
        match Uri::parse(s) {
            Ok(uri) => Self::new(uri),
            Err(e) => Err(e),
        }
    }

    /// Configure an endpoint from an owned URI string.
    pub fn from_string(s: String) -> (r: Result<Endpoint, Error>)
        ensures
            r is Ok <==> crate::uri::uri_parse(s@) is Some,
            match r {
                Ok(e) => e.wf() && e.uri.text@ == s@ && e.has_default_options(),
                Err(err) => err == Error::InvalidUri(s),
            },
    {
        Self::from_shared(s)
    }

    /// Configure an endpoint from static URI text.
    pub fn from_static(s: &'static str) -> (r: Result<Endpoint, Error>)
        ensures
            r is Ok <==> crate::uri::uri_parse(s@) is Some,
            match r {
                Ok(e) => e.wf() && e.uri.text@ == s@ && e.has_default_options(),
                Err(err) => (err matches Error::InvalidUri(t) && t@ == s@),
            },
    {
        Self::from_shared(s.to_owned())
    }

    /// Set a custom user-agent header. Accepts exactly the byte sequences a
    /// header value may hold; anything else leaves the endpoint behind and
    /// reports an invalid user agent.
    pub fn user_agent(self, user_agent: Vec<u8>) -> (r: Result<Endpoint, Error>)
        ensures
            r is Ok <==> valid_header_value(user_agent@),
            match r {
                Ok(e) => e == (Endpoint { user_agent: Some(user_agent), ..self }),
                Err(err) => err == Error::InvalidUserAgent,
            },
    {
        if check_header_value(user_agent.as_slice()) {
            Ok(Endpoint { user_agent: Some(user_agent), ..self })
        } else {
            Err(Error::InvalidUserAgent)
        }
    }

    /// Override the origin, for servers reached through a proxy or balancer.
    pub fn origin(self, origin: Uri) -> (e: Endpoint)
        ensures
            e == (Endpoint { origin: Some(origin), ..self }),
    {
        Endpoint { origin: Some(origin), ..self }
    }

    /// Set the domain the server's TLS certificate is verified against. When
    /// none is set, the host of the target URI is used.
    pub fn tls_verify_domain(self, tls_verify_domain: String) -> (e: Endpoint)
        ensures
            e == (Endpoint { tls_verify_domain: Some(tls_verify_domain), ..self }),
    {
        Endpoint { tls_verify_domain: Some(tls_verify_domain), ..self }
    }

    /// Apply a timeout to each request.
    pub fn timeout(self, dur: TimeSpan) -> (e: Endpoint)
        ensures
            e == (Endpoint { timeout: Some(dur), ..self }),
    {
        Endpoint { timeout: Some(dur), ..self }
    }

    /// Apply a timeout to connecting to the target. Default is no timeout.
    pub fn connect_timeout(self, dur: TimeSpan) -> (e: Endpoint)
        ensures
            e == (Endpoint { connect_timeout: Some(dur), ..self }),
    {
        Endpoint { connect_timeout: Some(dur), ..self }
    }

    /// Set the idle time before TCP keepalive probes are sent; `None`
    /// disables keepalive, and is the default.
    pub fn tcp_keepalive(self, tcp_keepalive: Option<TimeSpan>) -> (e: Endpoint)
        ensures
            e == (Endpoint { tcp_keepalive, ..self }),
    {
        Endpoint { tcp_keepalive, ..self }
    }

    /// Apply a concurrency limit to each request.
    pub fn concurrency_limit(self, limit: usize) -> (e: Endpoint)
        ensures
            e == (Endpoint { concurrency_limit: Some(limit), ..self }),
    {
        Endpoint { concurrency_limit: Some(limit), ..self }
    }

    /// Apply a rate limit: at most `limit` requests per window.
    pub fn rate_limit(self, limit: u64, duration: TimeSpan) -> (e: Endpoint)
        ensures
            e == (Endpoint { rate_limit: Some((limit, duration)), ..self }),
    {
        Endpoint { rate_limit: Some((limit, duration)), ..self }
    }

    /// Set the HTTP/2 initial window size for stream-level flow control.
    pub fn initial_stream_window_size(self, sz: Option<u32>) -> (e: Endpoint)
        ensures
            e == (Endpoint { init_stream_window_size: sz, ..self }),
    {
        Endpoint { init_stream_window_size: sz, ..self }
    }

    /// Set the HTTP/2 connection-level flow control window.
    pub fn initial_connection_window_size(self, sz: Option<u32>) -> (e: Endpoint)
        ensures
            e == (Endpoint { init_connection_window_size: sz, ..self }),
    {
        Endpoint { init_connection_window_size: sz, ..self }
    }

    /// Set TCP_NODELAY on the connection. Enabled by default.
    pub fn tcp_nodelay(self, enabled: bool) -> (e: Endpoint)
        ensures
            e == (Endpoint { tcp_nodelay: enabled, ..self }),
    {
        Endpoint { tcp_nodelay: enabled, ..self }
    }

    /// Set the HTTP/2 keep-alive ping interval.
    pub fn http2_keep_alive_interval(self, interval: TimeSpan) -> (e: Endpoint)
        ensures
            e == (Endpoint { http2_keep_alive_interval: Some(interval), ..self }),
    {
        Endpoint { http2_keep_alive_interval: Some(interval), ..self }
    }

    /// Set how long an unanswered HTTP/2 keep-alive ping may stay open.
    pub fn keep_alive_timeout(self, duration: TimeSpan) -> (e: Endpoint)
        ensures
            e == (Endpoint { http2_keep_alive_timeout: Some(duration), ..self }),
    {
        Endpoint { http2_keep_alive_timeout: Some(duration), ..self }
    }

    /// Choose whether HTTP/2 keep-alive pings are sent while idle.
    pub fn keep_alive_while_idle(self, enabled: bool) -> (e: Endpoint)
        ensures
            e == (Endpoint { http2_keep_alive_while_idle: Some(enabled), ..self }),
    {
        Endpoint { http2_keep_alive_while_idle: Some(enabled), ..self }
    }

    /// Choose whether HTTP/2 flow control adapts to measured bandwidth.
    pub fn http2_adaptive_window(self, enabled: bool) -> (e: Endpoint)
        ensures
            e == (Endpoint { http2_adaptive_window: Some(enabled), ..self }),
    {
        Endpoint { http2_adaptive_window: Some(enabled), ..self }
    }

    /// The TLS connector for this endpoint: its verification domain is the
    /// explicit override when one was set, else the host of the target URI;
    /// an endpoint with neither cannot be dialled and is an invalid-URI
    /// error carrying the URI text.
    pub fn tls_connector(&self) -> (r: Result<TlsConnector, Error>)
        ensures
            match r {
                Ok(t) => resolved_tls_domain(*self) == Some(t.domain@),
                Err(e) => resolved_tls_domain(*self) is None && e == Error::InvalidUri(
                    self.uri.text,
                ),
            },
    {
        let domain: String = match &self.tls_verify_domain {
            Some(d) => d.clone(),
            None => match &self.uri.host {
                Some(h) => h.clone(),
                None => {
                    return Err(Error::InvalidUri(self.uri.text.clone()));
                },
            },
        };
        Ok(TlsConnector::new(domain))
    }

    /// Dial and handshake now, and fail fast. The dial and TLS handshake are
    /// asynchronous I/O performed by the shell around this crate; their
    /// outcome is handed in here, and this decides the result: an endpoint
    /// whose TLS domain cannot be resolved is an invalid-URI error before
    /// anything is dialled, a failed dial or handshake fails this one attempt
    /// (there is no implicit retry), and only a completed handshake yields a
    /// channel, its worker owning the connected multiplexer.
    pub fn connect(&self, handshake: Result<(), String>) -> (r: Result<Channel, Error>)
        ensures
            match r {
                Ok(c) => resolved_tls_domain(*self) is Some && handshake is Ok && c.wf()
                    && c.backend == Backend::Single(ConnState::Connected) && c.mailbox.capacity
                    == buffer_size_of(*self) && c.mailbox.queue@.len() == 0,
                Err(e) => {
                    ||| (resolved_tls_domain(*self) is None && e == Error::InvalidUri(
                        self.uri.text,
                    ))
                    ||| (resolved_tls_domain(*self) is Some && (handshake matches Err(m) && e
                        == Error::Other(m)))
                },
            },
    {
        match self.tls_connector() {
            Err(e) => Err(e),
            Ok(_connector) => match handshake {
                Ok(()) => Ok(Channel::with_single(self, ConnState::Connected)),
                Err(m) => Err(Error::from_source(m)),
            },
        }
    }

    /// A channel that defers dialling to its first call. Never performs any
    /// I/O and never blocks: it fails synchronously only when the TLS domain
    /// cannot be resolved, and otherwise always yields a usable handle, whose
    /// worker owns a connection still waiting for its first call.
    pub fn connect_lazy(&self) -> (r: Result<Channel, Error>)
        ensures
            r is Ok <==> resolved_tls_domain(*self) is Some,
            match r {
                Ok(c) => c.wf() && c.backend == Backend::Single(ConnState::Lazy)
                    && c.mailbox.capacity == buffer_size_of(*self) && c.mailbox.queue@.len() == 0,
                Err(e) => e == Error::InvalidUri(self.uri.text),
            },
    {
        match self.tls_connector() {
            Err(e) => Err(e),
            Ok(_connector) => Ok(Channel::with_single(self, ConnState::Lazy)),
        }
    }

    /// The target URI.
    pub fn uri(&self) -> (u: &Uri)
        ensures
            u == self.uri,
    {
        &self.uri
    }
}

} // verus!
