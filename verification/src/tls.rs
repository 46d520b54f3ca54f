//! TLS-side values and decisions. The handshake itself is asynchronous I/O
//! and lives outside this crate; what lives here is the data the handshake
//! works with (certificates, the verification domain) and the decision taken
//! right after it: a client connection is usable only if the peer negotiated
//! HTTP/2. The server side carries no such check, deliberately: an acceptor
//! chooses the protocol itself during the handshake, so only clients verify
//! what was chosen.

use vstd::prelude::*;
use crate::Error;

verus! {

/// An X509 certificate, kept as its encoded bytes. Two certificates are the
/// same exactly when their encoded bytes are.
#[derive(Debug, Clone, PartialEq, Eq)]
pub enum Certificate {
    Pem(Vec<u8>),
    Der(Vec<u8>),
}

impl Certificate {
    /// A PEM encoded X509 certificate.
    pub fn from_pem(pem: Vec<u8>) -> (c: Certificate)
        ensures
            c == Certificate::Pem(pem),
    {
        Certificate::Pem(pem)
    }

    /// A DER encoded X509 certificate.
    pub fn from_der(der: Vec<u8>) -> (c: Certificate)
        ensures
            c == Certificate::Der(der),
    {
        Certificate::Der(der)
    }
}

/// The ALPN identifier of HTTP/2: the two bytes `h2`.
pub open spec fn is_h2_alpn(p: Seq<u8>) -> bool {
    p == seq![104u8, 50u8]
}

/// The client side of the TLS handshake, reduced to the value this crate's
/// logic reads: the domain the server's certificate is verified against. The
/// handshake context itself stays with the asynchronous shell that dials.
#[derive(Debug, Clone, PartialEq, Eq)]
pub struct TlsConnector {
    pub domain: String,
}

impl TlsConnector {
    pub fn new(domain: String) -> (c: TlsConnector)
        ensures
            c.domain == domain,
    {
        TlsConnector { domain }
    }

    /// The decision taken after a client handshake completes: the stream is
    /// handed onward only if the peer negotiated exactly HTTP/2; any other
    /// outcome discards the session, indistinguishable from a handshake
    /// failure to the caller.
    pub fn finish_connect<IO>(&self, io: IO, negotiated: Option<Vec<u8>>) -> (r: Result<IO, Error>)
        ensures
            match r {
                Ok(out) => out == io && (negotiated matches Some(p) && is_h2_alpn(p@)),
                Err(e) => e == Error::H2NotNegotiated && !(negotiated matches Some(p)
                    && is_h2_alpn(p@)),
            },
    {
        match negotiated {
            Some(p) => {
                if p.len() == 2 && p[0] == 104u8 && p[1] == 50u8 {
                    proof {
                        assert(p@ =~= seq![104u8, 50u8]);
                    }
                    Ok(io)
                } else {
                    Err(Error::H2NotNegotiated)
                }
            },
            None => Err(Error::H2NotNegotiated),
        }
    }
}

} // verus!
