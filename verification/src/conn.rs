//! Connection metadata. A connected stream describes itself through the
//! [`Connected`] trait; the plain TCP description is a peer address, and a
//! TLS stream wraps its transport's description together with the peer's
//! leaf certificate, shared read-only among whoever asks for it.

use vstd::prelude::*;
use std::sync::Arc;
use crate::Error;
use crate::tls::Certificate;

verus! {

/// An IP address as plain values: the four bytes of a version-4 address or
/// the eight segments of a version-6 one.
#[derive(Debug, Clone, Copy, PartialEq, Eq, Hash, Structural)]
pub enum IpAddress {
    V4(u8, u8, u8, u8),
    V6(u16, u16, u16, u16, u16, u16, u16, u16),
}

/// A socket address: an IP address and a port.
#[derive(Debug, Clone, Copy, PartialEq, Eq, Hash, Structural)]
pub struct SocketAddress {
    pub ip: IpAddress,
    pub port: u16,
}

/// Connected IO resources implement this to describe the connection they
/// carry; custom transports provide their own metadata type.
pub trait Connected {
    /// The metadata this resource produces.
    type ConnectInfo;

    /// Describe the connection.
    fn connect_info(&self) -> Result<Self::ConnectInfo, Error>;
}

/// Connection metadata of a plain TCP stream.
#[derive(Debug, Clone, Copy, PartialEq, Eq, Structural)]
pub struct TcpConnectInfo {
    pub remote_addr: Option<SocketAddress>,
}

impl TcpConnectInfo {
    pub fn new(remote_addr: Option<SocketAddress>) -> (info: TcpConnectInfo)
        ensures
            info.remote_addr == remote_addr,
    {
        TcpConnectInfo { remote_addr }
    }

    /// The remote address the IO resource is connected to.
    pub fn remote_addr(&self) -> (addr: Option<SocketAddress>)
        ensures
            addr == self.remote_addr,
    {
        self.remote_addr
    }
}

/// Relies on `std::sync::Arc::clone`: the clone is another handle to the
/// same certificate.
#[verifier::external_body]
fn clone_cert_handle(cert: &Arc<Certificate>) -> (r: Arc<Certificate>)
    ensures
        r == *cert,
{
    Arc::clone(cert)
}

/// Connection metadata of a TLS stream: the wrapped transport's own metadata
/// plus the peer's leaf certificate, when the peer presented one. Built once
/// per accepted stream, read-only thereafter.
#[derive(Debug, Clone)]
pub struct TlsConnectInfo<T> {
    inner: T,
    cert: Option<Arc<Certificate>>,
}

impl<T> TlsConnectInfo<T> {
    /// The wrapped transport's connection metadata.
    pub closed spec fn spec_inner(&self) -> T {
        self.inner
    }

    /// The peer certificate this metadata carries.
    pub closed spec fn spec_cert(&self) -> Option<Arc<Certificate>> {
        self.cert
    }

    pub fn new(inner: T, cert: Option<Arc<Certificate>>) -> (info: TlsConnectInfo<T>)
        ensures
            info.spec_inner() == inner,
            info.spec_cert() == cert,
    {
        TlsConnectInfo { inner, cert }
    }

    /// The underlying transport's connection metadata.
    pub fn get_ref(&self) -> (r: &T)
        ensures
            r == self.spec_inner(),
    {
        &self.inner
    }

    /// The underlying transport's connection metadata, mutably.
    pub fn get_mut(&mut self) -> (r: &mut T)
        ensures
            *r == old(self).spec_inner(),
            final(self).spec_inner() == *final(r),
            final(self).spec_cert() == old(self).spec_cert(),
    {
        &mut self.inner
    }

    /// The peer's leaf TLS certificate, when one was presented.
    pub fn peer_cert(&self) -> (r: Option<Arc<Certificate>>)
        ensures
            r == self.spec_cert(),
    {
        match &self.cert {
            Some(cert) => Some(clone_cert_handle(cert)),
            None => None,
        }
    }
}

} // verus!
