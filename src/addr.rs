//! Addresses as they flow through sessions and datagrams.

use vstd::prelude::*;

verus! {

/// An IP address: a version 4 address as its 32-bit value, a version 6 one as
/// its 128-bit value (both in network order of their octets, most significant
/// first).
#[derive(Clone, Copy, Debug, PartialEq, Eq, Structural)]
pub enum IpAddress {
    V4(u32),
    V6(u128),
}

/// An IP address together with a port.
#[derive(Clone, Copy, Debug, PartialEq, Eq, Structural)]
pub struct SocketAddress {
    pub ip: IpAddress,
    pub port: u16,
}

/// The destination of a session or a datagram: a literal socket address, or a
/// domain name with a port, left for the outbound side to resolve.
#[derive(Clone, Debug, PartialEq, Eq)]
pub enum SocksAddr {
    Ip(SocketAddress),
    Domain(String, u16),
}

impl SocketAddress {
    pub fn new(ip: IpAddress, port: u16) -> (r: SocketAddress)
        ensures
            r.ip == ip,
            r.port == port,
    {
        SocketAddress { ip, port }
    }
}

impl SocksAddr {
    /// The domain name, where the address is one.
    pub fn domain(&self) -> (r: Option<&String>)
        ensures
            self is Domain ==> r == Some(&self->Domain_0),
            self is Ip ==> r is None,
    {
        match self {
            SocksAddr::Ip(_) => None,
            SocksAddr::Domain(d, _) => Some(d),
        }
    }
}

/// What the fake-DNS resolver knows of an IP address.
#[derive(Clone, Debug, PartialEq, Eq)]
pub enum FakeIpLookup {
    /// The address is not one the resolver hands out.
    NotFake,
    /// The address is a fake IP, paired to this domain.
    Paired(String),
    /// The address is in the fake range, yet no domain is paired to it.
    Unpaired,
}

} // verus!
