//! TCP: the session built for each connection the IP stack accepts.

use vstd::prelude::*;
use crate::addr::{FakeIpLookup, SocketAddress, SocksAddr};

verus! {

/// The one port on which a connection to an unpaired fake IP is still
/// dispatched: the dispatcher may recover the domain from the TLS handshake.
pub const TLS_PORT: u16 = 443;

#[derive(Clone, Copy, Debug, PartialEq, Eq, Structural)]
pub enum Network {
    Tcp,
    Udp,
}

/// What the dispatcher is told of a connection.
#[derive(Clone, Debug, PartialEq, Eq)]
pub struct Session {
    pub network: Network,
    /// The connection's endpoint on the stack's side.
    pub source: SocketAddress,
    /// The endpoint the client addressed.
    pub local_addr: SocketAddress,
    pub destination: SocksAddr,
    pub inbound_tag: String,
}

/// The destination of a connection to `remote`: a fake IP paired to a domain
/// becomes that domain on the same port; an unpaired fake IP is kept only on
/// the TLS port, and otherwise the connection is dropped; any other address
/// stays as it is.
pub open spec fn tcp_destination_spec(remote: SocketAddress, lookup: FakeIpLookup) -> Option<SocksAddr> {
    match lookup {
        FakeIpLookup::NotFake => Some(SocksAddr::Ip(remote)),
        FakeIpLookup::Paired(d) => Some(SocksAddr::Domain(d, remote.port)),
        FakeIpLookup::Unpaired => if remote.port == TLS_PORT {
            Some(SocksAddr::Ip(remote))
        } else {
            None
        },
    }
}

/// Builds the session for a connection the stack accepted, whose endpoint on
/// the stack's side is `local` and whose addressed endpoint is `remote`;
/// `lookup` is what the resolver knows of `remote.ip`. `None` means the
/// connection is dropped without reaching the dispatcher.
pub fn tcp_session(
    local: SocketAddress,
    remote: SocketAddress,
    lookup: FakeIpLookup,
    inbound_tag: String,
) -> (r: Option<Session>)
    ensures
        r == (match tcp_destination_spec(remote, lookup) {
            Some(d) => Some(
                Session {
                    network: Network::Tcp,
                    source: local,
                    local_addr: remote,
                    destination: d,
                    inbound_tag,
                },
            ),
            None => None::<Session>,
        }),
        r is None <==> (lookup is Unpaired && remote.port != TLS_PORT),
{
    let destination = match lookup {
        FakeIpLookup::NotFake => SocksAddr::Ip(remote),
        FakeIpLookup::Paired(d) => SocksAddr::Domain(d, remote.port),
        FakeIpLookup::Unpaired => {
            if remote.port != TLS_PORT {
                return None;
            }
            SocksAddr::Ip(remote)
        },
    };
    Some(Session { network: Network::Tcp, source: local, local_addr: remote, destination, inbound_tag })
}

} // verus!
