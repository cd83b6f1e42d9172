//! UDP: what becomes of each datagram the IP stack emits (uplink), and of each
//! datagram the NAT manager hands back for the device (downlink).

use vstd::prelude::*;
use crate::addr::{FakeIpLookup, IpAddress, SocketAddress, SocksAddr};

verus! {

/// The port that marks a datagram as a DNS query.
pub const DNS_PORT: u16 = 53;

/// Identifies a UDP flow for the NAT manager; stable for all datagrams of one
/// client socket.
#[derive(Clone, Copy, Debug, PartialEq, Eq, Structural)]
pub struct DatagramSource {
    pub address: SocketAddress,
    pub stream_id: Option<u64>,
}

/// A datagram exchanged with the NAT manager.
///
/// Uplink, `src_addr` is the requester and `dst_addr` the logical destination.
/// Downlink, `src_addr` is the remote peer the reply comes from and `dst_addr`
/// the requester it goes back to.
#[derive(Clone, Debug, PartialEq, Eq)]
pub struct UdpPacket {
    pub data: Vec<u8>,
    pub src_addr: SocksAddr,
    pub dst_addr: SocksAddr,
}

/// A datagram to be injected into the IP stack, from `src` to `dst`.
#[derive(Clone, Debug, PartialEq, Eq)]
pub struct UdpInjection {
    pub src: SocketAddress,
    pub dst: SocketAddress,
    pub data: Vec<u8>,
}

/// What to do with a datagram the stack emitted.
#[derive(Clone, Debug, PartialEq, Eq)]
pub enum UplinkAction {
    /// Answer the requester directly through the stack.
    Reply(UdpInjection),
    /// Hand the datagram to the NAT manager as a member of this flow.
    Forward(DatagramSource, UdpPacket),
    /// Drop the datagram.
    Drop,
}

impl DatagramSource {
    pub fn new(address: SocketAddress, stream_id: Option<u64>) -> (r: DatagramSource)
        ensures
            r.address == address,
            r.stream_id == stream_id,
    {
        DatagramSource { address, stream_id }
    }
}

impl UdpPacket {
    pub fn new(data: Vec<u8>, src_addr: SocksAddr, dst_addr: SocksAddr) -> (r: UdpPacket)
        ensures
            r.data == data,
            r.src_addr == src_addr,
            r.dst_addr == dst_addr,
    {
        UdpPacket { data, src_addr, dst_addr }
    }
}

/// Whether a datagram sent to `dst` is a DNS query.
pub fn is_dns_query(dst: &SocketAddress) -> (r: bool)
    ensures
        r == (dst.port == DNS_PORT),
{
    dst.port == DNS_PORT
}

/// The logical destination of an uplink datagram sent to `dst`: a fake IP is
/// replaced by its paired domain, a fake IP without one has none (the datagram
/// is dropped), any other address stays as it is.
pub open spec fn uplink_destination_spec(dst: SocketAddress, lookup: FakeIpLookup) -> Option<SocksAddr> {
    match lookup {
        FakeIpLookup::NotFake => Some(SocksAddr::Ip(dst)),
        FakeIpLookup::Paired(d) => Some(SocksAddr::Domain(d, dst.port)),
        FakeIpLookup::Unpaired => None,
    }
}

/// See `uplink_destination_spec`; `lookup` is what the resolver knows of `dst.ip`.
pub fn uplink_destination(dst: SocketAddress, lookup: FakeIpLookup) -> (r: Option<SocksAddr>)
    ensures
        r == uplink_destination_spec(dst, lookup),
{
    match lookup {
        FakeIpLookup::NotFake => Some(SocksAddr::Ip(dst)),
        FakeIpLookup::Paired(d) => Some(SocksAddr::Domain(d, dst.port)),
        FakeIpLookup::Unpaired => None,
    }
}

/// Whether a datagram sent to `dst` is a DNS query the resolver answered.
pub open spec fn answered(dst: SocketAddress, dns_reply: Option<Vec<u8>>) -> bool {
    dst.port == DNS_PORT && dns_reply is Some
}

/// The fate of a datagram `data` sent by `src` to `dst`, given the reply the
/// resolver synthesized for it (`None` where it could not, or was not asked)
/// and what the resolver knows of `dst.ip`.
pub open spec fn uplink_action_spec(
    data: Vec<u8>,
    src: SocketAddress,
    dst: SocketAddress,
    dns_reply: Option<Vec<u8>>,
    lookup: FakeIpLookup,
) -> UplinkAction {
    if answered(dst, dns_reply) {
        UplinkAction::Reply(UdpInjection { src: dst, dst: src, data: dns_reply->0 })
    } else {
        match uplink_destination_spec(dst, lookup) {
            Some(d) => UplinkAction::Forward(
                DatagramSource { address: src, stream_id: None },
                UdpPacket { data, src_addr: SocksAddr::Ip(src), dst_addr: d },
            ),
            None => UplinkAction::Drop,
        }
    }
}

/// Decides what becomes of a datagram the stack emitted.
///
/// A DNS query the resolver answered goes straight back to its sender, from
/// the address it was sent to, and never reaches the NAT manager. Any other
/// datagram goes to the NAT manager as a flow keyed by its real source, with
/// its destination rewritten as `uplink_destination` says, or is dropped.
pub fn decide_uplink(
    data: Vec<u8>,
    src: SocketAddress,
    dst: SocketAddress,
    dns_reply: Option<Vec<u8>>,
    lookup: FakeIpLookup,
) -> (r: UplinkAction)
    ensures
        r == uplink_action_spec(data, src, dst, dns_reply, lookup),
        answered(dst, dns_reply) ==> r == UplinkAction::Reply(
            (UdpInjection { src: dst, dst: src, data: dns_reply->0 }),
        ),
        !answered(dst, dns_reply) && lookup is NotFake ==> r is Forward
            && r->Forward_1.dst_addr == SocksAddr::Ip(dst),
        !answered(dst, dns_reply) && lookup is Paired ==> r is Forward
            && r->Forward_1.dst_addr == SocksAddr::Domain(lookup->Paired_0, dst.port),
        !answered(dst, dns_reply) && lookup is Unpaired ==> r is Drop,
        r is Forward ==> r->Forward_0 == (DatagramSource { address: src, stream_id: None }),
        r is Forward ==> r->Forward_1.src_addr == SocksAddr::Ip(src) && r->Forward_1.data == data,
{
    if is_dns_query(&dst) {
        if let Some(reply) = dns_reply {
            return UplinkAction::Reply(UdpInjection { src: dst, dst: src, data: reply });
        }
    }
    match uplink_destination(dst, lookup) {
        Some(d) => {
            let dgram_src = DatagramSource::new(src, None);
            let pkt = UdpPacket::new(data, SocksAddr::Ip(dgram_src.address), d);
            UplinkAction::Forward(dgram_src, pkt)
        },
        None => UplinkAction::Drop,
    }
}

/// The concrete address a downlink datagram is injected from: a literal
/// address as it is, a domain as its fake IP on the same port, a domain
/// without one as nothing (the datagram is dropped).
pub open spec fn downlink_source_spec(peer: SocksAddr, fake_ip: Option<IpAddress>) -> Option<SocketAddress> {
    match peer {
        SocksAddr::Ip(a) => Some(a),
        SocksAddr::Domain(_, port) => match fake_ip {
            Some(ip) => Some(SocketAddress { ip, port }),
            None => None,
        },
    }
}

/// See `downlink_source_spec`; `fake_ip` is the fake IP the resolver holds for
/// the domain of `peer`, where it is one.
pub fn downlink_source(peer: SocksAddr, fake_ip: Option<IpAddress>) -> (r: Option<SocketAddress>)
    ensures
        r == downlink_source_spec(peer, fake_ip),
{
    match peer {
        SocksAddr::Ip(a) => Some(a),
        SocksAddr::Domain(_, port) => match fake_ip {
            Some(ip) => Some(SocketAddress::new(ip, port)),
            None => None,
        },
    }
}

/// Decides what becomes of a datagram the NAT manager handed back: it is
/// injected into the stack from its peer's concrete address to the requester,
/// or dropped where the peer is a domain without a fake IP.
pub fn decide_downlink(pkt: UdpPacket, fake_ip: Option<IpAddress>) -> (r: Option<UdpInjection>)
    requires
        pkt.dst_addr is Ip,
    ensures
        r == (match downlink_source_spec(pkt.src_addr, fake_ip) {
            Some(s) => Some(UdpInjection { src: s, dst: pkt.dst_addr->Ip_0, data: pkt.data }),
            None => None::<UdpInjection>,
        }),
        pkt.src_addr is Domain && fake_ip is Some ==> r is Some
            && r->0.src.ip == fake_ip->0 && r->0.src.port == pkt.src_addr->Domain_1,
        pkt.src_addr is Domain && fake_ip is None ==> r is None,
        pkt.src_addr is Ip ==> r is Some && r->0.src == pkt.src_addr->Ip_0,
        r is Some ==> r->0.dst == pkt.dst_addr->Ip_0 && r->0.data == pkt.data,
{
    let UdpPacket { data, src_addr, dst_addr } = pkt;
    let dst = match dst_addr {
        SocksAddr::Ip(a) => a,
        SocksAddr::Domain(_, _) => {
            proof {
                assert(false);
            }
            return None;
        },
    };
    match downlink_source(src_addr, fake_ip) {
        Some(src) => Some(UdpInjection { src, dst, data }),
        None => None,
    }
}

} // verus!
