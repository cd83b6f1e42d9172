//! The two forwarding directions between the device and the IP stack: each
//! takes what one side yields and hands packets to the other, in order.

use vstd::prelude::*;

verus! {

/// What one read from a packet source yielded.
#[derive(Clone, Debug, PartialEq, Eq)]
pub enum PacketRead {
    /// A packet.
    Packet(Vec<u8>),
    /// A read that failed to produce a packet; the source goes on.
    Malformed,
    /// The source has ended.
    Closed,
}

/// What the forwarding task does next.
#[derive(Clone, Debug, PartialEq, Eq)]
pub enum BridgeAction {
    /// Hand this packet to the other side.
    Deliver(Vec<u8>),
    /// Drop what was read and read again.
    Skip,
    /// Stop forwarding.
    Stop,
}

pub open spec fn bridge_step_spec(read: PacketRead) -> BridgeAction {
    match read {
        PacketRead::Packet(p) => BridgeAction::Deliver(p),
        PacketRead::Malformed => BridgeAction::Skip,
        PacketRead::Closed => BridgeAction::Stop,
    }
}

/// Decides what to do with one read: a packet is delivered unchanged, a
/// malformed read is dropped, an ended source stops the task.
pub fn bridge_step(read: PacketRead) -> (r: BridgeAction)
    ensures
        r == bridge_step_spec(read),
{
    match read {
        PacketRead::Packet(p) => BridgeAction::Deliver(p),
        PacketRead::Malformed => BridgeAction::Skip,
        PacketRead::Closed => BridgeAction::Stop,
    }
}

/// The packets the other side receives when a forwarding task meets `reads`
/// in this order, acting on each as `bridge_step` decides.
pub open spec fn delivered(reads: Seq<PacketRead>) -> Seq<Vec<u8>>
    decreases reads.len(),
{
    if reads.len() == 0 {
        Seq::empty()
    } else {
        match bridge_step_spec(reads[0]) {
            BridgeAction::Deliver(p) => seq![p].add(delivered(reads.drop_first())),
            BridgeAction::Skip => delivered(reads.drop_first()),
            BridgeAction::Stop => Seq::empty(),
        }
    }
}

/// Order is kept: packets read one after another from an open source reach
/// the other side all, unchanged, and in the order they were read.
pub proof fn lemma_order_preserved(packets: Seq<Vec<u8>>)
    ensures
        delivered(packets.map_values(|p: Vec<u8>| PacketRead::Packet(p))) == packets,
    decreases packets.len(),
{
    let reads = packets.map_values(|p: Vec<u8>| PacketRead::Packet(p));
    if packets.len() > 0 {
        lemma_order_preserved(packets.drop_first());
        assert(reads.drop_first() == packets.drop_first().map_values(|p: Vec<u8>| PacketRead::Packet(p)));
        assert(seq![packets[0]].add(packets.drop_first()) == packets);
    } else {
        assert(delivered(reads) == packets);
    }
}

} // verus!
