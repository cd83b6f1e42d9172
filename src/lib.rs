//! Packet-routing core of a tun inbound: the decisions that turn packets read
//! from a virtual interface into TCP sessions and NAT-bound UDP datagrams,
//! including the fake-DNS address rewriting in both directions.
//!
//! Everything here is a pure function of plain values. Whatever a collaborator
//! answers (the fake-DNS resolver, the device, the IP stack) is handed in as an
//! argument, so each decision is proved for every possible answer.

pub mod addr;
pub mod bridge;
pub mod config;
pub mod tcp;
pub mod udp;

use vstd::prelude::*;

verus! {

} // verus!
