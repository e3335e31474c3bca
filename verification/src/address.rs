//! Socket addresses as plain values.

use vstd::prelude::*;

verus! {

/// The IP part of a socket address.
#[derive(Clone, Copy, Debug, PartialEq, Eq, Hash)]
pub enum Ip {
    /// An IPv4 address as its 32 bits, first octet highest: `127.0.0.1` is `0x7f00_0001`.
    V4(u32),
    /// An IPv6 address as its 128 bits, first segment highest, with the flow
    /// information and scope identifier that travel with it in a socket address.
    V6 { bits: u128, flowinfo: u32, scope_id: u32 },
}

/// An IP address and a port: where to listen, or where to connect.
#[derive(Clone, Copy, Debug, PartialEq, Eq, Hash)]
pub struct Address {
    pub ip: Ip,
    pub port: u16,
}

} // verus!
