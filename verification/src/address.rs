//! Addresses and endpoints as the system resolver reports them.

use vstd::prelude::*;

verus! {

/// An IP address of either family, as its bytes in network order.
#[derive(Clone, Copy, Debug, PartialEq, Eq, Hash)]
pub enum IpAddress {
    /// The four octets of an IPv4 address.
    V4([u8; 4]),
    /// The sixteen octets of an IPv6 address.
    V6([u8; 16]),
}

/// A socket endpoint: an address together with a port.
#[derive(Clone, Copy, Debug, PartialEq, Eq, Hash)]
pub struct Endpoint {
    pub address: IpAddress,
    pub port: u16,
}

} // verus!
