use vstd::prelude::*;

verus! {

/// The UDP port on which LIFX devices listen and reply.
pub const PORT: u16 = 56700;

/// An IP address held as plain integers, most significant byte first.
#[derive(Clone, Copy, Debug, PartialEq, Eq, Structural)]
pub enum IpAddress {
    V4(u32),
    V6(u128),
}

/// A network endpoint: the address a datagram came from or goes to.
#[derive(Clone, Copy, Debug, PartialEq, Eq, Structural)]
pub struct Endpoint {
    pub ip: IpAddress,
    pub port: u16,
}

/// The IPv4 limited-broadcast address, 255.255.255.255.
pub const BROADCAST_V4: u32 = 0xFFFF_FFFF;

/// Where discovery requests are sent: the limited-broadcast address on the
/// protocol port.
pub fn broadcast_endpoint() -> (r: Endpoint)
    ensures
        r.ip == IpAddress::V4(BROADCAST_V4),
        r.port == PORT,
{
    Endpoint { ip: IpAddress::V4(BROADCAST_V4), port: PORT }
}

} // verus!
