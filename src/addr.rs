use vstd::prelude::*;

verus! {

/// A numeric socket address, as the server compares and dials it.
///
/// Two addresses are equal exactly when all of their fields are equal.
#[derive(Clone, Copy, Debug, PartialEq, Eq, Structural)]
pub enum SockAddr {
    /// IPv4 address in network order packed into a `u32`, and a port.
    V4 { ip: u32, port: u16 },
    /// IPv6 address packed into a `u128` (`ip6`), a port, the flow label and the scope.
    V6 { ip6: u128, port: u16, flowinfo: u32, scope_id: u32 },
}

impl SockAddr {
    pub open spec fn port_spec(self) -> u16 {
        match self {
            SockAddr::V4 { port, .. } => port,
            SockAddr::V6 { port, .. } => port,
        }
    }

    /// The port of the address.
    pub fn port(&self) -> (r: u16)
        ensures
            r == self.port_spec(),
    {
        match self {
            SockAddr::V4 { port, .. } => *port,
            SockAddr::V6 { port, .. } => *port,
        }
    }
}

} // verus!
