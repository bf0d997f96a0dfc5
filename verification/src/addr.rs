//! Socket addresses as plain values.

use vstd::prelude::*;

verus! {

/// An IPv4 or IPv6 socket address.
///
/// The addresses are held as the integers that their octets spell in
/// network order: `127.0.0.1` is `0x7f00_0001`, and `::1` is `1`. Two
/// addresses are equal when every field is.
#[allow(inconsistent_fields)]
#[derive(Clone, Copy, Debug, PartialEq, Eq, Hash, Structural)]
pub enum SocketAddress {
    V4 { ip: u32, port: u16 },
    V6 { ip: u128, port: u16, flowinfo: u32, scope_id: u32 },
}

impl SocketAddress {
    /// An IPv4 socket address.
    pub fn v4(ip: u32, port: u16) -> (addr: Self)
        ensures
            addr == (SocketAddress::V4 { ip, port }),
    {
        SocketAddress::V4 { ip, port }
    }

    /// An IPv6 socket address without flow information or scope.
    pub fn v6(ip: u128, port: u16) -> (addr: Self)
        ensures
            addr == (SocketAddress::V6 { ip, port, flowinfo: 0, scope_id: 0 }),
    {
        SocketAddress::V6 { ip, port, flowinfo: 0, scope_id: 0 }
    }

    /// Whether this is an IPv4 address.
    pub open spec fn spec_is_ipv4(&self) -> bool {
        self is V4
    }

    /// Whether this is an IPv6 address.
    pub open spec fn spec_is_ipv6(&self) -> bool {
        self is V6
    }

    /// The port of this address.
    pub open spec fn spec_port(&self) -> u16 {
        match self {
            SocketAddress::V4 { port, .. } => *port,
            SocketAddress::V6 { port, .. } => *port,
        }
    }

    #[verifier::when_used_as_spec(spec_is_ipv4)]
    pub fn is_ipv4(&self) -> (yes: bool)
        ensures
            yes == (self is V4),
    {
        match self {
            SocketAddress::V4 { .. } => true,
            SocketAddress::V6 { .. } => false,
        }
    }

    #[verifier::when_used_as_spec(spec_is_ipv6)]
    pub fn is_ipv6(&self) -> (yes: bool)
        ensures
            yes == (self is V6),
    {
        match self {
            SocketAddress::V4 { .. } => false,
            SocketAddress::V6 { .. } => true,
        }
    }

    #[verifier::when_used_as_spec(spec_port)]
    pub fn port(&self) -> (port: u16)
        ensures
            port == self.spec_port(),
    {
        match self {
            SocketAddress::V4 { port, .. } => *port,
            SocketAddress::V6 { port, .. } => *port,
        }
    }
}

} // verus!
