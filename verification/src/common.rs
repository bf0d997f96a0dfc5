//! Sizes shared by every datagram path.

use vstd::prelude::*;

verus! {

/// The largest length that the length field of a UDP datagram can hold. No
/// datagram is longer, so a buffer of this size takes any datagram whole.
pub const MAX_DATAGRAM_SIZE: usize = 65535;

/// The largest payload of a UDP datagram over IPv4: what is left of
/// `MAX_DATAGRAM_SIZE` once the IP header of 20 bytes and the UDP header of 8
/// bytes are taken off.
pub const MAX_UDP_PAYLOAD: usize = 65507;

/// A zeroed buffer that holds any datagram a socket can hand over.
pub fn datagram_buffer() -> (buf: Box<[u8; MAX_DATAGRAM_SIZE]>)
    ensures
        buf@.len() == MAX_DATAGRAM_SIZE,
        forall|i: int| 0 <= i < buf@.len() ==> buf@[i] == 0u8,
{
    Box::new([0u8; MAX_DATAGRAM_SIZE])
}

} // verus!
