//! Remote endpoints as plain values.
use vstd::prelude::*;

verus! {

/// The address of a connected peer: an IP address and a port.
#[derive(Clone, Copy, Debug, PartialEq, Eq)]
pub enum SocketAddress {
    /// An IPv4 endpoint: four octets, most significant first.
    V4 { octets: [u8; 4], port: u16 },
    /// An IPv6 endpoint: eight 16-bit segments, most significant first.
    V6 { segments: [u16; 8], port: u16, flowinfo: u32, scope_id: u32 },
}

} // verus!
