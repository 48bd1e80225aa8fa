//! The address of a candidate peer.

use vstd::prelude::*;

verus! {

/// An IP address and port pair identifying one candidate peer.
///
/// The IP address is kept in the 16-byte IPv6 form that the wire format
/// uses (an IPv4 address is carried as an IPv4-mapped IPv6 address), held
/// here as two 64-bit halves in network order: `ip_hi` holds the first
/// eight bytes, `ip_lo` the last eight, each read big-endian.
///
/// Equality is the natural address-and-port comparison; the handshake
/// ledger is keyed by values of this type.
#[derive(Clone, Copy, Debug, PartialEq, Eq, Structural)]
pub struct PeerAddr {
    pub ip_hi: u64,
    pub ip_lo: u64,
    pub port: u16,
}

} // verus!
