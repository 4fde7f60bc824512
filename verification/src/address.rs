//! Identifiers that pass through the pool: worker addresses and peer
//! addresses. Both are plain values that compare field by field.
use vstd::prelude::*;

verus! {

/// An account address: the 32 bytes of the address, held as four
/// little-endian words.
#[derive(Clone, Copy, Debug, PartialEq, Eq, Hash, Structural)]
pub struct Address {
    pub w0: u64,
    pub w1: u64,
    pub w2: u64,
    pub w3: u64,
}

/// The address of a worker, by which the pool knows it.
pub type WorkerAddress = Address;

/// Socket address of a peer: the IP address in its 128-bit form (an IPv4
/// address in its IPv6-mapped form) and the port.
#[derive(Clone, Copy, Debug, PartialEq, Eq, Hash, Structural)]
pub struct PeerAddr {
    pub ip: u128,
    pub port: u16,
}

} // verus!
