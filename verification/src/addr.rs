//! Addresses of the two ends of a call, as plain values.

use vstd::prelude::*;

verus! {

/// UDP port on which both ends send and receive audio.
pub const AUDIO_PORT: u16 = 40000;

/// An IP address by its bits: 32 for version 4, 128 for version 6. Two
/// addresses are equal when they are of the same version and have the same
/// bits.
#[derive(Clone, Copy, Debug, PartialEq, Eq, Structural)]
pub enum IpAddress {
    V4(u32),
    V6(u128),
}

/// An IP address and a UDP port.
#[derive(Clone, Copy, Debug, PartialEq, Eq, Structural)]
pub struct PeerAddr {
    pub ip: IpAddress,
    pub port: u16,
}

impl PeerAddr {
    /// The audio endpoint of the host at `ip`.
    pub fn audio(ip: IpAddress) -> (addr: PeerAddr)
        ensures
            addr == (PeerAddr { ip, port: AUDIO_PORT }),
    {
        PeerAddr { ip, port: AUDIO_PORT }
    }
}

} // verus!
