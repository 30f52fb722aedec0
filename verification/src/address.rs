//! Where a remote node listens.

use vstd::prelude::*;

verus! {

/// An internet socket address. The host part is the address read as a big-endian number.
#[derive(Clone, Copy, Debug, PartialEq, Eq, Structural)]
pub enum SocketAddress {
    V4 { ipv4: u32, port: u16 },
    V6 { ipv6: u128, port: u16, flowinfo: u32, scope_id: u32 },
}

impl SocketAddress {
    /// The address `0.0.0.0:0`, which stands for no address at all.
    pub fn unspecified() -> (r: SocketAddress)
        ensures
            r == (SocketAddress::V4 { ipv4: 0, port: 0 }),
    {
        SocketAddress::V4 { ipv4: 0, port: 0 }
    }
}

} // verus!
