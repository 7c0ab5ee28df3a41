//! Endpoint addresses as plain values.
//!
//! An address is an IPv4 address together with a port, kept as
//! integers so that contracts can speak about it directly. The
//! loopback channel backend binds to a synthetic local address.

use vstd::prelude::*;

verus! {

/// A packet endpoint address: an IPv4 address (as its 32-bit value)
/// and a port.
#[derive(Clone, Copy, PartialEq, Eq, Structural, Debug, Hash)]
pub struct Addr {
    pub ip: u32,
    pub port: u16,
}

/// The 32-bit value of 127.0.0.1.
pub const LOCALHOST_IP: u32 = 0x7F00_0001;

impl Addr {
    /// The local loopback address for a given port.
    pub fn localhost(port: u16) -> (r: Addr)
        ensures
            r.ip == LOCALHOST_IP,
            r.port == port,
    {
        Addr { ip: LOCALHOST_IP, port }
    }

    /// The synthetic address an in-process channel is bound to.
    pub fn local_channel() -> (r: Addr)
        ensures
            r.ip == LOCALHOST_IP,
            r.port == 0,
    {
        Addr { ip: LOCALHOST_IP, port: 0 }
    }
}

} // verus!
