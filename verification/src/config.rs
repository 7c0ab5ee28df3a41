//! Configuration of the netcode protocol and of packet pacing.
//!
//! All timing is stated in whole milliseconds, so that every contract
//! is a plain timestamp comparison: the keepalive send rate appears
//! as its reciprocal, the interval between keepalives.

use vstd::prelude::*;
use crate::addr::Addr;
use crate::addr::LOCALHOST_IP;
use crate::io::IoConfig;
use crate::io::TransportConfig;

verus! {

/// The most missed intervals a configuration may ask for.
pub const MAX_DISCONNECT_PACKETS: u64 = 1_000_000;

/// The longest keepalive interval a configuration may ask for, in ms.
pub const MAX_KEEPALIVE_INTERVAL_MS: u64 = 1_000_000_000;

/// Config of the netcode protocol (the abstraction of a connection
/// over a raw UDP-like transport): how often keepalives go out when
/// no application traffic flows, and how many consecutive keepalive
/// intervals without any received packet declare the peer lost.
#[derive(Clone, Copy, PartialEq, Eq, Structural, Debug)]
pub struct NetcodeConfig {
    /// Consecutive keepalive intervals with no received packet before
    /// the connection is declared disconnected. A value of 1 makes
    /// the connection maximally sensitive to a single dropped
    /// keepalive; choose it deliberately.
    pub num_disconnect_packets: u64,
    /// Interval between keepalives when idle, in ms: the reciprocal
    /// of the keepalive packet send rate.
    pub keepalive_send_interval_ms: u64,
}

impl NetcodeConfig {
    /// The bounds the liveness arithmetic relies on.
    pub open spec fn wf(&self) -> bool {
        &&& 1 <= self.num_disconnect_packets <= MAX_DISCONNECT_PACKETS
        &&& 1 <= self.keepalive_send_interval_ms <= MAX_KEEPALIVE_INTERVAL_MS
    }
}

impl Default for NetcodeConfig {
    /// Ten missed keepalives, one keepalive every ten seconds (a send
    /// rate of a tenth of a packet per second).
    fn default() -> (r: Self)
        ensures
            r.num_disconnect_packets == 10,
            r.keepalive_send_interval_ms == 10_000,
            r.wf(),
    {
        NetcodeConfig { num_disconnect_packets: 10, keepalive_send_interval_ms: 10_000 }
    }
}

/// Pacing of outbound application packet flushes.
#[derive(Clone, Copy, PartialEq, Eq, Structural, Debug)]
pub struct PacketConfig {
    /// Minimum spacing between outbound packet flushes for one peer,
    /// in ms (never faster than once per driving tick).
    pub packet_send_interval_ms: u64,
}

impl Default for PacketConfig {
    /// Flush at most once every 100 ms.
    fn default() -> (r: Self)
        ensures
            r.packet_send_interval_ms == 100,
    {
        PacketConfig { packet_send_interval_ms: 100 }
    }
}

impl PacketConfig {
    /// The same configuration with another flush interval.
    pub fn with_packet_send_interval(self, packet_send_interval_ms: u64) -> (r: Self)
        ensures
            r.packet_send_interval_ms == packet_send_interval_ms,
    {
        PacketConfig { packet_send_interval_ms }
    }
}

/// Everything a client endpoint is configured with.
#[derive(Clone, Debug)]
pub struct ClientConfig {
    pub netcode: NetcodeConfig,
    pub packet: PacketConfig,
    pub io: IoConfig,
}

impl ClientConfig {
    /// The bounds construction relies on.
    pub open spec fn wf(&self) -> bool {
        &&& self.netcode.wf()
        &&& self.io.wf()
    }
}

impl Default for ClientConfig {
    fn default() -> (r: Self)
        ensures
            r.netcode == (NetcodeConfig { num_disconnect_packets: 10, keepalive_send_interval_ms: 10_000 }),
            r.packet == (PacketConfig { packet_send_interval_ms: 100 }),
            r.io.transport == TransportConfig::UdpSocket(Addr { ip: LOCALHOST_IP, port: 0 }),
            r.io.conditioner is None,
            r.wf(),
    {
        ClientConfig {
            netcode: NetcodeConfig::default(),
            packet: PacketConfig::default(),
            io: IoConfig::default(),
        }
    }
}

/// Everything a server endpoint is configured with.
#[derive(Clone, Debug)]
pub struct ServerConfig {
    pub netcode: NetcodeConfig,
    pub packet: PacketConfig,
    pub io: IoConfig,
}

impl ServerConfig {
    /// The bounds construction relies on.
    pub open spec fn wf(&self) -> bool {
        &&& self.netcode.wf()
        &&& self.io.wf()
    }
}

impl Default for ServerConfig {
    fn default() -> (r: Self)
        ensures
            r.netcode == (NetcodeConfig { num_disconnect_packets: 10, keepalive_send_interval_ms: 10_000 }),
            r.packet == (PacketConfig { packet_send_interval_ms: 100 }),
            r.io.transport == TransportConfig::UdpSocket(Addr { ip: LOCALHOST_IP, port: 0 }),
            r.io.conditioner is None,
            r.wf(),
    {
        ServerConfig {
            netcode: NetcodeConfig::default(),
            packet: PacketConfig::default(),
            io: IoConfig::default(),
        }
    }
}

} // verus!
