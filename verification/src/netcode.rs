//! Connection liveness: the netcode state machine.
//!
//! A connection walks `Connecting -> Connected -> Disconnected`
//! (terminal). While connected, keepalives go out whenever nothing
//! has been sent for a whole keepalive interval; every received
//! packet refreshes the last-receive timestamp; and a peer from whom
//! nothing arrives for `num_disconnect_packets` consecutive keepalive
//! intervals is declared disconnected, with the liveness-lost signal
//! fired exactly once, on that transition. The whole machine steps by
//! the pure function [`tick_spec`], which `tick` follows exactly.
//!
//! [`SendTimer`] paces outbound application flushes: however fast the
//! driving tick runs, two accepted flushes for one peer are never
//! closer than the configured interval.

use vstd::prelude::*;
use crate::config::NetcodeConfig;
use crate::config::PacketConfig;
use crate::config::MAX_DISCONNECT_PACKETS;
use crate::config::MAX_KEEPALIVE_INTERVAL_MS;
use crate::error::IoError;

verus! {

/// The phase of one per-peer connection.
#[derive(Clone, Copy, PartialEq, Eq, Structural, Debug)]
pub enum ConnectionPhase {
    /// A connection attempt has been initiated; nothing received yet.
    Connecting,
    /// At least one valid packet has arrived from the peer.
    Connected,
    /// Terminal: the peer was declared lost. A new attempt creates a
    /// fresh connection instead of reviving this one.
    Disconnected,
}

/// What one tick of the liveness machine asks the caller to do.
#[derive(Clone, Copy, PartialEq, Eq, Structural, Debug)]
pub struct TickOutcome {
    /// Send a keepalive packet now (the machine has reset its send
    /// timer on this tick).
    pub send_keepalive: bool,
    /// The peer was declared lost on this very tick; the signal never
    /// fires again for this connection.
    pub liveness_lost: bool,
}

/// Per-peer connection liveness state.
#[derive(Clone, Copy, PartialEq, Eq, Structural, Debug)]
pub struct Connection {
    pub cfg: NetcodeConfig,
    pub phase: ConnectionPhase,
    /// When the last packet (keepalive or application) arrived, in ms.
    pub last_recv_ms: u64,
    /// When the last outbound packet (keepalive or application) left, in ms.
    pub last_send_ms: u64,
}

/// Milliseconds of silence after which the peer is declared lost.
pub open spec fn disconnect_timeout_ms(cfg: NetcodeConfig) -> int {
    cfg.num_disconnect_packets * cfg.keepalive_send_interval_ms
}

/// How one tick at time `now` steps the machine. Only a connected
/// peer is watched: when the silence since the last received packet
/// reaches `num_disconnect_packets` keepalive intervals the phase
/// becomes `Disconnected` and the liveness-lost signal fires (on this
/// transition only); otherwise, after a full keepalive interval with
/// no outbound traffic, a keepalive is requested and the send timer
/// reset.
pub open spec fn tick_spec(c: Connection, now: u64) -> (Connection, TickOutcome) {
    match c.phase {
        ConnectionPhase::Connected => {
            if now - c.last_recv_ms >= disconnect_timeout_ms(c.cfg) {
                (
                    Connection { phase: ConnectionPhase::Disconnected, ..c },
                    TickOutcome { send_keepalive: false, liveness_lost: true },
                )
            } else if now - c.last_send_ms >= c.cfg.keepalive_send_interval_ms {
                (
                    Connection { last_send_ms: now, ..c },
                    TickOutcome { send_keepalive: true, liveness_lost: false },
                )
            } else {
                (c, TickOutcome { send_keepalive: false, liveness_lost: false })
            }
        },
        _ => (c, TickOutcome { send_keepalive: false, liveness_lost: false }),
    }
}

impl Connection {
    /// The bounds the liveness arithmetic relies on.
    pub open spec fn wf(&self) -> bool {
        self.cfg.wf()
    }

    /// Timestamps the machine has seen so far never exceed `now`.
    pub open spec fn synced_to(&self, now: u64) -> bool {
        &&& self.last_recv_ms <= now
        &&& self.last_send_ms <= now
    }

    /// A fresh connection attempt at time `now`.
    pub fn new(cfg: NetcodeConfig, now_ms: u64) -> (r: Connection)
        requires
            cfg.wf(),
        ensures
            r.wf(),
            r == (Connection {
                cfg,
                phase: ConnectionPhase::Connecting,
                last_recv_ms: now_ms,
                last_send_ms: now_ms,
            }),
    {
        Connection {
            cfg,
            phase: ConnectionPhase::Connecting,
            last_recv_ms: now_ms,
            last_send_ms: now_ms,
        }
    }

    /// A packet (keepalive or application) arrived from the peer at
    /// time `now`: the first one connects, every one refreshes the
    /// last-receive timestamp. A disconnected peer rejects it.
    pub fn on_packet_received(&mut self, now_ms: u64) -> (r: Result<(), IoError>)
        requires
            old(self).wf(),
            old(self).synced_to(now_ms),
        ensures
            final(self).wf(),
            final(self).synced_to(now_ms),
            old(self).phase is Disconnected ==> {
                &&& r == Err::<(), IoError>(IoError::NotConnected)
                &&& *final(self) == *old(self)
            },
            !(old(self).phase is Disconnected) ==> {
                &&& r == Ok::<(), IoError>(())
                &&& *final(self) == (Connection {
                    phase: ConnectionPhase::Connected,
                    last_recv_ms: now_ms,
                    ..*old(self)
                })
            },
    {
        match self.phase {
            ConnectionPhase::Disconnected => Err(IoError::NotConnected),
            _ => {
                self.phase = ConnectionPhase::Connected;
                self.last_recv_ms = now_ms;
                Ok(())
            },
        }
    }

    /// An outbound application packet left for the peer at time
    /// `now`: the send timer resets, so no keepalive is due for a
    /// full interval. A disconnected peer rejects it.
    pub fn on_packet_sent(&mut self, now_ms: u64) -> (r: Result<(), IoError>)
        requires
            old(self).wf(),
            old(self).synced_to(now_ms),
        ensures
            final(self).wf(),
            final(self).synced_to(now_ms),
            old(self).phase is Disconnected ==> {
                &&& r == Err::<(), IoError>(IoError::NotConnected)
                &&& *final(self) == *old(self)
            },
            !(old(self).phase is Disconnected) ==> {
                &&& r == Ok::<(), IoError>(())
                &&& *final(self) == (Connection { last_send_ms: now_ms, ..*old(self) })
            },
    {
        match self.phase {
            ConnectionPhase::Disconnected => Err(IoError::NotConnected),
            _ => {
                self.last_send_ms = now_ms;
                Ok(())
            },
        }
    }

    /// One tick of the liveness machine at time `now`. Steps the
    /// state exactly by [`tick_spec`].
    pub fn tick(&mut self, now_ms: u64) -> (r: TickOutcome)
        requires
            old(self).wf(),
            old(self).synced_to(now_ms),
        ensures
            final(self).wf(),
            final(self).synced_to(now_ms),
            *final(self) == tick_spec(*old(self), now_ms).0,
            r == tick_spec(*old(self), now_ms).1,
    {
        match self.phase {
            ConnectionPhase::Connected => {
                proof {
                    vstd::arithmetic::mul::lemma_mul_upper_bound(
                        self.cfg.num_disconnect_packets as int,
                        MAX_DISCONNECT_PACKETS as int,
                        self.cfg.keepalive_send_interval_ms as int,
                        MAX_KEEPALIVE_INTERVAL_MS as int,
                    );
                }
                let timeout = self.cfg.num_disconnect_packets * self.cfg.keepalive_send_interval_ms;
                if now_ms - self.last_recv_ms >= timeout {
                    self.phase = ConnectionPhase::Disconnected;
                    TickOutcome { send_keepalive: false, liveness_lost: true }
                } else if now_ms - self.last_send_ms >= self.cfg.keepalive_send_interval_ms {
                    self.last_send_ms = now_ms;
                    TickOutcome { send_keepalive: true, liveness_lost: false }
                } else {
                    TickOutcome { send_keepalive: false, liveness_lost: false }
                }
            },
            _ => TickOutcome { send_keepalive: false, liveness_lost: false },
        }
    }
}

/// Law: disconnection is exact. A connected peer is declared lost on
/// a tick exactly when the silence since its last received packet has
/// reached `num_disconnect_packets` keepalive intervals — never
/// before, never after — and the liveness-lost signal fires on
/// exactly that tick.
pub proof fn lemma_disconnect_exact(c: Connection, now: u64)
    requires
        c.wf(),
        c.phase is Connected,
        c.synced_to(now),
    ensures
        tick_spec(c, now).0.phase is Disconnected <==> now - c.last_recv_ms
            >= disconnect_timeout_ms(c.cfg),
        tick_spec(c, now).1.liveness_lost <==> now - c.last_recv_ms >= disconnect_timeout_ms(
            c.cfg,
        ),
{
}

/// Law: the liveness-lost signal fires exactly once. A tick that
/// fires it leaves the connection disconnected, and from then on no
/// tick fires again or changes the state, and every send or receive
/// is rejected (the ensures of `on_packet_sent` and
/// `on_packet_received` reject a disconnected peer).
pub proof fn lemma_lost_fires_once(c: Connection, t1: u64, t2: u64)
    requires
        c.wf(),
        c.synced_to(t1),
    ensures
        tick_spec(c, t1).1.liveness_lost ==> {
            let c1 = tick_spec(c, t1).0;
            &&& c1.phase is Disconnected
            &&& tick_spec(c1, t2).0 == c1
            &&& !tick_spec(c1, t2).1.liveness_lost
        },
{
}

/// The outbound flush pacer for one peer: an application packet flush
/// is accepted only when at least the configured interval has passed
/// since the last accepted flush.
#[derive(Clone, Copy, PartialEq, Eq, Structural, Debug)]
pub struct SendTimer {
    pub interval_ms: u64,
    /// When the last flush was accepted, if any, in ms.
    pub last_flush_ms: Option<u64>,
}

/// Whether a flush at time `now` is due.
pub open spec fn flush_ready(s: SendTimer, now: u64) -> bool {
    match s.last_flush_ms {
        None => true,
        Some(t) => now - t >= s.interval_ms,
    }
}

impl SendTimer {
    /// A timer that has accepted no flush yet.
    pub fn new(cfg: &PacketConfig) -> (r: SendTimer)
        ensures
            r.interval_ms == cfg.packet_send_interval_ms,
            r.last_flush_ms is None,
    {
        SendTimer { interval_ms: cfg.packet_send_interval_ms, last_flush_ms: None }
    }

    /// Ask to flush at time `now`: accepted exactly when the interval
    /// has passed since the last accepted flush, and acceptance
    /// records `now`.
    pub fn try_flush(&mut self, now_ms: u64) -> (r: bool)
        requires
            match old(self).last_flush_ms {
                Some(t) => t <= now_ms,
                None => true,
            },
        ensures
            r == flush_ready(*old(self), now_ms),
            r ==> *final(self) == (SendTimer {
                last_flush_ms: Some(now_ms),
                ..*old(self)
            }),
            !r ==> *final(self) == *old(self),
    {
        let due = match self.last_flush_ms {
            None => true,
            Some(t) => now_ms - t >= self.interval_ms,
        };
        if due {
            self.last_flush_ms = Some(now_ms);
        }
        due
    }
}

/// Law: flushes are spaced. Once a flush is accepted at `t1`, the
/// next flush is accepted at `t2` exactly when `t2 - t1` has reached
/// the configured interval, however often the caller asks in
/// between (a refused ask leaves the timer unchanged).
pub proof fn lemma_flush_spacing(s: SendTimer, t1: u64, t2: u64)
    ensures
        flush_ready(SendTimer { interval_ms: s.interval_ms, last_flush_ms: Some(t1) }, t2)
            <==> t2 - t1 >= s.interval_ms,
{
}

} // verus!
