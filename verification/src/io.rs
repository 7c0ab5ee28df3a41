//! The composed endpoint: one transport, an optional conditioner on
//! the receive path, and the instrumentation counters.
//!
//! `Io` is the only object the rest of the stack touches. It owns one
//! end of the in-process loopback channel and, when configured, wraps
//! its receive path in a [`Conditioner`]; the raw transport is never
//! exposed. Two endpoints over one channel pair come from
//! [`Io::local_pair`]; the tick loop carries the pair's wire with
//! [`Io::exchange`] once per tick. Socket-backed endpoints need
//! operating-system I/O: the embedding application binds and polls
//! the socket and drives the verified middle, [`IoCore`], with each
//! polled packet; `from_config` therefore reports a socket transport
//! as unsupported here.

use vstd::prelude::*;
use crate::addr::Addr;
use crate::addr::LOCALHOST_IP;
use crate::arith::sat_add;
use crate::arith::sat_add_spec;
use crate::conditioner::arrivals_at;
use crate::conditioner::cond_pop;
use crate::conditioner::cond_push;
use crate::conditioner::cond_push_all;
use crate::conditioner::opt_view;
use crate::conditioner::CondView;
use crate::conditioner::Conditioner;
use crate::conditioner::LinkConditionerConfig;
use crate::error::IoError;
use crate::local::LocalChannel;
use crate::packet::Datagram;
use crate::packet::DatagramV;
use crate::rng::FALLBACK_SEED;

verus! {

/// Which backend an [`Io`] is built over.
#[derive(Clone, Debug)]
pub enum TransportConfig {
    /// A socket bound to the given local address (bound by the
    /// embedding application, not constructible here).
    UdpSocket(Addr),
    /// The in-process loopback channel.
    LocalChannel,
}

/// Configuration of one endpoint: the transport and an optional
/// conditioner on its receive path.
#[derive(Clone, Debug)]
pub struct IoConfig {
    pub transport: TransportConfig,
    pub conditioner: Option<LinkConditionerConfig>,
}

impl IoConfig {
    /// The bounds construction relies on.
    pub open spec fn wf(&self) -> bool {
        match self.conditioner {
            Some(c) => c.wf(),
            None => true,
        }
    }

    /// A configuration over the given transport, with no conditioner.
    pub fn from_transport(transport: TransportConfig) -> (r: Self)
        ensures
            r.transport == transport,
            r.conditioner is None,
            r.wf(),
    {
        IoConfig { transport, conditioner: None }
    }

    /// The same configuration with a conditioner on the receive path.
    pub fn with_conditioner(self, conditioner_config: LinkConditionerConfig) -> (r: Self)
        ensures
            r.transport == self.transport,
            r.conditioner == Some(conditioner_config),
    {
        IoConfig { transport: self.transport, conditioner: Some(conditioner_config) }
    }
}

impl Default for IoConfig {
    /// A socket on an ephemeral local loopback port, no conditioner.
    fn default() -> (r: Self)
        ensures
            r.transport == TransportConfig::UdpSocket(Addr { ip: LOCALHOST_IP, port: 0 }),
            r.conditioner is None,
            r.wf(),
    {
        IoConfig {
            transport: TransportConfig::UdpSocket(Addr { ip: LOCALHOST_IP, port: 0 }),
            conditioner: None,
        }
    }
}

/// The instrumentation counters of one endpoint.
#[derive(Clone, Copy, PartialEq, Eq, Structural, Debug)]
pub struct IoStats {
    pub packets_sent: u64,
    pub bytes_sent: u64,
    pub packets_received: u64,
    pub bytes_received: u64,
}

/// All four counters at zero.
pub open spec fn zero_stats() -> IoStats {
    IoStats { packets_sent: 0, bytes_sent: 0, packets_received: 0, bytes_received: 0 }
}

/// The mathematical state of an endpoint.
pub struct IoView {
    /// The transport's bound (synthetic) local address.
    pub local_addr: Addr,
    /// The address this endpoint's sends are delivered to.
    pub peer: Addr,
    /// Delivered to this endpoint by the transport, not yet polled.
    pub channel: Seq<DatagramV>,
    /// Sent by this endpoint, not yet carried across the pair.
    pub in_flight: Seq<DatagramV>,
    pub cond: Option<CondView>,
    pub stats: IoStats,
}

/// How sending one payload steps the endpoint: the payload, tagged
/// with the sender's own address, joins the peer's side of the wire
/// (for a self-linked endpoint, its own pending queue at once), and
/// the send counters advance (saturating).
pub open spec fn io_send_spec(s: IoView, payload: Seq<u8>) -> IoView {
    let d = DatagramV { bytes: payload, from: s.local_addr };
    IoView {
        local_addr: s.local_addr,
        peer: s.peer,
        channel: if s.peer == s.local_addr {
            s.channel.push(d)
        } else {
            s.channel
        },
        in_flight: if s.peer == s.local_addr {
            s.in_flight
        } else {
            s.in_flight.push(d)
        },
        cond: s.cond,
        stats: IoStats {
            packets_sent: sat_add_spec(s.stats.packets_sent, 1),
            bytes_sent: sat_add_spec(s.stats.bytes_sent, payload.len() as u64),
            packets_received: s.stats.packets_received,
            bytes_received: s.stats.bytes_received,
        },
    }
}

/// The receive counters after a poll that returned `out`.
pub open spec fn recv_stats(st: IoStats, out: Option<DatagramV>) -> IoStats {
    match out {
        None => st,
        Some(d) => IoStats {
            packets_sent: st.packets_sent,
            bytes_sent: st.bytes_sent,
            packets_received: sat_add_spec(st.packets_received, 1),
            bytes_received: sat_add_spec(st.bytes_received, d.bytes.len() as u64),
        },
    }
}

/// How one receive poll steps the endpoint. Without a conditioner the
/// backend's FIFO head is returned. With one, every packet pending at
/// the backend is admitted into the delay queue (each under its own
/// drop and delay decisions) and the earliest due packet, if any, is
/// released.
pub open spec fn io_recv_spec(s: IoView, now: u64) -> (IoView, Option<DatagramV>) {
    match s.cond {
        None => {
            if s.channel.len() == 0 {
                (s, None)
            } else {
                let d = s.channel[0];
                (
                    IoView {
                        local_addr: s.local_addr,
                        peer: s.peer,
                        channel: s.channel.drop_first(),
                        in_flight: s.in_flight,
                        cond: s.cond,
                        stats: recv_stats(s.stats, Some(d)),
                    },
                    Some(d),
                )
            }
        },
        Some(c0) => {
            let stepped = cond_pop(cond_push_all(c0, arrivals_at(s.channel, now)), now);
            (
                IoView {
                    local_addr: s.local_addr,
                    peer: s.peer,
                    channel: Seq::<DatagramV>::empty(),
                    in_flight: s.in_flight,
                    cond: Some(stepped.0),
                    stats: recv_stats(s.stats, stepped.1),
                },
                stepped.1,
            )
        },
    }
}

/// How the wire step moves a linked pair: each side's in-flight
/// datagrams join the other side's pending queue, in order, and
/// nothing stays in flight. Conditioners and counters are untouched.
pub open spec fn io_exchange_spec(a: IoView, b: IoView) -> (IoView, IoView) {
    (
        IoView { channel: a.channel + b.in_flight, in_flight: Seq::<DatagramV>::empty(), ..a },
        IoView { channel: b.channel + a.in_flight, in_flight: Seq::<DatagramV>::empty(), ..b },
    )
}

/// One addressable endpoint: one end of the loopback transport, the
/// optional conditioner on its receive path, and the counters.
#[derive(Debug)]
pub struct Io {
    channel: LocalChannel,
    cond: Option<Conditioner>,
    stats: IoStats,
}

impl View for Io {
    type V = IoView;

    closed spec fn view(&self) -> IoView {
        IoView {
            local_addr: self.channel@.addr,
            peer: self.channel@.peer,
            channel: self.channel@.pending,
            in_flight: self.channel@.in_flight,
            cond: match self.cond {
                Some(c) => Some(c@),
                None => None,
            },
            stats: self.stats,
        }
    }
}

impl Io {
    /// The bounds the methods rely on.
    pub open spec fn wf(&self) -> bool {
        match self@.cond {
            Some(c) => c.cfg.wf(),
            None => true,
        }
    }

    /// Compose an endpoint from its parts. `local_addr` records the
    /// backend's bound address.
    pub fn new(local_addr: Addr, channel: LocalChannel, conditioner: Option<Conditioner>) -> (r:
        Io)
        requires
            local_addr == channel@.addr,
            match conditioner {
                Some(c) => c.wf(),
                None => true,
            },
        ensures
            r.wf(),
            r@.local_addr == local_addr,
            r@.peer == channel@.peer,
            r@.channel == channel@.pending,
            r@.in_flight == channel@.in_flight,
            r@.cond == match conditioner {
                Some(c) => Some(c@),
                None => None::<CondView>,
            },
            r@.stats == zero_stats(),
    {
        Io { channel, cond: conditioner, stats: IoStats { packets_sent: 0, bytes_sent: 0, packets_received: 0, bytes_received: 0 } }
    }

    /// Resolve the configured transport. The in-process channel built
    /// here is a lone, self-linked endpoint (its sends arrive on its
    /// own pending queue); two endpoints sharing one channel pair
    /// come from [`Io::local_pair`]. A socket transport cannot be
    /// bound by this library and is reported as unsupported.
    pub fn from_config(config: &IoConfig) -> (r: Result<Io, IoError>)
        requires
            config.wf(),
        ensures
            match config.transport {
                TransportConfig::LocalChannel => {
                    &&& r matches Ok(io)
                    &&& io.wf()
                    &&& io@.local_addr == (Addr { ip: LOCALHOST_IP, port: 0 })
                    &&& io@.peer == io@.local_addr
                    &&& io@.channel == Seq::<DatagramV>::empty()
                    &&& io@.in_flight == Seq::<DatagramV>::empty()
                    &&& io@.cond == match config.conditioner {
                        None => None::<CondView>,
                        Some(cc) => Some(
                            CondView {
                                cfg: cc,
                                rng: if cc.seed == 0 { FALLBACK_SEED } else { cc.seed },
                                queue: Seq::<crate::conditioner::HeldV>::empty(),
                            },
                        ),
                    }
                    &&& io@.stats == zero_stats()
                },
                TransportConfig::UdpSocket(_) => r == Err::<Io, IoError>(IoError::Unsupported),
            },
    {
        match &config.transport {
            TransportConfig::UdpSocket(_) => Err(IoError::Unsupported),
            TransportConfig::LocalChannel => {
                let channel = LocalChannel::new();
                let local_addr = channel.local_addr();
                let cond = match &config.conditioner {
                    Some(cc) => Some(Conditioner::new(*cc)),
                    None => None,
                };
                Ok(Io::new(local_addr, channel, cond))
            },
        }
    }

    /// Two endpoints over one in-process channel pair, with distinct
    /// synthetic addresses and no conditioner. The tick loop carries
    /// the wire between them with [`Io::exchange`].
    pub fn local_pair() -> (r: (Io, Io))
        ensures
            r.0.wf(),
            r.1.wf(),
            r.0@.local_addr == (Addr { ip: LOCALHOST_IP, port: 1 }),
            r.1@.local_addr == (Addr { ip: LOCALHOST_IP, port: 2 }),
            r.0@.peer == r.1@.local_addr,
            r.1@.peer == r.0@.local_addr,
            r.0@.channel == Seq::<DatagramV>::empty(),
            r.0@.in_flight == Seq::<DatagramV>::empty(),
            r.1@.channel == Seq::<DatagramV>::empty(),
            r.1@.in_flight == Seq::<DatagramV>::empty(),
            r.0@.cond is None,
            r.1@.cond is None,
            r.0@.stats == zero_stats(),
            r.1@.stats == zero_stats(),
    {
        let (ca, cb) = LocalChannel::pair();
        let a_addr = ca.local_addr();
        let b_addr = cb.local_addr();
        (Io::new(a_addr, ca, None), Io::new(b_addr, cb, None))
    }

    /// The wire step of a linked pair, called once per tick by the
    /// driving loop: each side's sent datagrams are delivered onto
    /// the other side's pending queue, in order. Steps both views
    /// exactly by [`io_exchange_spec`].
    pub fn exchange(a: &mut Io, b: &mut Io)
        requires
            old(a)@.peer == old(b)@.local_addr,
            old(b)@.peer == old(a)@.local_addr,
        ensures
            final(a)@ == io_exchange_spec(old(a)@, old(b)@).0,
            final(b)@ == io_exchange_spec(old(a)@, old(b)@).1,
            old(a).wf() ==> final(a).wf(),
            old(b).wf() ==> final(b).wf(),
    {
        crate::local::exchange(&mut a.channel, &mut b.channel);
    }

    /// The transport's bound local address.
    pub fn local_addr(&self) -> (a: Addr)
        ensures
            a == self@.local_addr,
    {
        self.channel.local_addr()
    }

    /// The instrumentation counters.
    pub fn stats(&self) -> (r: IoStats)
        ensures
            r == self@.stats,
    {
        self.stats
    }

    /// Forward one payload to the sender and advance the send
    /// counters. The send path is never conditioned.
    pub fn send(&mut self, payload: &[u8], dest: Addr) -> (r: Result<(), IoError>)
        ensures
            r == Ok::<(), IoError>(()),
            final(self)@ == io_send_spec(old(self)@, payload@),
            old(self).wf() ==> final(self).wf(),
    {
        match self.channel.send(payload, dest) {
            Ok(()) => {},
            Err(e) => {
                return Err(e);
            },
        }
        self.stats.packets_sent = sat_add(self.stats.packets_sent, 1);
        self.stats.bytes_sent = sat_add(self.stats.bytes_sent, payload.len() as u64);
        Ok(())
    }

    /// Poll the (possibly conditioned) receive path once at time
    /// `now_ms` and advance the receive counters on success. Never
    /// blocks: the result is the next due packet or `None`.
    pub fn recv(&mut self, now_ms: u64) -> (r: Result<Option<Datagram>, IoError>)
        requires
            old(self).wf(),
        ensures
            final(self).wf(),
            final(self)@ == io_recv_spec(old(self)@, now_ms).0,
            r matches Ok(o) && opt_view(o) == io_recv_spec(old(self)@, now_ms).1,
    {
        let out: Option<Datagram>;
        match self.cond.take() {
            None => {
                match self.channel.recv() {
                    Ok(o) => {
                        out = o;
                    },
                    Err(e) => {
                        return Err(e);
                    },
                }
            },
            Some(mut c) => {
                let ghost c0 = c@;
                let ghost ch0 = self.channel@.pending;
                let ghost a = self.channel@.addr;
                let ghost p0 = self.channel@.peer;
                let ghost f0 = self.channel@.in_flight;
                let ghost st0 = self.stats;
                while self.channel.pending_count() > 0
                    invariant
                        c0.cfg.wf(),
                        self.channel@.addr == a,
                        self.channel@.peer == p0,
                        self.channel@.in_flight == f0,
                        self.stats == st0,
                        self.cond is None,
                        c@.cfg == c0.cfg,
                        self.channel@.pending.len() <= ch0.len(),
                        self.channel@.pending == ch0.skip(
                            ch0.len() - self.channel@.pending.len(),
                        ),
                        c@ == cond_push_all(
                            c0,
                            arrivals_at(
                                ch0.take(ch0.len() - self.channel@.pending.len()),
                                now_ms,
                            ),
                        ),
                    decreases self.channel@.pending.len(),
                {
                    let ghost k = ch0.len() - self.channel@.pending.len();
                    match self.channel.recv() {
                        Ok(Some(d)) => {
                            proof {
                                assert(d@ == ch0.skip(k)[0]);
                                assert(ch0.skip(k)[0] == ch0[k]);
                            }
                            c.push(d, now_ms);
                            proof {
                                let t1 = arrivals_at(ch0.take(k + 1), now_ms);
                                assert(t1.drop_last() =~= arrivals_at(ch0.take(k), now_ms));
                                assert(t1.last() == (ch0[k], now_ms));
                                assert(ch0.skip(k).drop_first() =~= ch0.skip(k + 1));
                            }
                        },
                        Ok(None) => {},
                        Err(e) => {
                            return Err(e);
                        },
                    }
                }
                proof {
                    assert(self.channel@.pending =~= Seq::<DatagramV>::empty());
                    assert(ch0.take(ch0.len() - self.channel@.pending.len()) =~= ch0);
                    assert(c@ == cond_push_all(c0, arrivals_at(ch0, now_ms)));
                }
                out = c.pop_due(now_ms);
                self.cond = Some(c);
            },
        }
        match &out {
            Some(d) => {
                self.stats.packets_received = sat_add(self.stats.packets_received, 1);
                self.stats.bytes_received = sat_add(self.stats.bytes_received, d.bytes.len() as u64);
            },
            None => {},
        }
        Ok(out)
    }
}

/// Law: across a linked pair the wire is exact. For two linked
/// endpoints with nothing queued on the receiving side and nothing in
/// flight, sending a payload from one, carrying the wire, and polling
/// the other delivers exactly that payload, tagged with the sender's
/// local address, and leaves nothing pending: `io_send_spec`,
/// `io_exchange_spec` and `io_recv_spec` composed.
pub proof fn lemma_pair_delivery(a: IoView, b: IoView, p: Seq<u8>, now: u64)
    requires
        a.peer == b.local_addr,
        b.peer == a.local_addr,
        a.local_addr != a.peer,
        a.in_flight.len() == 0,
        b.channel.len() == 0,
        b.cond is None,
    ensures
        ({
            let a1 = io_send_spec(a, p);
            let b1 = io_exchange_spec(a1, b).1;
            let polled = io_recv_spec(b1, now);
            &&& polled.1 == Some(DatagramV { bytes: p, from: a.local_addr })
            &&& polled.0.channel.len() == 0
        }),
{
    let a1 = io_send_spec(a, p);
    let d = DatagramV { bytes: p, from: a.local_addr };
    assert(a1.in_flight == a.in_flight.push(d));
    let b1 = io_exchange_spec(a1, b).1;
    assert(b1.channel =~= seq![d]);
    assert(b1.channel.drop_first() =~= Seq::<DatagramV>::empty());
}

/// The verified middle of a socket-backed endpoint. The embedding
/// application binds and polls the socket; each polled result is
/// handed in as a plain value, and this applies the conditioner and
/// advances the counters exactly as the in-process endpoint does.
#[derive(Debug)]
pub struct IoCore {
    cond: Option<Conditioner>,
    stats: IoStats,
}

/// The mathematical state of a socket-backed endpoint's middle.
pub struct IoCoreView {
    pub cond: Option<CondView>,
    pub stats: IoStats,
}

impl View for IoCore {
    type V = IoCoreView;

    closed spec fn view(&self) -> IoCoreView {
        IoCoreView {
            cond: match self.cond {
                Some(c) => Some(c@),
                None => None,
            },
            stats: self.stats,
        }
    }
}

/// How handing in one polled packet steps the middle: without a
/// conditioner the packet passes through; with one it is admitted
/// under its own drop and delay decisions and the earliest due packet
/// is released. The receive counters advance on what comes out.
pub open spec fn core_recv_spec(s: IoCoreView, polled: Option<DatagramV>, now: u64) -> (
    IoCoreView,
    Option<DatagramV>,
) {
    match s.cond {
        None => (IoCoreView { cond: s.cond, stats: recv_stats(s.stats, polled) }, polled),
        Some(c0) => {
            let c1 = match polled {
                Some(d) => cond_push(c0, d, now),
                None => c0,
            };
            let stepped = cond_pop(c1, now);
            (
                IoCoreView { cond: Some(stepped.0), stats: recv_stats(s.stats, stepped.1) },
                stepped.1,
            )
        },
    }
}

impl IoCore {
    /// The bounds the methods rely on.
    pub open spec fn wf(&self) -> bool {
        match self@.cond {
            Some(c) => c.cfg.wf(),
            None => true,
        }
    }

    /// A fresh middle with zeroed counters.
    pub fn new(conditioner: Option<Conditioner>) -> (r: IoCore)
        requires
            match conditioner {
                Some(c) => c.wf(),
                None => true,
            },
        ensures
            r.wf(),
            r@.cond == match conditioner {
                Some(c) => Some(c@),
                None => None::<CondView>,
            },
            r@.stats == zero_stats(),
    {
        IoCore {
            cond: conditioner,
            stats: IoStats { packets_sent: 0, bytes_sent: 0, packets_received: 0, bytes_received: 0 },
        }
    }

    /// One payload of the given length left through the socket:
    /// advance the send counters (saturating). The send path is never
    /// conditioned.
    pub fn on_sent(&mut self, byte_len: usize)
        ensures
            final(self)@.cond == old(self)@.cond,
            final(self)@.stats == (IoStats {
                packets_sent: sat_add_spec(old(self)@.stats.packets_sent, 1),
                bytes_sent: sat_add_spec(old(self)@.stats.bytes_sent, byte_len as u64),
                packets_received: old(self)@.stats.packets_received,
                bytes_received: old(self)@.stats.bytes_received,
            }),
            old(self).wf() ==> final(self).wf(),
    {
        self.stats.packets_sent = sat_add(self.stats.packets_sent, 1);
        self.stats.bytes_sent = sat_add(self.stats.bytes_sent, byte_len as u64);
    }

    /// Hand in the result of one socket poll at time `now_ms` and
    /// take out what the endpoint delivers. Steps the state exactly
    /// by [`core_recv_spec`].
    pub fn on_polled(&mut self, polled: Option<Datagram>, now_ms: u64) -> (r: Option<Datagram>)
        requires
            old(self).wf(),
        ensures
            final(self).wf(),
            final(self)@ == core_recv_spec(old(self)@, opt_view(polled), now_ms).0,
            opt_view(r) == core_recv_spec(old(self)@, opt_view(polled), now_ms).1,
    {
        let ghost pv = opt_view(polled);
        let out: Option<Datagram>;
        match self.cond.take() {
            None => {
                out = polled;
            },
            Some(mut c) => {
                match polled {
                    Some(d) => {
                        c.push(d, now_ms);
                    },
                    None => {},
                }
                out = c.pop_due(now_ms);
                self.cond = Some(c);
            },
        }
        match &out {
            Some(d) => {
                self.stats.packets_received = sat_add(self.stats.packets_received, 1);
                self.stats.bytes_received = sat_add(self.stats.bytes_received, d.bytes.len() as u64);
            },
            None => {},
        }
        out
    }

    /// The instrumentation counters.
    pub fn stats(&self) -> (r: IoStats)
        ensures
            r == self@.stats,
    {
        self.stats
    }
}

} // verus!
