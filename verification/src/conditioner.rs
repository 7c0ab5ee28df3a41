//! The link conditioner: simulated network impairment on the receive
//! path.
//!
//! Each packet pulled from the inner receiver is first subjected to a
//! drop decision, then held in a delay queue under a release time
//! drawn as base latency plus a jitter offset. Packets become visible
//! to the caller only once their release time has elapsed, in
//! release-time order (which may differ from arrival order: that is
//! the intended reordering). On release, a duplication decision may
//! re-enqueue a copy under a fresh release time.
//!
//! All decisions are drawn from a deterministic seeded generator, so
//! a fixed seed reproduces an impairment schedule exactly. The whole
//! conditioner state steps by the pure functions `cond_push` and
//! `cond_pop`, which the executable methods follow exactly.

use vstd::prelude::*;
use crate::arith::sat_add;
use crate::packet::clone_bytes;
use crate::packet::Datagram;
use crate::packet::DatagramV;
use crate::rng::rng_step;
use crate::rng::Rng;
use crate::rng::FALLBACK_SEED;

verus! {

/// Probabilities are stated in parts per million of this denominator.
pub const PPM: u64 = 1_000_000;

/// The largest admitted base latency and jitter, in milliseconds.
pub const MAX_DELAY_MS: u64 = 1_000_000;

/// Parameters of the simulated impairment. Pure configuration; the
/// conditioner's runtime state lives in [`Conditioner`].
#[derive(Clone, Copy, PartialEq, Eq, Structural, Debug)]
pub struct LinkConditionerConfig {
    /// Base delivery latency added to each kept packet, in ms.
    pub incoming_latency_ms: u64,
    /// Half-width of the uniform jitter band around the base latency, in ms.
    pub incoming_jitter_ms: u64,
    /// Probability of dropping a packet, in parts per million.
    pub incoming_loss_ppm: u64,
    /// Probability of duplicating a released packet, in parts per million.
    pub incoming_duplicate_ppm: u64,
    /// Seed of the deterministic draw sequence.
    pub seed: u64,
}

impl LinkConditionerConfig {
    /// The bounds every conditioner relies on: probabilities do not
    /// exceed the denominator and delays stay in range.
    pub open spec fn wf(&self) -> bool {
        &&& self.incoming_loss_ppm <= PPM
        &&& self.incoming_duplicate_ppm <= PPM
        &&& self.incoming_latency_ms <= MAX_DELAY_MS
        &&& self.incoming_jitter_ms <= MAX_DELAY_MS
    }

    /// Build a configuration, clamping each parameter into its
    /// admitted range.
    pub fn new(
        latency_ms: u64,
        jitter_ms: u64,
        loss_ppm: u64,
        duplicate_ppm: u64,
        seed: u64,
    ) -> (r: LinkConditionerConfig)
        ensures
            r.wf(),
            r.incoming_latency_ms == if latency_ms <= MAX_DELAY_MS { latency_ms } else { MAX_DELAY_MS },
            r.incoming_jitter_ms == if jitter_ms <= MAX_DELAY_MS { jitter_ms } else { MAX_DELAY_MS },
            r.incoming_loss_ppm == if loss_ppm <= PPM { loss_ppm } else { PPM },
            r.incoming_duplicate_ppm == if duplicate_ppm <= PPM { duplicate_ppm } else { PPM },
            r.seed == seed,
    {
        LinkConditionerConfig {
            incoming_latency_ms: if latency_ms <= MAX_DELAY_MS { latency_ms } else { MAX_DELAY_MS },
            incoming_jitter_ms: if jitter_ms <= MAX_DELAY_MS { jitter_ms } else { MAX_DELAY_MS },
            incoming_loss_ppm: if loss_ppm <= PPM { loss_ppm } else { PPM },
            incoming_duplicate_ppm: if duplicate_ppm <= PPM { duplicate_ppm } else { PPM },
            seed,
        }
    }
}

/// A packet held in the delay queue until its release time.
#[derive(Debug)]
pub struct Held {
    pub release_ms: u64,
    pub packet: Datagram,
}

/// The mathematical value of a held packet.
pub struct HeldV {
    pub release_ms: u64,
    pub packet: DatagramV,
}

impl View for Held {
    type V = HeldV;

    open spec fn view(&self) -> HeldV {
        HeldV { release_ms: self.release_ms, packet: self.packet@ }
    }
}

/// The mathematical state of a conditioner: its configuration, the
/// state of its draw sequence, and the delay queue.
pub struct CondView {
    pub cfg: LinkConditionerConfig,
    pub rng: u64,
    pub queue: Seq<HeldV>,
}

/// Whether the drop decision drawn from generator state `s` discards
/// the packet.
pub open spec fn is_dropped(cfg: LinkConditionerConfig, s: u64) -> bool {
    (rng_step(s) as int) % (PPM as int) < cfg.incoming_loss_ppm
}

/// Whether the duplication decision drawn from state `s` copies the
/// released packet.
pub open spec fn is_duplicated(cfg: LinkConditionerConfig, s: u64) -> bool {
    (rng_step(s) as int) % (PPM as int) < cfg.incoming_duplicate_ppm
}

/// The delay drawn from generator state `s`: base latency plus a
/// uniform offset in `-jitter ..= jitter`, floored at zero.
pub open spec fn delay_of(cfg: LinkConditionerConfig, s: u64) -> int {
    let off = (rng_step(s) as int) % (2 * (cfg.incoming_jitter_ms as int) + 1);
    let raw = cfg.incoming_latency_ms + off;
    if raw >= cfg.incoming_jitter_ms {
        raw - cfg.incoming_jitter_ms
    } else {
        0
    }
}

/// The release time of a packet admitted at `now` whose delay is
/// drawn from state `s`.
pub open spec fn release_of(cfg: LinkConditionerConfig, s: u64, now: u64) -> u64 {
    if now + delay_of(cfg, s) <= u64::MAX {
        (now + delay_of(cfg, s)) as u64
    } else {
        u64::MAX
    }
}

/// How admitting one packet steps the conditioner: one drop draw;
/// if kept, one jitter draw and an entry in the delay queue.
pub open spec fn cond_push(c: CondView, d: DatagramV, now: u64) -> CondView {
    let s1 = rng_step(c.rng);
    if is_dropped(c.cfg, c.rng) {
        CondView { cfg: c.cfg, rng: s1, queue: c.queue }
    } else {
        CondView {
            cfg: c.cfg,
            rng: rng_step(s1),
            queue: c.queue.push(HeldV { release_ms: release_of(c.cfg, s1, now), packet: d }),
        }
    }
}

/// The index of the earliest-release entry (the first such index,
/// when several entries share the minimal release time).
pub open spec fn first_min_idx(q: Seq<HeldV>) -> int
    decreases q.len(),
{
    if q.len() <= 1 {
        0
    } else {
        let r = first_min_idx(q.drop_last());
        if q.last().release_ms < q[r].release_ms {
            q.len() - 1
        } else {
            r
        }
    }
}

/// The earliest-release index is in range and minimal.
pub proof fn lemma_first_min_idx(q: Seq<HeldV>)
    requires
        q.len() > 0,
    ensures
        0 <= first_min_idx(q) < q.len(),
        forall|j: int| 0 <= j < q.len() ==> q[first_min_idx(q)].release_ms <= #[trigger] q[j].release_ms,
    decreases q.len(),
{
    if q.len() > 1 {
        let p = q.drop_last();
        lemma_first_min_idx(p);
        let r = first_min_idx(p);
        assert(q[r] == p[r]);
        assert forall|j: int| 0 <= j < q.len() implies q[first_min_idx(q)].release_ms
            <= #[trigger] q[j].release_ms by {
            if j < q.len() - 1 {
                assert(q[j] == p[j]);
                assert(p[r].release_ms <= p[j].release_ms);
            }
        };
    }
}

/// How one poll steps the conditioner: the earliest-release due entry
/// leaves the queue and is returned; on release, one duplication draw
/// may re-enqueue a copy under a fresh release time.
pub open spec fn cond_pop(c: CondView, now: u64) -> (CondView, Option<DatagramV>) {
    if c.queue.len() == 0 {
        (c, None)
    } else {
        let m = first_min_idx(c.queue);
        if c.queue[m].release_ms > now {
            (c, None)
        } else {
            let d = c.queue[m].packet;
            let q1 = c.queue.remove(m);
            let s1 = rng_step(c.rng);
            if is_duplicated(c.cfg, c.rng) {
                (
                    CondView {
                        cfg: c.cfg,
                        rng: rng_step(s1),
                        queue: q1.push(HeldV { release_ms: release_of(c.cfg, s1, now), packet: d }),
                    },
                    Some(d),
                )
            } else {
                (CondView { cfg: c.cfg, rng: s1, queue: q1 }, Some(d))
            }
        }
    }
}

/// The conditioner state after admitting a whole run of packets,
/// each at its own arrival time.
pub open spec fn cond_push_all(c: CondView, arrivals: Seq<(DatagramV, u64)>) -> CondView
    decreases arrivals.len(),
{
    if arrivals.len() == 0 {
        c
    } else {
        cond_push(cond_push_all(c, arrivals.drop_last()), arrivals.last().0, arrivals.last().1)
    }
}

/// The packets of `s`, each arriving at time `now`.
pub open spec fn arrivals_at(s: Seq<DatagramV>, now: u64) -> Seq<(DatagramV, u64)> {
    s.map_values(|d: DatagramV| (d, now))
}

/// Law: delivery happens within the configured window. A kept packet
/// admitted at `now` is released no earlier than `now` and no later
/// than `now` plus base latency plus jitter.
pub proof fn lemma_release_window(cfg: LinkConditionerConfig, s: u64, now: u64)
    requires
        cfg.wf(),
    ensures
        now <= release_of(cfg, s, now),
        release_of(cfg, s, now) <= now + cfg.incoming_latency_ms + cfg.incoming_jitter_ms,
{
    vstd::arithmetic::div_mod::lemma_mod_division_less_than_divisor(
        rng_step(s) as int,
        2 * (cfg.incoming_jitter_ms as int) + 1,
    );
}

/// Law: with drop probability one, no packet is ever delivered. Any
/// run of admissions leaves the delay queue empty, and a poll of an
/// empty queue returns nothing.
pub proof fn lemma_full_loss_never_delivers(
    c: CondView,
    arrivals: Seq<(DatagramV, u64)>,
    now: u64,
)
    requires
        c.cfg.incoming_loss_ppm == PPM,
        c.queue.len() == 0,
    ensures
        cond_push_all(c, arrivals).cfg == c.cfg,
        cond_push_all(c, arrivals).queue.len() == 0,
        cond_pop(cond_push_all(c, arrivals), now).1 is None,
    decreases arrivals.len(),
{
    if arrivals.len() == 0 {
    } else {
        lemma_full_loss_never_delivers(c, arrivals.drop_last(), now);
        let mid = cond_push_all(c, arrivals.drop_last());
        vstd::arithmetic::div_mod::lemma_mod_division_less_than_divisor(
            rng_step(mid.rng) as int,
            PPM as int,
        );
        assert(is_dropped(mid.cfg, mid.rng));
    }
}

/// Law: with drop probability zero, admission conserves packets. A
/// run of admissions appends exactly one held entry per admitted
/// packet, in admission order, and leaves every earlier entry in
/// place — nothing is lost before release.
pub proof fn lemma_no_loss_conserves(c: CondView, arrivals: Seq<(DatagramV, u64)>)
    requires
        c.cfg.incoming_loss_ppm == 0,
    ensures
        cond_push_all(c, arrivals).cfg == c.cfg,
        cond_push_all(c, arrivals).queue.len() == c.queue.len() + arrivals.len(),
        forall|i: int|
            0 <= i < c.queue.len() ==> #[trigger] cond_push_all(c, arrivals).queue[i]
                == c.queue[i],
        forall|i: int|
            0 <= i < arrivals.len() ==> #[trigger] cond_push_all(c, arrivals).queue[c.queue.len()
                + i].packet == arrivals[i].0,
    decreases arrivals.len(),
{
    if arrivals.len() > 0 {
        lemma_no_loss_conserves(c, arrivals.drop_last());
        let mid = cond_push_all(c, arrivals.drop_last());
        vstd::arithmetic::div_mod::lemma_mod_division_less_than_divisor(
            rng_step(mid.rng) as int,
            PPM as int,
        );
        assert(!is_dropped(mid.cfg, mid.rng));
    }
}

/// Law: with drop probability zero and duplication probability zero,
/// every admitted packet is held exactly once and each successful
/// poll removes exactly the earliest-release due entry and returns
/// it — so each packet is delivered exactly once, in release-time
/// order (which may invert send order when jitter makes a later
/// packet release earlier).
pub proof fn lemma_exactly_once_no_impairment(c: CondView, d: DatagramV, now: u64)
    requires
        c.cfg.wf(),
        c.cfg.incoming_loss_ppm == 0,
        c.cfg.incoming_duplicate_ppm == 0,
    ensures
        cond_push(c, d, now).queue == c.queue.push(
            HeldV { release_ms: release_of(c.cfg, rng_step(c.rng), now), packet: d },
        ),
        c.queue.len() > 0 && c.queue[first_min_idx(c.queue)].release_ms <= now ==> {
            let m = first_min_idx(c.queue);
            &&& cond_pop(c, now).1 == Some(c.queue[m].packet)
            &&& cond_pop(c, now).0.queue == c.queue.remove(m)
            &&& forall|j: int|
                0 <= j < c.queue.len() ==> c.queue[m].release_ms
                    <= #[trigger] c.queue[j].release_ms
        },
        c.queue.len() == 0 ==> cond_pop(c, now).1 is None,
        c.queue.len() > 0 && c.queue[first_min_idx(c.queue)].release_ms > now ==> cond_pop(
            c,
            now,
        ).1 is None,
{
    vstd::arithmetic::div_mod::lemma_mod_division_less_than_divisor(
        rng_step(c.rng) as int,
        PPM as int,
    );
    assert(!is_dropped(c.cfg, c.rng));
    assert(!is_duplicated(c.cfg, c.rng));
    if c.queue.len() > 0 {
        lemma_first_min_idx(c.queue);
    }
}

/// The view of an optionally returned datagram.
pub open spec fn opt_view(o: Option<Datagram>) -> Option<DatagramV> {
    match o {
        Some(d) => Some(d@),
        None => None,
    }
}

/// The conditioner: configuration, deterministic draw state, and the
/// delay queue of packets not yet released.
#[derive(Debug)]
pub struct Conditioner {
    cfg: LinkConditionerConfig,
    rng: Rng,
    queue: Vec<Held>,
}

impl View for Conditioner {
    type V = CondView;

    closed spec fn view(&self) -> CondView {
        CondView {
            cfg: self.cfg,
            rng: self.rng.state,
            queue: self.queue@.map_values(|h: Held| h@),
        }
    }
}

impl Conditioner {
    /// The bounds the methods rely on.
    pub open spec fn wf(&self) -> bool {
        self@.cfg.wf()
    }

    /// A conditioner in its initial state: empty delay queue, draw
    /// sequence started from the configured seed.
    pub fn new(cfg: LinkConditionerConfig) -> (r: Conditioner)
        requires
            cfg.wf(),
        ensures
            r.wf(),
            r@.cfg == cfg,
            r@.rng == if cfg.seed == 0 { FALLBACK_SEED } else { cfg.seed },
            r@.queue == Seq::<HeldV>::empty(),
    {
        let c = Conditioner { cfg, rng: Rng::seeded(cfg.seed), queue: Vec::new() };
        proof {
            assert(c@.queue =~= Seq::<HeldV>::empty());
        }
        c
    }

    /// The configuration this conditioner was built with.
    pub fn config(&self) -> (r: LinkConditionerConfig)
        ensures
            r == self@.cfg,
    {
        self.cfg
    }

    /// Admit one packet pulled from the inner receiver at time
    /// `now_ms`: draw the drop decision and, if the packet is kept,
    /// hold it in the delay queue under a drawn release time. Steps
    /// the state exactly by [`cond_push`].
    pub fn push(&mut self, d: Datagram, now_ms: u64)
        requires
            old(self).wf(),
        ensures
            final(self).wf(),
            final(self)@ == cond_push(old(self)@, d@, now_ms),
    {
        let draw = self.rng.next_below(PPM);
        if draw < self.cfg.incoming_loss_ppm {
            return;
        }
        let span = 2 * self.cfg.incoming_jitter_ms + 1;
        let off = self.rng.next_below(span);
        let raw = self.cfg.incoming_latency_ms + off;
        let delay = if raw >= self.cfg.incoming_jitter_ms {
            raw - self.cfg.incoming_jitter_ms
        } else {
            0
        };
        let release = sat_add(now_ms, delay);
        self.queue.push(Held { release_ms: release, packet: d });
        proof {
            assert(self@.queue =~= cond_push(old(self)@, d@, now_ms).queue);
        }
    }

    /// Release the earliest-release due packet, if any: the entry with
    /// the minimal release time, provided that time has elapsed. On
    /// release, the duplication decision may re-enqueue a copy under a
    /// fresh release time. Steps the state exactly by [`cond_pop`].
    pub fn pop_due(&mut self, now_ms: u64) -> (r: Option<Datagram>)
        requires
            old(self).wf(),
        ensures
            final(self).wf(),
            final(self)@ == cond_pop(old(self)@, now_ms).0,
            opt_view(r) == cond_pop(old(self)@, now_ms).1,
    {
        let ghost qv = self@.queue;
        let len = self.queue.len();
        if len == 0 {
            return None;
        }
        let mut best: usize = 0;
        let mut i: usize = 1;
        proof {
            assert(qv.take(1).drop_last() =~= qv.take(0));
            assert(first_min_idx(qv.take(1)) == 0);
        }
        while i < len
            invariant
                1 <= i <= len,
                len == qv.len(),
                qv == self@.queue,
                len == self.queue.len(),
                0 <= best < i,
                best == first_min_idx(qv.take(i as int)),
            decreases len - i,
        {
            proof {
                let t = qv.take(i + 1);
                assert(t.drop_last() =~= qv.take(i as int));
                assert(t.last() == qv[i as int]);
                assert(t[first_min_idx(t.drop_last())] == qv[first_min_idx(qv.take(i as int))]);
            }
            if self.queue[i].release_ms < self.queue[best].release_ms {
                best = i;
            }
            i = i + 1;
        }
        proof {
            assert(qv.take(len as int) =~= qv);
            assert(best == first_min_idx(qv));
        }
        if self.queue[best].release_ms > now_ms {
            return None;
        }
        let h = self.queue.remove(best);
        proof {
            assert(self@.queue =~= qv.remove(best as int));
        }
        let dup_draw = self.rng.next_below(PPM);
        if dup_draw < self.cfg.incoming_duplicate_ppm {
            let copy = Datagram { bytes: clone_bytes(&h.packet.bytes), from: h.packet.from };
            let span = 2 * self.cfg.incoming_jitter_ms + 1;
            let off = self.rng.next_below(span);
            let raw = self.cfg.incoming_latency_ms + off;
            let delay = if raw >= self.cfg.incoming_jitter_ms {
                raw - self.cfg.incoming_jitter_ms
            } else {
                0
            };
            let release = sat_add(now_ms, delay);
            self.queue.push(Held { release_ms: release, packet: copy });
            proof {
                assert(self@.queue =~= cond_pop(old(self)@, now_ms).0.queue);
            }
        }
        Some(h.packet)
    }
}

} // verus!
