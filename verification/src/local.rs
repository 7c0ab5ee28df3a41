//! The in-process loopback backend.
//!
//! A `LocalChannel` is one endpoint of an in-process channel pair.
//! Each endpoint is bound to a synthetic local address, knows its
//! peer's address, and owns two FIFO queues: `pending`, the datagrams
//! delivered to it and not yet read, and `in_flight`, the datagrams
//! it has sent toward its peer. `send` tags a payload with the
//! sender's own address; `recv` dequeues in FIFO order; nothing is
//! ever dropped or duplicated at this layer (discarding is the
//! conditioner's job).
//!
//! The wire between the two endpoints is the explicit [`exchange`]
//! step: once per tick the driving loop moves each side's in-flight
//! datagrams onto the other side's pending queue, in order. (Each
//! endpoint is a plain owned value, so delivery across the pair is a
//! step of the tick loop rather than a side effect of `send`.) A
//! channel built alone is linked to itself, and its sends are
//! delivered to its own pending queue at once.

use vstd::prelude::*;
use vstd::slice::slice_to_vec;
use crate::addr::Addr;
use crate::addr::LOCALHOST_IP;
use crate::error::IoError;
use crate::packet::Datagram;
use crate::packet::DatagramV;

verus! {

/// One endpoint of the loopback channel pair.
#[derive(Debug)]
pub struct LocalChannel {
    addr: Addr,
    peer: Addr,
    inbox: Vec<Datagram>,
    outbox: Vec<Datagram>,
}

/// The mathematical value of a loopback endpoint.
pub struct LocalView {
    /// The synthetic address this endpoint is bound to.
    pub addr: Addr,
    /// The address of the endpoint its sends are delivered to.
    pub peer: Addr,
    /// Delivered to this endpoint, not yet read, oldest first.
    pub pending: Seq<DatagramV>,
    /// Sent by this endpoint, not yet carried across the pair.
    pub in_flight: Seq<DatagramV>,
}

impl View for LocalChannel {
    type V = LocalView;

    closed spec fn view(&self) -> LocalView {
        LocalView {
            addr: self.addr,
            peer: self.peer,
            pending: self.inbox@.map_values(|d: Datagram| d@),
            in_flight: self.outbox@.map_values(|d: Datagram| d@),
        }
    }
}

/// Whether `a` and `b` are the two ends of one channel pair.
pub open spec fn linked(a: LocalView, b: LocalView) -> bool {
    &&& a.peer == b.addr
    &&& b.peer == a.addr
}

/// The queue a sender at address `a` builds out of `payloads`, in order.
pub open spec fn sent_queue(a: Addr, payloads: Seq<Seq<u8>>) -> Seq<DatagramV> {
    payloads.map_values(|p: Seq<u8>| DatagramV { bytes: p, from: a })
}

impl LocalChannel {
    /// Whether this endpoint delivers to itself (a channel built
    /// alone, not as half of a pair).
    pub open spec fn self_linked(&self) -> bool {
        self@.peer == self@.addr
    }

    /// A lone loopback endpoint, linked to itself: its sends arrive
    /// on its own pending queue at once.
    pub fn new() -> (r: LocalChannel)
        ensures
            r@.addr == (Addr { ip: LOCALHOST_IP, port: 0 }),
            r@.peer == r@.addr,
            r@.pending == Seq::<DatagramV>::empty(),
            r@.in_flight == Seq::<DatagramV>::empty(),
    {
        let a = Addr::local_channel();
        let c = LocalChannel { addr: a, peer: a, inbox: Vec::new(), outbox: Vec::new() };
        proof {
            assert(c@.pending =~= Seq::<DatagramV>::empty());
            assert(c@.in_flight =~= Seq::<DatagramV>::empty());
        }
        c
    }

    /// A linked channel pair: two endpoints with distinct synthetic
    /// addresses, each the other's peer, all queues empty.
    pub fn pair() -> (r: (LocalChannel, LocalChannel))
        ensures
            r.0@.addr == (Addr { ip: LOCALHOST_IP, port: 1 }),
            r.1@.addr == (Addr { ip: LOCALHOST_IP, port: 2 }),
            linked(r.0@, r.1@),
            r.0@.pending == Seq::<DatagramV>::empty(),
            r.0@.in_flight == Seq::<DatagramV>::empty(),
            r.1@.pending == Seq::<DatagramV>::empty(),
            r.1@.in_flight == Seq::<DatagramV>::empty(),
    {
        let a_addr = Addr::localhost(1);
        let b_addr = Addr::localhost(2);
        let a = LocalChannel { addr: a_addr, peer: b_addr, inbox: Vec::new(), outbox: Vec::new() };
        let b = LocalChannel { addr: b_addr, peer: a_addr, inbox: Vec::new(), outbox: Vec::new() };
        proof {
            assert(a@.pending =~= Seq::<DatagramV>::empty());
            assert(a@.in_flight =~= Seq::<DatagramV>::empty());
            assert(b@.pending =~= Seq::<DatagramV>::empty());
            assert(b@.in_flight =~= Seq::<DatagramV>::empty());
        }
        (a, b)
    }

    /// The synthetic address this endpoint is bound to.
    pub fn local_addr(&self) -> (a: Addr)
        ensures
            a == self@.addr,
    {
        self.addr
    }

    /// Enqueue one payload, tagged with this endpoint's own address.
    /// The channel reaches exactly its one peer, so the destination
    /// only names that peer. A self-linked endpoint's payload arrives
    /// on its own pending queue at once; across a pair it joins the
    /// in-flight queue until the next [`exchange`]. Nothing is ever
    /// discarded.
    pub fn send(&mut self, payload: &[u8], _dest: Addr) -> (r: Result<(), IoError>)
        ensures
            r == Ok::<(), IoError>(()),
            final(self)@.addr == old(self)@.addr,
            final(self)@.peer == old(self)@.peer,
            old(self).self_linked() ==> {
                &&& final(self)@.pending == old(self)@.pending.push(
                    DatagramV { bytes: payload@, from: old(self)@.addr },
                )
                &&& final(self)@.in_flight == old(self)@.in_flight
            },
            !old(self).self_linked() ==> {
                &&& final(self)@.in_flight == old(self)@.in_flight.push(
                    DatagramV { bytes: payload@, from: old(self)@.addr },
                )
                &&& final(self)@.pending == old(self)@.pending
            },
    {
        let bytes = slice_to_vec(payload);
        let from = self.addr;
        if self.peer == self.addr {
            self.inbox.push(Datagram { bytes, from });
            proof {
                assert(self@.pending =~= old(self)@.pending.push(
                    DatagramV { bytes: payload@, from: old(self)@.addr },
                ));
            }
        } else {
            self.outbox.push(Datagram { bytes, from });
            proof {
                assert(self@.in_flight =~= old(self)@.in_flight.push(
                    DatagramV { bytes: payload@, from: old(self)@.addr },
                ));
            }
        }
        Ok(())
    }

    /// How many datagrams wait on the pending queue.
    pub fn pending_count(&self) -> (n: usize)
        ensures
            n == self@.pending.len(),
    {
        self.inbox.len()
    }

    /// Dequeue the oldest pending datagram, or `None` when the queue
    /// is empty. FIFO order is preserved and nothing is lost.
    pub fn recv(&mut self) -> (r: Result<Option<Datagram>, IoError>)
        ensures
            final(self)@.addr == old(self)@.addr,
            final(self)@.peer == old(self)@.peer,
            final(self)@.in_flight == old(self)@.in_flight,
            old(self)@.pending.len() == 0 ==> {
                &&& r == Ok::<Option<Datagram>, IoError>(None)
                &&& final(self)@.pending == old(self)@.pending
            },
            old(self)@.pending.len() > 0 ==> {
                &&& r matches Ok(Some(d)) && d@ == old(self)@.pending[0]
                &&& final(self)@.pending == old(self)@.pending.drop_first()
            },
    {
        if self.inbox.len() == 0 {
            Ok(None)
        } else {
            let d = self.inbox.remove(0);
            proof {
                assert(self@.pending =~= old(self)@.pending.drop_first());
            }
            Ok(Some(d))
        }
    }
}

/// The wire of a channel pair: carry each side's in-flight datagrams
/// onto the other side's pending queue, in order, leaving nothing in
/// flight. The driving tick loop calls this once per tick.
pub fn exchange(a: &mut LocalChannel, b: &mut LocalChannel)
    requires
        linked(old(a)@, old(b)@),
    ensures
        final(a)@.addr == old(a)@.addr,
        final(a)@.peer == old(a)@.peer,
        final(b)@.addr == old(b)@.addr,
        final(b)@.peer == old(b)@.peer,
        final(a)@.pending == old(a)@.pending + old(b)@.in_flight,
        final(b)@.pending == old(b)@.pending + old(a)@.in_flight,
        final(a)@.in_flight == Seq::<DatagramV>::empty(),
        final(b)@.in_flight == Seq::<DatagramV>::empty(),
{
    a.inbox.append(&mut b.outbox);
    b.inbox.append(&mut a.outbox);
    proof {
        assert(a@.pending =~= old(a)@.pending + old(b)@.in_flight);
        assert(b@.pending =~= old(b)@.pending + old(a)@.in_flight);
        assert(a@.in_flight =~= Seq::<DatagramV>::empty());
        assert(b@.in_flight =~= Seq::<DatagramV>::empty());
    }
}

/// Law: loopback delivery is exact. The queue built by sending
/// `payloads` from address `a` holds, at each position `i`, exactly
/// payload `i` tagged with `a` — so draining it in FIFO order returns
/// every sent payload exactly once, in send order, with the sender's
/// local address, with no loss and no duplication.
pub proof fn lemma_loopback_exact_fifo(a: Addr, payloads: Seq<Seq<u8>>, i: int)
    requires
        0 <= i < payloads.len(),
    ensures
        sent_queue(a, payloads).len() == payloads.len(),
        sent_queue(a, payloads)[i] == (DatagramV { bytes: payloads[i], from: a }),
{
}

/// Law: each further send appends exactly its own payload, tagged with
/// the sender's address, to the queue — the shape `send`'s contract
/// gives, so a run of sends builds `sent_queue` of the payloads.
pub proof fn lemma_sends_accumulate(a: Addr, payloads: Seq<Seq<u8>>, p: Seq<u8>)
    ensures
        sent_queue(a, payloads.push(p)) == sent_queue(a, payloads).push(
            DatagramV { bytes: p, from: a },
        ),
{
    assert(sent_queue(a, payloads.push(p)) =~= sent_queue(a, payloads).push(
        DatagramV { bytes: p, from: a },
    ));
}

} // verus!
