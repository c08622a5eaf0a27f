//! Transport abstraction: a real in-process channel pair, and a verified
//! model of a conditioned bidirectional link.
//!
//! Host mode wires client and server in the same process through a pair of
//! unbounded multi-producer/multi-consumer queues. The model transport gives
//! the same queue semantics a mathematical form and adds a link conditioner
//! (delay in ticks); none of its operations depend on which backend the
//! transport stands for, which is what makes the handshake logic blind to
//! the transport choice.

use vstd::prelude::*;

use crate::protocol::{ClientToServer, ServerToClient};

verus! {

/// A client-to-server message together with the sender's identity, as the
/// transport envelope delivers it to the server.
#[derive(Clone, Copy, Debug, PartialEq, Eq, Structural)]
pub struct FromClient {
    pub from: u64,
    pub message: ClientToServer,
}

/// Which backend carries the traffic.
#[derive(Clone, Copy, Debug, PartialEq, Eq, Structural)]
pub enum TransportKind {
    /// In-process queue pair between a client and its embedded server.
    LocalChannel,
    /// A socket-style networked connection.
    Networked,
}

/// Simulated adverse network conditions, applied to a networked link. The
/// handshake rides a reliable channel, so conditioned loss delays handshake
/// messages rather than dropping them; jitter and loss rates below concern
/// the best-effort state-sync traffic.
#[derive(Clone, Copy, Debug, PartialEq, Eq, Structural)]
pub struct LinkConditioner {
    /// Added delivery delay, in simulation ticks.
    pub latency_ticks: u64,
    /// Bound on additional random delay, in simulation ticks.
    pub jitter_ticks: u64,
    /// Packet-loss rate for best-effort traffic, in parts per ten thousand.
    pub loss_per_myriad: u16,
}

impl LinkConditioner {
    pub open spec fn spec_is_zero(self) -> bool {
        self == LinkConditioner { latency_ticks: 0, jitter_ticks: 0, loss_per_myriad: 0 }
    }

    /// A conditioner that leaves the link untouched.
    pub fn zero() -> (c: LinkConditioner)
        ensures
            c.spec_is_zero(),
    {
        LinkConditioner { latency_ticks: 0, jitter_ticks: 0, loss_per_myriad: 0 }
    }
}

/// A message sitting in a model channel, due at an absolute tick.
#[derive(Clone, Copy, Debug, PartialEq, Eq, Structural)]
pub struct InFlight<M> {
    pub message: M,
    pub deliver_at: u64,
}

/// One direction of the model link: a reliable, unordered-delivery queue
/// whose messages become visible once their due tick is reached.
#[derive(Clone, Debug)]
pub struct ModelChannel<M> {
    pub now: u64,
    pub queue: Vec<InFlight<M>>,
}

/// Mathematical model of one channel direction.
pub ghost struct ModelChannelView<M> {
    pub now: u64,
    pub queue: Seq<InFlight<M>>,
}

impl<M> View for ModelChannel<M> {
    type V = ModelChannelView<M>;

    open spec fn view(&self) -> ModelChannelView<M> {
        ModelChannelView { now: self.now, queue: self.queue@ }
    }
}

/// Addition that stops at the largest representable tick.
pub open spec fn spec_sat_add(a: u64, b: u64) -> u64 {
    if a + b > u64::MAX {
        u64::MAX
    } else {
        (a + b) as u64
    }
}

pub(crate) fn saturating_add_ticks(a: u64, b: u64) -> (r: u64)
    ensures
        r == spec_sat_add(a, b),
{
    if a > u64::MAX - b {
        u64::MAX
    } else {
        a + b
    }
}

impl<M> ModelChannelView<M> {
    /// Enqueue a message due `delay` ticks from now.
    pub open spec fn spec_send(self, message: M, delay: u64) -> ModelChannelView<M> {
        ModelChannelView {
            queue: self.queue.push(
                InFlight { message, deliver_at: spec_sat_add(self.now, delay) },
            ),
            ..self
        }
    }

    /// Whether the head of the queue is due.
    pub open spec fn spec_can_deliver(self) -> bool {
        self.queue.len() > 0 && self.queue[0].deliver_at <= self.now
    }

    /// The channel after a poll.
    pub open spec fn spec_poll(self) -> ModelChannelView<M> {
        if self.spec_can_deliver() {
            ModelChannelView { queue: self.queue.drop_first(), ..self }
        } else {
            self
        }
    }

    /// What a poll returns.
    pub open spec fn spec_polled(self) -> Option<M> {
        if self.spec_can_deliver() {
            Some(self.queue[0].message)
        } else {
            None
        }
    }

    /// One tick of time passing.
    pub open spec fn spec_tick(self) -> ModelChannelView<M> {
        ModelChannelView { now: spec_sat_add(self.now, 1), ..self }
    }
}

impl<M> ModelChannel<M> {
    /// An empty channel at tick zero.
    pub fn new() -> (c: ModelChannel<M>)
        ensures
            c@.now == 0,
            c@.queue == Seq::<InFlight<M>>::empty(),
    {
        let c = ModelChannel { now: 0, queue: Vec::new() };
        proof {
            assert(c@.queue =~= Seq::<InFlight<M>>::empty());
        }
        c
    }

    /// Enqueue a message due `delay` ticks from now. The queue is unbounded:
    /// sending never fails and never blocks.
    pub fn send(&mut self, message: M, delay: u64)
        ensures
            final(self)@ == old(self)@.spec_send(message, delay),
    {
        let deliver_at = saturating_add_ticks(self.now, delay);
        self.queue.push(InFlight { message, deliver_at });
    }

    /// Non-blocking poll: the oldest due message, if any.
    pub fn poll(&mut self) -> (m: Option<M>)
        ensures
            final(self)@ == old(self)@.spec_poll(),
            m == old(self)@.spec_polled(),
    {
        if self.queue.len() > 0 {
            let due = self.queue[0].deliver_at <= self.now;
            if due {
                let head = self.queue.remove(0);
                proof {
                    assert(final(self)@.queue =~= old(self)@.queue.drop_first());
                }
                return Some(head.message);
            }
        }
        None
    }

    /// Advance time by one tick.
    pub fn tick(&mut self)
        ensures
            final(self)@ == old(self)@.spec_tick(),
    {
        self.now = saturating_add_ticks(self.now, 1);
    }
}

/// Both directions of a link between one client and one server, plus the
/// replication stream carrying avatar appearances to the client.
#[derive(Clone, Debug)]
pub struct PairedTransport {
    pub kind: TransportKind,
    pub conditioner: LinkConditioner,
    pub to_server: ModelChannel<FromClient>,
    pub to_client: ModelChannel<ServerToClient>,
    /// Avatar owners whose entities are being replicated to the client.
    pub replication: ModelChannel<u64>,
}

/// Mathematical model of a paired transport.
pub ghost struct PairedTransportView {
    pub kind: TransportKind,
    pub conditioner: LinkConditioner,
    pub to_server: ModelChannelView<FromClient>,
    pub to_client: ModelChannelView<ServerToClient>,
    pub replication: ModelChannelView<u64>,
}

impl View for PairedTransport {
    type V = PairedTransportView;

    open spec fn view(&self) -> PairedTransportView {
        PairedTransportView {
            kind: self.kind,
            conditioner: self.conditioner,
            to_server: self.to_server@,
            to_client: self.to_client@,
            replication: self.replication@,
        }
    }
}

impl PairedTransportView {
    /// Everything that delivery behaviour can depend on: the queues and the
    /// conditioner. The backend kind is deliberately not part of it.
    pub open spec fn behaviour(self) -> PairedTransportView {
        PairedTransportView { kind: TransportKind::LocalChannel, ..self }
    }
}

impl PairedTransport {
    /// The in-process queue pair for host mode: nothing conditions the link.
    pub fn local_channel() -> (t: PairedTransport)
        ensures
            t@.kind == TransportKind::LocalChannel,
            t@.conditioner.spec_is_zero(),
            t@.to_server.queue == Seq::<InFlight<FromClient>>::empty(),
            t@.to_client.queue == Seq::<InFlight<ServerToClient>>::empty(),
            t@.replication.queue == Seq::<InFlight<u64>>::empty(),
            t@.to_server.now == 0 && t@.to_client.now == 0 && t@.replication.now == 0,
    {
        PairedTransport {
            kind: TransportKind::LocalChannel,
            conditioner: LinkConditioner::zero(),
            to_server: ModelChannel::new(),
            to_client: ModelChannel::new(),
            replication: ModelChannel::new(),
        }
    }

    /// A networked link under the given simulated conditions.
    pub fn networked(conditioner: LinkConditioner) -> (t: PairedTransport)
        ensures
            t@.kind == TransportKind::Networked,
            t@.conditioner == conditioner,
            t@.to_server.queue == Seq::<InFlight<FromClient>>::empty(),
            t@.to_client.queue == Seq::<InFlight<ServerToClient>>::empty(),
            t@.replication.queue == Seq::<InFlight<u64>>::empty(),
            t@.to_server.now == 0 && t@.to_client.now == 0 && t@.replication.now == 0,
    {
        PairedTransport {
            kind: TransportKind::Networked,
            conditioner,
            to_server: ModelChannel::new(),
            to_client: ModelChannel::new(),
            replication: ModelChannel::new(),
        }
    }

    /// Send a client message, delayed by the conditioner's added latency.
    pub fn send_to_server(&mut self, from: u64, message: ClientToServer)
        ensures
            final(self)@ == (PairedTransportView {
                to_server: old(self)@.to_server.spec_send(
                    FromClient { from, message },
                    old(self).conditioner.latency_ticks,
                ),
                ..old(self)@
            }),
    {
        let delay = self.conditioner.latency_ticks;
        self.to_server.send(FromClient { from, message }, delay);
    }

    /// Send a server message, delayed by the conditioner's added latency.
    pub fn send_to_client(&mut self, message: ServerToClient)
        ensures
            final(self)@ == (PairedTransportView {
                to_client: old(self)@.to_client.spec_send(
                    message,
                    old(self).conditioner.latency_ticks,
                ),
                ..old(self)@
            }),
    {
        let delay = self.conditioner.latency_ticks;
        self.to_client.send(message, delay);
    }

    /// Begin replicating an avatar to the client.
    pub fn replicate_avatar(&mut self, owner: u64)
        ensures
            final(self)@ == (PairedTransportView {
                replication: old(self)@.replication.spec_send(
                    owner,
                    old(self).conditioner.latency_ticks,
                ),
                ..old(self)@
            }),
    {
        let delay = self.conditioner.latency_ticks;
        self.replication.send(owner, delay);
    }

    /// The server's non-blocking read of client traffic.
    pub fn poll_at_server(&mut self) -> (m: Option<FromClient>)
        ensures
            final(self)@ == (PairedTransportView {
                to_server: old(self)@.to_server.spec_poll(),
                ..old(self)@
            }),
            m == old(self)@.to_server.spec_polled(),
    {
        self.to_server.poll()
    }

    /// The client's non-blocking read of server traffic.
    pub fn poll_at_client(&mut self) -> (m: Option<ServerToClient>)
        ensures
            final(self)@ == (PairedTransportView {
                to_client: old(self)@.to_client.spec_poll(),
                ..old(self)@
            }),
            m == old(self)@.to_client.spec_polled(),
    {
        self.to_client.poll()
    }

    /// The client's non-blocking read of the replication stream.
    pub fn poll_replication(&mut self) -> (owner: Option<u64>)
        ensures
            final(self)@ == (PairedTransportView {
                replication: old(self)@.replication.spec_poll(),
                ..old(self)@
            }),
            owner == old(self)@.replication.spec_polled(),
    {
        self.replication.poll()
    }

    /// One simulation tick passes on the link.
    pub fn tick(&mut self)
        ensures
            final(self)@ == (PairedTransportView {
                to_server: old(self)@.to_server.spec_tick(),
                to_client: old(self)@.to_client.spec_tick(),
                replication: old(self)@.replication.spec_tick(),
                ..old(self)@
            }),
    {
        self.to_server.tick();
        self.to_client.tick();
        self.replication.tick();
    }

    /// The client drops the link: it stops reading, so traffic bound for it
    /// disappears, while everything it already handed to the reliable
    /// server-bound channel remains deliverable.
    pub fn disconnect(&mut self)
        ensures
            final(self)@ == (PairedTransportView {
                to_client: ModelChannelView { queue: Seq::empty(), ..old(self)@.to_client },
                replication: ModelChannelView { queue: Seq::empty(), ..old(self)@.replication },
                ..old(self)@
            }),
    {
        self.to_client.queue.clear();
        self.replication.queue.clear();
        proof {
            assert(final(self)@.to_client.queue =~= Seq::<InFlight<ServerToClient>>::empty());
            assert(final(self)@.replication.queue =~= Seq::<InFlight<u64>>::empty());
        }
    }
}

} // verus!
