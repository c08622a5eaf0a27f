//! Server-side session: connection records, avatar spawn authority, and
//! shutdown coordination for an embedded (client-hosted) server.
//!
//! The spawn manager creates exactly one avatar per connected client: the
//! first level-load-complete acknowledgement from a client id spawns its
//! avatar, every further one is ignored. A shutdown request stops an embedded
//! server only when it comes from the client id recorded as the server's
//! owner at construction time.

use vstd::prelude::*;
use vstd::seq_lib::*;

use crate::protocol::{Level, ServerWelcome};
use crate::replication::Avatar;

verus! {

/// How a server instance is being run.
#[derive(Clone, Copy, Debug, PartialEq, Eq, Structural)]
pub enum ServerMode {
    /// A dedicated server with a window, for local inspection.
    Windowed,
    /// A dedicated server without rendering.
    Headless,
    /// An embedded server spawned by the client whose id it carries; only
    /// that client may shut it down.
    ClientHost(u64),
}

/// One record per connected transport session.
#[derive(Clone, Copy, Debug, PartialEq, Eq, Structural)]
pub struct ConnectionRecord {
    /// Opaque network identity of the peer.
    pub client_id: u64,
    /// Server tick at which the connection was established.
    pub connected_at: u64,
}

/// Outcome of handling a level-load-complete acknowledgement.
#[derive(Clone, Copy, Debug, PartialEq, Eq, Structural)]
pub enum SpawnOutcome {
    /// No avatar existed for the sender; one was created.
    Spawned,
    /// An avatar already existed; the duplicate signal was ignored.
    AlreadyExists,
}

/// The authoritative server state for one running server instance.
#[derive(Clone, Debug)]
pub struct ServerSession {
    pub mode: ServerMode,
    /// Whether the server is running and accepting connections. An embedded
    /// server that granted its owner's shutdown request is no longer running.
    pub running: bool,
    /// The authoritative level, set once at startup and read-only afterwards.
    pub current_level: Level,
    pub connections: Vec<ConnectionRecord>,
    pub avatars: Vec<Avatar>,
}

/// Mathematical model of a server session.
pub ghost struct ServerSessionView {
    pub mode: ServerMode,
    pub running: bool,
    pub current_level: Level,
    pub connections: Seq<ConnectionRecord>,
    pub avatars: Seq<Avatar>,
}

impl View for ServerSession {
    type V = ServerSessionView;

    open spec fn view(&self) -> ServerSessionView {
        ServerSessionView {
            mode: self.mode,
            running: self.running,
            current_level: self.current_level,
            connections: self.connections@,
            avatars: self.avatars@,
        }
    }
}

/// Keep the records whose client id differs from `client_id`.
pub open spec fn spec_keep_conn(client_id: u64) -> spec_fn(ConnectionRecord) -> bool {
    |r: ConnectionRecord| r.client_id != client_id
}

/// Keep the avatars whose owner differs from `client_id`.
pub open spec fn spec_keep_avatar(client_id: u64) -> spec_fn(Avatar) -> bool {
    |a: Avatar| a.player.0 != client_id
}

impl ServerSessionView {
    /// Whether an avatar owned by `client_id` exists.
    pub open spec fn has_avatar_for(self, client_id: u64) -> bool {
        exists|i: int| 0 <= i < self.avatars.len() && self.avatars[i].player.0 == client_id
    }

    /// Whether a connection record for `client_id` exists.
    pub open spec fn has_connection(self, client_id: u64) -> bool {
        exists|i: int|
            0 <= i < self.connections.len() && self.connections[i].client_id == client_id
    }

    /// At most one avatar per client id, and one record per peer.
    pub open spec fn wf(self) -> bool {
        &&& forall|i: int, j: int|
            0 <= i < self.avatars.len() && 0 <= j < self.avatars.len() && self.avatars[i].player.0
                == self.avatars[j].player.0 ==> i == j
        &&& forall|i: int, j: int|
            0 <= i < self.connections.len() && 0 <= j < self.connections.len()
                && self.connections[i].client_id == self.connections[j].client_id ==> i == j
    }

    /// A freshly constructed, not yet started server.
    pub open spec fn init(mode: ServerMode) -> ServerSessionView {
        ServerSessionView {
            mode,
            running: false,
            current_level: Level::Void,
            connections: Seq::empty(),
            avatars: Seq::empty(),
        }
    }

    /// What starting the server does: it begins listening and declares the
    /// level it simulates.
    pub open spec fn spec_start(self) -> ServerSessionView {
        ServerSessionView { running: true, current_level: Level::Example, ..self }
    }

    /// What recording a successful connection does: any stale record for the
    /// same peer is replaced by a brand-new one.
    pub open spec fn spec_connect(self, client_id: u64, tick: u64) -> ServerSessionView {
        ServerSessionView {
            connections: self.connections.filter(spec_keep_conn(client_id)).push(
                ConnectionRecord { client_id, connected_at: tick },
            ),
            ..self
        }
    }

    /// What handling a level-load-complete acknowledgement does: the first
    /// acknowledgement from a client spawns its avatar, duplicates change
    /// nothing.
    pub open spec fn spec_load_complete(self, from: u64) -> ServerSessionView {
        if self.has_avatar_for(from) {
            self
        } else {
            ServerSessionView { avatars: self.avatars.push(Avatar::spec_for_owner(from)), ..self }
        }
    }

    /// What a transport disconnect of `client_id` does: its connection record
    /// and any avatar it owns disappear, everything else stays, in order.
    pub open spec fn spec_disconnect(self, client_id: u64) -> ServerSessionView {
        ServerSessionView {
            connections: self.connections.filter(spec_keep_conn(client_id)),
            avatars: self.avatars.filter(spec_keep_avatar(client_id)),
            ..self
        }
    }

    /// What a shutdown request from `from` does to the server: an embedded
    /// server still running stops for its owner; everything else is ignored.
    pub open spec fn spec_shutdown(self, from: u64) -> ServerSessionView {
        if self.mode == ServerMode::ClientHost(from) && self.running {
            ServerSessionView {
                running: false,
                connections: Seq::empty(),
                avatars: Seq::empty(),
                ..self
            }
        } else {
            self
        }
    }
}

impl ServerSession {
    /// Construct a server instance for the given mode. Nothing is loaded and
    /// nobody is connected until `start_server` runs.
    pub fn new(mode: ServerMode) -> (s: ServerSession)
        ensures
            s@ == ServerSessionView::init(mode),
            s@.wf(),
    {
        let s = ServerSession {
            mode,
            running: false,
            current_level: Level::Void,
            connections: Vec::new(),
            avatars: Vec::new(),
        };
        proof {
            assert(s@ =~= ServerSessionView::init(mode));
        }
        s
    }

    /// Begin listening and declare the level this server simulates. The
    /// current level is mutated exactly once per session, here.
    pub fn start_server(&mut self)
        ensures
            final(self)@ == old(self)@.spec_start(),
            old(self)@.wf() ==> final(self)@.wf(),
    {
        self.running = true;
        self.current_level = Level::Example;
    }

    /// Record a successful transport-level connection and produce the welcome
    /// message owed to exactly that client. A previously seen client id is
    /// treated as a brand-new connection: the old record is replaced.
    pub fn on_client_connect_success(&mut self, client_id: u64, tick: u64) -> (welcome:
        ServerWelcome)
        requires
            old(self)@.wf(),
        ensures
            final(self)@.wf(),
            welcome == (ServerWelcome { current_level: old(self).current_level }),
            final(self)@ == old(self)@.spec_connect(client_id, tick),
            final(self)@.has_connection(client_id),
    {
        let kept = remove_connection(&self.connections, client_id);
        self.connections = kept;
        self.connections.push(ConnectionRecord { client_id, connected_at: tick });
        proof {
            let pred = spec_keep_conn(client_id);
            let orig = old(self)@.connections;
            lemma_filter_keeps_distinct(orig, pred, |r: ConnectionRecord| r.client_id);
            let conns = self@.connections;
            assert forall|i: int, j: int|
                0 <= i < conns.len() && 0 <= j < conns.len() && conns[i].client_id
                    == conns[j].client_id implies i == j by {
                if i < conns.len() - 1 {
                    orig.lemma_filter_pred(pred, i);
                }
                if j < conns.len() - 1 {
                    orig.lemma_filter_pred(pred, j);
                }
            }
            assert(conns[conns.len() - 1].client_id == client_id);
        }
        ServerWelcome { current_level: self.current_level }
    }

    /// The welcome for this client could not be sent: rather than leaving the
    /// peer half-initialized, disconnect it, which tears its state down
    /// through the ordinary disconnect path.
    pub fn on_welcome_send_failed(&mut self, client_id: u64)
        requires
            old(self)@.wf(),
        ensures
            final(self)@.wf(),
            final(self)@ == old(self)@.spec_disconnect(client_id),
    {
        self.on_client_disconnect(client_id);
    }

    /// Spawn authority: on a level-load-complete acknowledgement, create an
    /// avatar for the sender unless one already exists; a duplicate or
    /// replayed acknowledgement changes nothing but is reported.
    pub fn on_client_load_complete(&mut self, from: u64) -> (outcome: SpawnOutcome)
        requires
            old(self)@.wf(),
        ensures
            final(self)@.wf(),
            final(self)@ == old(self)@.spec_load_complete(from),
            outcome == (if old(self)@.has_avatar_for(from) {
                SpawnOutcome::AlreadyExists
            } else {
                SpawnOutcome::Spawned
            }),
            final(self)@.has_avatar_for(from),
    {
        let exists_already = self.has_avatar_for(from);
        if exists_already {
            SpawnOutcome::AlreadyExists
        } else {
            self.avatars.push(Avatar::for_owner(from));
            proof {
                let avs = self@.avatars;
                assert(avs[avs.len() - 1].player.0 == from);
                assert forall|i: int, j: int|
                    0 <= i < avs.len() && 0 <= j < avs.len() && avs[i].player.0
                        == avs[j].player.0 implies i == j by {}
            }
            SpawnOutcome::Spawned
        }
    }

    /// Whether an avatar owned by `client_id` exists right now.
    pub fn has_avatar_for(&self, client_id: u64) -> (r: bool)
        ensures
            r == self@.has_avatar_for(client_id),
    {
        let mut i: usize = 0;
        while i < self.avatars.len()
            invariant
                0 <= i <= self.avatars@.len(),
                forall|k: int| 0 <= k < i ==> self.avatars@[k].player.0 != client_id,
            decreases self.avatars@.len() - i,
        {
            if self.avatars[i].player.0 == client_id {
                return true;
            }
            i = i + 1;
        }
        false
    }

    /// Transport-level disconnect: destroy the connection record and remove
    /// any avatar owned by the leaving client, as replication teardown does.
    pub fn on_client_disconnect(&mut self, client_id: u64)
        requires
            old(self)@.wf(),
        ensures
            final(self)@.wf(),
            final(self)@ == old(self)@.spec_disconnect(client_id),
            !final(self)@.has_avatar_for(client_id),
            !final(self)@.has_connection(client_id),
    {
        self.connections = remove_connection(&self.connections, client_id);
        self.avatars = remove_avatars(&self.avatars, client_id);
        proof {
            let cpred = spec_keep_conn(client_id);
            let apred = spec_keep_avatar(client_id);
            let oldconns = old(self)@.connections;
            let oldavs = old(self)@.avatars;
            assert forall|i: int| 0 <= i < self@.connections.len() implies self@.connections[i].client_id
                != client_id by {
                oldconns.lemma_filter_pred(cpred, i);
            }
            assert forall|i: int| 0 <= i < self@.avatars.len() implies self@.avatars[i].player.0
                != client_id by {
                oldavs.lemma_filter_pred(apred, i);
            }
            lemma_filter_keeps_distinct(oldconns, cpred, |r: ConnectionRecord| r.client_id);
            lemma_filter_keeps_distinct(oldavs, apred, |a: Avatar| a.player.0);
        }
    }

    /// Shutdown coordination: an embedded server stops when, and only when,
    /// its recorded owner asks while it is still running. Requests from any
    /// other client id, repeated requests, and requests to a dedicated server
    /// change nothing.
    pub fn on_host_request_shutdown(&mut self, from: u64) -> (stopped: bool)
        requires
            old(self)@.wf(),
        ensures
            final(self)@.wf(),
            final(self)@ == old(self)@.spec_shutdown(from),
            stopped == (old(self).mode == ServerMode::ClientHost(from) && old(self).running),
    {
        match self.mode {
            ServerMode::Windowed => false,
            ServerMode::Headless => false,
            ServerMode::ClientHost(owner) => {
                if from == owner && self.running {
                    self.running = false;
                    self.connections = Vec::new();
                    self.avatars = Vec::new();
                    proof {
                        assert(self@ =~= old(self)@.spec_shutdown(from));
                    }
                    true
                } else {
                    false
                }
            },
        }
    }
}

/// A level-load-complete acknowledgement keeps the server well formed,
/// guarantees an avatar for its sender, and leaves every other client's
/// avatar existence and the rest of the server untouched.
pub proof fn lemma_load_complete_effects(v: ServerSessionView, from: u64, c: u64)
    requires
        v.wf(),
    ensures
        v.spec_load_complete(from).wf(),
        v.spec_load_complete(from).has_avatar_for(from),
        c != from ==> v.spec_load_complete(from).has_avatar_for(c) == v.has_avatar_for(c),
        v.spec_load_complete(from).mode == v.mode,
        v.spec_load_complete(from).running == v.running,
        v.spec_load_complete(from).current_level == v.current_level,
        v.spec_load_complete(from).connections == v.connections,
{
    if !v.has_avatar_for(from) {
        let v2 = v.spec_load_complete(from);
        assert(v2.avatars[v2.avatars.len() - 1].player.0 == from);
        assert forall|i: int, j: int|
            0 <= i < v2.avatars.len() && 0 <= j < v2.avatars.len() && v2.avatars[i].player.0
                == v2.avatars[j].player.0 implies i == j by {}
        if c != from && v.has_avatar_for(c) {
            let w = choose|i: int| 0 <= i < v.avatars.len() && v.avatars[i].player.0 == c;
            assert(v2.avatars[w].player.0 == c);
        }
    }
}

/// The server state after a sequence of level-load-complete messages, with
/// no intervening disconnect.
pub open spec fn spec_run_load_completes(v: ServerSessionView, senders: Seq<u64>) -> ServerSessionView
    decreases senders.len(),
{
    if senders.len() == 0 {
        v
    } else {
        spec_run_load_completes(v.spec_load_complete(senders[0]), senders.drop_first())
    }
}

/// How many avatars such a run creates for client `c`.
pub open spec fn spec_spawn_count_for(v: ServerSessionView, senders: Seq<u64>, c: u64) -> nat
    decreases senders.len(),
{
    if senders.len() == 0 {
        0
    } else {
        (if senders[0] == c && !v.has_avatar_for(c) {
            1nat
        } else {
            0nat
        }) + spec_spawn_count_for(v.spec_load_complete(senders[0]), senders.drop_first(), c)
    }
}

/// At-most-one avatar: over any sequence of level-load-complete messages
/// with no intervening disconnect, a client id that starts without an avatar
/// and acknowledges at least once gets exactly one avatar created, ends with
/// an avatar, and the server stays well formed (so no client ever owns two).
pub proof fn lemma_at_most_one_avatar(v: ServerSessionView, senders: Seq<u64>, c: u64)
    requires
        v.wf(),
    ensures
        spec_run_load_completes(v, senders).wf(),
        spec_spawn_count_for(v, senders, c) == (if v.has_avatar_for(c) {
            0nat
        } else if senders.contains(c) {
            1nat
        } else {
            0nat
        }),
        spec_run_load_completes(v, senders).has_avatar_for(c) == (v.has_avatar_for(c)
            || senders.contains(c)),
    decreases senders.len(),
{
    if senders.len() == 0 {
        assert(!senders.contains(c));
    } else {
        let first = senders[0];
        let rest = senders.drop_first();
        let v2 = v.spec_load_complete(first);
        lemma_load_complete_effects(v, first, c);
        lemma_at_most_one_avatar(v2, rest, c);
        assert(senders.contains(c) == (first == c || rest.contains(c))) by {
            if senders.contains(c) {
                let i = choose|i: int| 0 <= i < senders.len() && senders[i] == c;
                if i > 0 {
                    assert(rest[i - 1] == c);
                }
            }
            if rest.contains(c) {
                let i = choose|i: int| 0 <= i < rest.len() && rest[i] == c;
                assert(senders[i + 1] == c);
            }
            if first == c {
                assert(senders[0] == c);
            }
        }
    }
}

/// Host-mode authority: a shutdown request from anyone but the embedded
/// server's owner changes nothing; the owner's request stops the server
/// exactly once, a repeated request being a no-op on the already stopped
/// server.
pub proof fn lemma_host_mode_authority(v: ServerSessionView, owner: u64, from: u64)
    requires
        v.mode == ServerMode::ClientHost(owner),
    ensures
        from != owner ==> v.spec_shutdown(from) == v,
        from == owner && v.running ==> !v.spec_shutdown(from).running,
        v.spec_shutdown(from).spec_shutdown(from) == v.spec_shutdown(from),
{
}

/// The connection records that survive a disconnect of `client_id`.
fn remove_connection(conns: &Vec<ConnectionRecord>, client_id: u64) -> (out: Vec<ConnectionRecord>)
    ensures
        out@ == conns@.filter(spec_keep_conn(client_id)),
{
    let ghost pred = spec_keep_conn(client_id);
    let mut out: Vec<ConnectionRecord> = Vec::new();
    let mut i: usize = 0;
    while i < conns.len()
        invariant
            0 <= i <= conns@.len(),
            out@ == conns@.take(i as int).filter(pred),
            pred == spec_keep_conn(client_id),
        decreases conns@.len() - i,
    {
        let r = conns[i];
        proof {
            assert(conns@.take(i as int + 1) == conns@.take(i as int) + seq![conns@[i as int]]);
            Seq::filter_distributes_over_add(conns@.take(i as int), seq![conns@[i as int]], pred);
            lemma_filter_single(conns@[i as int], pred);
        }
        if r.client_id != client_id {
            out.push(r);
        }
        i = i + 1;
    }
    proof {
        assert(conns@.take(conns@.len() as int) == conns@);
    }
    out
}

/// The avatars that survive a disconnect of `client_id`.
fn remove_avatars(avatars: &Vec<Avatar>, client_id: u64) -> (out: Vec<Avatar>)
    ensures
        out@ == avatars@.filter(spec_keep_avatar(client_id)),
{
    let ghost pred = spec_keep_avatar(client_id);
    let mut out: Vec<Avatar> = Vec::new();
    let mut i: usize = 0;
    while i < avatars.len()
        invariant
            0 <= i <= avatars@.len(),
            out@ == avatars@.take(i as int).filter(pred),
            pred == spec_keep_avatar(client_id),
        decreases avatars@.len() - i,
    {
        let a = avatars[i];
        proof {
            assert(avatars@.take(i as int + 1) == avatars@.take(i as int) + seq![
                avatars@[i as int],
            ]);
            Seq::filter_distributes_over_add(
                avatars@.take(i as int),
                seq![avatars@[i as int]],
                pred,
            );
            lemma_filter_single(avatars@[i as int], pred);
        }
        if a.player.0 != client_id {
            out.push(a);
        }
        i = i + 1;
    }
    proof {
        assert(avatars@.take(avatars@.len() as int) == avatars@);
    }
    out
}

/// Filtering a one-element sequence keeps or drops that element.
proof fn lemma_filter_single<A>(x: A, pred: spec_fn(A) -> bool)
    ensures
        seq![x].filter(pred) == (if pred(x) {
            seq![x]
        } else {
            Seq::<A>::empty()
        }),
{
    reveal_with_fuel(Seq::filter, 2);
    assert(seq![x].drop_last() == Seq::<A>::empty());
}

/// How many of the first `p` elements survive the filter.
spec fn filtered_before<A>(s: Seq<A>, pred: spec_fn(A) -> bool, p: int) -> int {
    s.take(p).filter(pred).len() as int
}

/// Every position of a filtered sequence comes from a position of the
/// original that the filter kept, and the mapping preserves order.
proof fn lemma_filter_index_of<A>(s: Seq<A>, pred: spec_fn(A) -> bool, i: int)
    requires
        0 <= i < s.filter(pred).len(),
    ensures
        exists|p: int|
            0 <= p < s.len() && s[p] == s.filter(pred)[i] && filtered_before(s, pred, p) == i,
    decreases s.len(),
{
    let out = s.filter(pred);
    s.lemma_filter_len(pred);
    reveal(Seq::filter);
    if s.len() > 0 {
        let prefix = s.drop_last();
        if pred(s.last()) && i == out.len() - 1 {
            let p = s.len() - 1;
            assert(s.take(p) == prefix);
            assert(filtered_before(s, pred, p) == i);
        } else {
            lemma_filter_index_of(prefix, pred, i);
            let p = choose|p: int|
                0 <= p < prefix.len() && prefix[p] == prefix.filter(pred)[i] && filtered_before(
                    prefix,
                    pred,
                    p,
                ) == i;
            assert(s.take(p) == prefix.take(p));
            assert(s[p] == prefix[p]);
            assert(filtered_before(s, pred, p) == i);
        }
    }
}

/// If a key is unique per position in a sequence, it stays unique per
/// position after filtering.
proof fn lemma_filter_keeps_distinct<A, K>(s: Seq<A>, pred: spec_fn(A) -> bool, key: spec_fn(A) -> K)
    requires
        forall|p: int, q: int|
            0 <= p < s.len() && 0 <= q < s.len() && key(s[p]) == key(s[q]) ==> p == q,
    ensures
        forall|i: int, j: int|
            #![trigger s.filter(pred)[i], s.filter(pred)[j]]
            0 <= i < s.filter(pred).len() && 0 <= j < s.filter(pred).len() && key(s.filter(pred)[i])
                == key(s.filter(pred)[j]) ==> i == j,
{
    let out = s.filter(pred);
    assert forall|i: int, j: int|
        0 <= i < out.len() && 0 <= j < out.len() && key(out[i]) == key(out[j]) implies i == j by {
        lemma_filter_index_of(s, pred, i);
        lemma_filter_index_of(s, pred, j);
        let pi = choose|p: int|
            0 <= p < s.len() && s[p] == out[i] && filtered_before(s, pred, p) == i;
        let pj = choose|p: int|
            0 <= p < s.len() && s[p] == out[j] && filtered_before(s, pred, p) == j;
        assert(key(s[pi]) == key(s[pj]));
        assert(pi == pj);
    }
}

} // verus!
