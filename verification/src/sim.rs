//! One client, one server, one link: a closed simulation of the whole
//! session lifecycle, used to state and prove the end-to-end properties of
//! the handshake and exercised tick by tick in tests.
//!
//! Each tick delivers at most one due message per direction, advances the
//! asset loader, and lets both state machines absorb what arrived. The
//! simulation owns the client's replicated world, so teardown completeness
//! is visible here, and it owns the transport, so transport symmetry can be
//! stated: no step of it reads the transport's backend kind.

use vstd::prelude::*;

use crate::game_state::{ClientAction, ClientEvent, ClientSession, GameState};
use crate::protocol::{
    ClientLevelLoadComplete,
    ClientToServer,
    HostRequestShutdown,
    Level,
    ServerToClient,
    ServerWelcome,
};
use crate::server::{ServerMode, ServerSession, ServerSessionView, SpawnOutcome};
use crate::transport::{
    saturating_add_ticks,
    spec_sat_add,
    FromClient,
    ModelChannelView,
    PairedTransport,
    PairedTransportView,
};

verus! {

/// An entity in the client's world that belongs to the running session and
/// must disappear with it: loaded level geometry and replicated avatars.
#[derive(Clone, Copy, Debug, PartialEq, Eq, Structural)]
pub enum SessionEntity {
    LevelGeometry(Level),
    ReplicatedAvatar(u64),
}

/// A client, a server and the link between them, advanced in lockstep.
#[derive(Clone, Debug)]
pub struct Simulation {
    pub client: ClientSession,
    pub server: ServerSession,
    pub transport: PairedTransport,
    /// The client's replicated world; everything in it is session-scoped.
    pub world: Vec<SessionEntity>,
    /// Whether the client's transport connection is up.
    pub client_connected: bool,
    /// Set when an embedded server was just spawned; consumed by the next
    /// tick, which tells the client its server is ready.
    pub embedded_ready: bool,
    /// The level the asset subsystem is currently loading, if any.
    pub pending_load: Option<Level>,
    /// Ticks the current load still needs.
    pub load_ticks_remaining: u64,
    /// How long loading a level takes in this simulation.
    pub asset_load_ticks: u64,
    /// Logical steps taken so far.
    pub steps: u64,
}

/// Mathematical model of the whole simulation.
pub ghost struct SimulationView {
    pub client: ClientSession,
    pub server: ServerSessionView,
    pub transport: PairedTransportView,
    pub world: Seq<SessionEntity>,
    pub client_connected: bool,
    pub embedded_ready: bool,
    pub pending_load: Option<Level>,
    pub load_ticks_remaining: u64,
    pub asset_load_ticks: u64,
    pub steps: u64,
}

impl View for Simulation {
    type V = SimulationView;

    open spec fn view(&self) -> SimulationView {
        SimulationView {
            client: self.client,
            server: self.server@,
            transport: self.transport@,
            world: self.world@,
            client_connected: self.client_connected,
            embedded_ready: self.embedded_ready,
            pending_load: self.pending_load,
            load_ticks_remaining: self.load_ticks_remaining,
            asset_load_ticks: self.asset_load_ticks,
            steps: self.steps,
        }
    }
}

impl SimulationView {
    /// Both state machines are well formed.
    pub open spec fn wf(self) -> bool {
        self.client.wf() && self.server.wf()
    }

    /// The effect of one emitted client action on the whole system.
    pub open spec fn spec_apply_action(self, a: ClientAction) -> SimulationView {
        match a {
            ClientAction::ConnectTransport => {
                let welcome = ServerWelcome { current_level: self.server.current_level };
                SimulationView {
                    client_connected: true,
                    server: self.server.spec_connect(self.client.local_id, self.steps),
                    transport: PairedTransportView {
                        to_client: self.transport.to_client.spec_send(
                            ServerToClient::Welcome(welcome),
                            self.transport.conditioner.latency_ticks,
                        ),
                        ..self.transport
                    },
                    ..self
                }
            },
            ClientAction::SpawnEmbeddedServer => SimulationView {
                server: ServerSessionView::init(
                    ServerMode::ClientHost(self.client.local_id),
                ).spec_start(),
                embedded_ready: true,
                ..self
            },
            ClientAction::BeginLoading(level) => SimulationView {
                pending_load: Some(level),
                load_ticks_remaining: self.asset_load_ticks,
                ..self
            },
            ClientAction::SendLoadComplete => {
                if self.client_connected {
                    SimulationView {
                        transport: PairedTransportView {
                            to_server: self.transport.to_server.spec_send(
                                FromClient {
                                    from: self.client.local_id,
                                    message: ClientToServer::LevelLoadComplete(
                                        ClientLevelLoadComplete,
                                    ),
                                },
                                self.transport.conditioner.latency_ticks,
                            ),
                            ..self.transport
                        },
                        ..self
                    }
                } else {
                    self
                }
            },
            ClientAction::MarkLocalPlayer => self,
            ClientAction::SendHostShutdown => {
                if self.client_connected {
                    SimulationView {
                        transport: PairedTransportView {
                            to_server: self.transport.to_server.spec_send(
                                FromClient {
                                    from: self.client.local_id,
                                    message: ClientToServer::RequestShutdown(HostRequestShutdown),
                                },
                                self.transport.conditioner.latency_ticks,
                            ),
                            ..self.transport
                        },
                        ..self
                    }
                } else {
                    self
                }
            },
            ClientAction::Disconnect => SimulationView {
                client_connected: false,
                server: self.server.spec_disconnect(self.client.local_id),
                transport: PairedTransportView {
                    to_client: ModelChannelView { queue: Seq::empty(), ..self.transport.to_client },
                    replication: ModelChannelView {
                        queue: Seq::empty(),
                        ..self.transport.replication
                    },
                    ..self.transport
                },
                ..self
            },
            ClientAction::DespawnSessionEntities => SimulationView { world: Seq::empty(), ..self },
        }
    }

    /// The effect of a list of actions, absorbed in order.
    pub open spec fn spec_apply_actions(self, actions: Seq<ClientAction>) -> SimulationView
        decreases actions.len(),
    {
        if actions.len() == 0 {
            self
        } else {
            self.spec_apply_action(actions[0]).spec_apply_actions(actions.drop_first())
        }
    }

    /// The client handles an event and the system absorbs what it emitted.
    pub open spec fn spec_client_react(self, e: ClientEvent) -> SimulationView {
        let reacted = SimulationView { client: self.client.spec_step(e), ..self };
        reacted.spec_apply_actions(self.client.spec_emitted(e))
    }

    /// Phase one of a tick: time passes on the link and the step counter.
    pub open spec fn spec_tick_time(self) -> SimulationView {
        SimulationView {
            steps: spec_sat_add(self.steps, 1),
            transport: PairedTransportView {
                to_server: self.transport.to_server.spec_tick(),
                to_client: self.transport.to_client.spec_tick(),
                replication: self.transport.replication.spec_tick(),
                ..self.transport
            },
            ..self
        }
    }

    /// Phase two: a freshly spawned embedded server reports ready.
    pub open spec fn spec_embedded_phase(self) -> SimulationView {
        if self.embedded_ready {
            let cleared = SimulationView { embedded_ready: false, ..self };
            cleared.spec_client_react(ClientEvent::EmbeddedServerSpawned)
        } else {
            self
        }
    }

    /// Phase three: the asset loader makes progress; on completion the level
    /// geometry appears and the client learns its assets are loaded.
    pub open spec fn spec_asset_phase(self) -> SimulationView {
        match self.pending_load {
            Some(level) => {
                if self.load_ticks_remaining > 0 {
                    SimulationView {
                        load_ticks_remaining: (self.load_ticks_remaining - 1) as u64,
                        ..self
                    }
                } else {
                    let with_geometry = if level is Example {
                        SimulationView {
                            world: self.world.push(SessionEntity::LevelGeometry(level)),
                            ..self
                        }
                    } else {
                        self
                    };
                    let done = SimulationView { pending_load: Option::<Level>::None, ..with_geometry };
                    done.spec_client_react(ClientEvent::AssetsLoaded)
                }
            },
            _ => self,
        }
    }

    /// Phase four: the server absorbs at most one due client message.
    pub open spec fn spec_server_phase(self) -> SimulationView {
        let polled = self.transport.to_server.spec_polled();
        let after = SimulationView {
            transport: PairedTransportView {
                to_server: self.transport.to_server.spec_poll(),
                ..self.transport
            },
            ..self
        };
        match polled {
            Some(envelope) => match envelope.message {
                ClientToServer::LevelLoadComplete(_) => {
                    let had = after.server.has_avatar_for(envelope.from);
                    let handled = SimulationView {
                        server: after.server.spec_load_complete(envelope.from),
                        ..after
                    };
                    if had {
                        handled
                    } else {
                        SimulationView {
                            transport: PairedTransportView {
                                replication: handled.transport.replication.spec_send(
                                    envelope.from,
                                    handled.transport.conditioner.latency_ticks,
                                ),
                                ..handled.transport
                            },
                            ..handled
                        }
                    }
                },
                ClientToServer::RequestShutdown(_) => SimulationView {
                    server: after.server.spec_shutdown(envelope.from),
                    ..after
                },
            },
            _ => after,
        }
    }

    /// Phase five: the client absorbs at most one due server message.
    pub open spec fn spec_client_phase(self) -> SimulationView {
        let polled = self.transport.to_client.spec_polled();
        let after = SimulationView {
            transport: PairedTransportView {
                to_client: self.transport.to_client.spec_poll(),
                ..self.transport
            },
            ..self
        };
        match polled {
            Some(message) => match message {
                ServerToClient::Welcome(welcome) => after.spec_client_react(
                    ClientEvent::WelcomeReceived(welcome.current_level),
                ),
            },
            _ => after,
        }
    }

    /// Phase six: at most one replicated avatar appears in the client world.
    pub open spec fn spec_replication_phase(self) -> SimulationView {
        let polled = self.transport.replication.spec_polled();
        let after = SimulationView {
            transport: PairedTransportView {
                replication: self.transport.replication.spec_poll(),
                ..self.transport
            },
            ..self
        };
        match polled {
            Some(owner) => {
                let with_avatar = SimulationView {
                    world: after.world.push(SessionEntity::ReplicatedAvatar(owner)),
                    ..after
                };
                with_avatar.spec_client_react(ClientEvent::AvatarSpawned(owner))
            },
            _ => after,
        }
    }

    /// One full simulation tick.
    pub open spec fn spec_tick(self) -> SimulationView {
        self.spec_tick_time().spec_embedded_phase().spec_asset_phase().spec_server_phase()
            .spec_client_phase().spec_replication_phase()
    }

    /// The simulation after `n` ticks.
    pub open spec fn spec_run(self, n: nat) -> SimulationView
        decreases n,
    {
        if n == 0 {
            self
        } else {
            self.spec_tick().spec_run((n - 1) as nat)
        }
    }

    /// The simulation with the transport's backend kind normalized away:
    /// everything its behaviour may depend on.
    pub open spec fn modulo_kind(self) -> SimulationView {
        SimulationView { transport: self.transport.behaviour(), ..self }
    }

    /// A playing client's replicated world holds the avatar it owns.
    pub open spec fn avatar_invariant(self) -> bool {
        self.client.state is Playing ==> self.world.contains(
            SessionEntity::ReplicatedAvatar(self.client.local_id),
        )
    }
}

impl Simulation {
    /// Wire a client, a server and a link into a fresh simulation.
    pub fn new(
        client: ClientSession,
        server: ServerSession,
        transport: PairedTransport,
        asset_load_ticks: u64,
    ) -> (sim: Simulation)
        ensures
            sim@ == (SimulationView {
                client,
                server: server@,
                transport: transport@,
                world: Seq::empty(),
                client_connected: false,
                embedded_ready: false,
                pending_load: Option::<Level>::None,
                load_ticks_remaining: 0,
                asset_load_ticks,
                steps: 0,
            }),
    {
        let sim = Simulation {
            client,
            server,
            transport,
            world: Vec::new(),
            client_connected: false,
            embedded_ready: false,
            pending_load: None,
            load_ticks_remaining: 0,
            asset_load_ticks,
            steps: 0,
        };
        proof {
            assert(sim@.world =~= Seq::<SessionEntity>::empty());
        }
        sim
    }

    /// Absorb one client action into the system.
    fn apply_client_action(&mut self, a: ClientAction)
        requires
            old(self)@.wf(),
        ensures
            final(self)@ == old(self)@.spec_apply_action(a),
            final(self)@.wf(),
    {
        match a {
            ClientAction::ConnectTransport => {
                self.client_connected = true;
                let welcome = self.server.on_client_connect_success(self.client.local_id, self.steps);
                self.transport.send_to_client(ServerToClient::Welcome(welcome));
            },
            ClientAction::SpawnEmbeddedServer => {
                let mut embedded = ServerSession::new(ServerMode::ClientHost(self.client.local_id));
                embedded.start_server();
                self.server = embedded;
                self.embedded_ready = true;
            },
            ClientAction::BeginLoading(level) => {
                self.pending_load = Some(level);
                self.load_ticks_remaining = self.asset_load_ticks;
            },
            ClientAction::SendLoadComplete => {
                if self.client_connected {
                    self.transport.send_to_server(
                        self.client.local_id,
                        ClientToServer::LevelLoadComplete(ClientLevelLoadComplete),
                    );
                }
            },
            ClientAction::MarkLocalPlayer => {},
            ClientAction::SendHostShutdown => {
                if self.client_connected {
                    self.transport.send_to_server(
                        self.client.local_id,
                        ClientToServer::RequestShutdown(HostRequestShutdown),
                    );
                }
            },
            ClientAction::Disconnect => {
                self.client_connected = false;
                self.server.on_client_disconnect(self.client.local_id);
                self.transport.disconnect();
            },
            ClientAction::DespawnSessionEntities => {
                self.world.clear();
                proof {
                    assert(self@.world =~= Seq::<SessionEntity>::empty());
                }
            },
        }
    }

    /// Absorb a list of client actions, in order.
    fn apply_client_actions(&mut self, actions: &Vec<ClientAction>)
        requires
            old(self)@.wf(),
        ensures
            final(self)@ == old(self)@.spec_apply_actions(actions@),
            final(self)@.wf(),
    {
        let ghost v0 = self@;
        let mut i: usize = 0;
        while i < actions.len()
            invariant
                0 <= i <= actions@.len(),
                self@ == v0.spec_apply_actions(actions@.take(i as int)),
                self@.wf(),
            decreases actions@.len() - i,
        {
            proof {
                assert(actions@.take(i as int + 1) == actions@.take(i as int).push(
                    actions@[i as int],
                ));
                lemma_apply_actions_push(v0, actions@.take(i as int), actions@[i as int]);
            }
            let a = actions[i];
            self.apply_client_action(a);
            i = i + 1;
        }
        proof {
            assert(actions@.take(actions@.len() as int) == actions@);
        }
    }

    /// Feed the client one event and absorb what it emitted.
    fn client_react(&mut self, event: ClientEvent)
        requires
            old(self)@.wf(),
        ensures
            final(self)@ == old(self)@.spec_client_react(event),
            final(self)@.wf(),
    {
        let actions = self.client.step(event);
        self.apply_client_actions(&actions);
    }

    /// The user asks to join a remote server.
    pub fn user_connect(&mut self)
        requires
            old(self)@.wf(),
        ensures
            final(self)@ == old(self)@.spec_client_react(ClientEvent::ConnectRequested),
            final(self)@.wf(),
    {
        self.client_react(ClientEvent::ConnectRequested);
    }

    /// The user asks to host a game locally.
    pub fn user_host(&mut self)
        requires
            old(self)@.wf(),
        ensures
            final(self)@ == old(self)@.spec_client_react(ClientEvent::HostRequested),
            final(self)@.wf(),
    {
        self.client_react(ClientEvent::HostRequested);
    }

    /// The user leaves the session.
    pub fn user_exit(&mut self)
        requires
            old(self)@.wf(),
        ensures
            final(self)@ == old(self)@.spec_client_react(ClientEvent::ExitToMenu),
            final(self)@.wf(),
    {
        self.client_react(ClientEvent::ExitToMenu);
    }

    /// One simulation tick: time passes, each side absorbs at most one due
    /// message, and the asset loader makes progress.
    pub fn tick(&mut self)
        requires
            old(self)@.wf(),
        ensures
            final(self)@ == old(self)@.spec_tick(),
            final(self)@.wf(),
    {
        self.phase_time();
        self.phase_embedded();
        self.phase_assets();
        self.phase_server();
        self.phase_client();
        self.phase_replication();
    }

    /// Time passes on the link and the step counter.
    fn phase_time(&mut self)
        requires
            old(self)@.wf(),
        ensures
            final(self)@ == old(self)@.spec_tick_time(),
            final(self)@.wf(),
    {
        self.steps = saturating_add_ticks(self.steps, 1);
        self.transport.tick();
    }

    /// A freshly spawned embedded server reports ready.
    fn phase_embedded(&mut self)
        requires
            old(self)@.wf(),
        ensures
            final(self)@ == old(self)@.spec_embedded_phase(),
            final(self)@.wf(),
    {
        if self.embedded_ready {
            self.embedded_ready = false;
            self.client_react(ClientEvent::EmbeddedServerSpawned);
        }
    }

    /// The asset loader makes progress; on completion the level geometry
    /// appears and the client learns its assets are loaded.
    fn phase_assets(&mut self)
        requires
            old(self)@.wf(),
        ensures
            final(self)@ == old(self)@.spec_asset_phase(),
            final(self)@.wf(),
    {
        match self.pending_load {
            Some(level) => {
                if self.load_ticks_remaining > 0 {
                    self.load_ticks_remaining = self.load_ticks_remaining - 1;
                } else {
                    if level == Level::Example {
                        self.world.push(SessionEntity::LevelGeometry(level));
                    }
                    self.pending_load = None;
                    self.client_react(ClientEvent::AssetsLoaded);
                }
            },
            _ => {},
        }
    }

    /// The server absorbs at most one due client message.
    fn phase_server(&mut self)
        requires
            old(self)@.wf(),
        ensures
            final(self)@ == old(self)@.spec_server_phase(),
            final(self)@.wf(),
    {
        match self.transport.poll_at_server() {
            Some(envelope) => match envelope.message {
                ClientToServer::LevelLoadComplete(_) => {
                    let outcome = self.server.on_client_load_complete(envelope.from);
                    if outcome == SpawnOutcome::Spawned {
                        self.transport.replicate_avatar(envelope.from);
                    }
                },
                ClientToServer::RequestShutdown(_) => {
                    let _ = self.server.on_host_request_shutdown(envelope.from);
                },
            },
            _ => {},
        }
    }

    /// The client absorbs at most one due server message.
    fn phase_client(&mut self)
        requires
            old(self)@.wf(),
        ensures
            final(self)@ == old(self)@.spec_client_phase(),
            final(self)@.wf(),
    {
        match self.transport.poll_at_client() {
            Some(message) => match message {
                ServerToClient::Welcome(welcome) => {
                    self.client_react(ClientEvent::WelcomeReceived(welcome.current_level));
                },
            },
            _ => {},
        }
    }

    /// At most one replicated avatar appears in the client world.
    fn phase_replication(&mut self)
        requires
            old(self)@.wf(),
        ensures
            final(self)@ == old(self)@.spec_replication_phase(),
            final(self)@.wf(),
    {
        match self.transport.poll_replication() {
            Some(owner) => {
                self.world.push(SessionEntity::ReplicatedAvatar(owner));
                self.client_react(ClientEvent::AvatarSpawned(owner));
            },
            _ => {},
        }
    }
}

/// An element stays in a sequence when something else is pushed onto it.
proof fn lemma_push_keeps_contains<A>(s: Seq<A>, pushed: A, kept: A)
    requires
        s.contains(kept),
    ensures
        s.push(pushed).contains(kept),
{
    let i = choose|i: int| 0 <= i < s.len() && s[i] == kept;
    assert(s.push(pushed)[i] == kept);
}

/// Client actions move messages, worlds and servers; the client session
/// itself changes only through its own step function.
proof fn lemma_actions_preserve_client(s: SimulationView, actions: Seq<ClientAction>)
    ensures
        s.spec_apply_actions(actions).client == s.client,
    decreases actions.len(),
{
    if actions.len() > 0 {
        lemma_actions_preserve_client(s.spec_apply_action(actions[0]), actions.drop_first());
    }
}

/// A client reaction keeps the avatar invariant, provided that a reaction
/// which enters the playing state finds the own avatar already replicated —
/// which the replication phase guarantees by placing the avatar in the world
/// before the client reacts to its appearance.
proof fn lemma_react_keeps_avatar_invariant(s: SimulationView, e: ClientEvent)
    requires
        s.avatar_invariant(),
        s.client.spec_step(e).state is Playing && !(s.client.state is Playing)
            ==> s.world.contains(SessionEntity::ReplicatedAvatar(s.client.local_id)),
    ensures
        s.spec_client_react(e).avatar_invariant(),
{
    reveal_with_fuel(SimulationView::spec_apply_actions, 3);
    let stepped = s.client.spec_step(e);
    let reacted = SimulationView { client: stepped, ..s };
    let acts = s.client.spec_emitted(e);
    let result = reacted.spec_apply_actions(acts);
    lemma_actions_preserve_client(reacted, acts);
    assert(result.client == stepped);
    if stepped.state is Playing {
        if s.client.state is Playing {
            assert(acts =~= Seq::<ClientAction>::empty());
            assert(result == reacted);
        } else {
            assert(acts =~= seq![ClientAction::MarkLocalPlayer]);
            assert(acts.drop_first() =~= Seq::<ClientAction>::empty());
            assert(result == reacted.spec_apply_action(ClientAction::MarkLocalPlayer));
            assert(result.world == s.world);
        }
    }
}

/// The user's own requests — connecting, hosting, leaving — keep the avatar
/// invariant: none of them can enter the playing state.
pub proof fn lemma_user_events_keep_avatar_invariant(s: SimulationView, e: ClientEvent)
    requires
        s.avatar_invariant(),
        e is ConnectRequested || e is HostRequested || e is ExitToMenu,
    ensures
        s.spec_client_react(e).avatar_invariant(),
{
    lemma_react_keeps_avatar_invariant(s, e);
}

/// One tick keeps the avatar invariant: the only step that enters the
/// playing state is the reaction to a replicated avatar appearance, and the
/// replication phase places that avatar in the world first.
proof fn lemma_tick_keeps_avatar_invariant(s: SimulationView)
    requires
        s.avatar_invariant(),
    ensures
        s.spec_tick().avatar_invariant(),
{
    let s1 = s.spec_tick_time();
    assert(s1.avatar_invariant());
    if s1.embedded_ready {
        lemma_react_keeps_avatar_invariant(
            SimulationView { embedded_ready: false, ..s1 },
            ClientEvent::EmbeddedServerSpawned,
        );
    }
    let s2 = s1.spec_embedded_phase();
    assert(s2.avatar_invariant());
    match s2.pending_load {
        Some(level) => {
            if s2.load_ticks_remaining == 0 {
                let with_geometry = if level is Example {
                    SimulationView {
                        world: s2.world.push(SessionEntity::LevelGeometry(level)),
                        ..s2
                    }
                } else {
                    s2
                };
                if s2.client.state is Playing {
                    lemma_push_keeps_contains(
                        s2.world,
                        SessionEntity::LevelGeometry(level),
                        SessionEntity::ReplicatedAvatar(s2.client.local_id),
                    );
                }
                let done = SimulationView { pending_load: Option::<Level>::None, ..with_geometry };
                lemma_react_keeps_avatar_invariant(done, ClientEvent::AssetsLoaded);
            }
        },
        _ => {},
    }
    let s3 = s2.spec_asset_phase();
    assert(s3.avatar_invariant());
    let s4 = s3.spec_server_phase();
    assert(s4.avatar_invariant());
    match s4.transport.to_client.spec_polled() {
        Some(message) => match message {
            ServerToClient::Welcome(welcome) => {
                lemma_react_keeps_avatar_invariant(
                    SimulationView {
                        transport: PairedTransportView {
                            to_client: s4.transport.to_client.spec_poll(),
                            ..s4.transport
                        },
                        ..s4
                    },
                    ClientEvent::WelcomeReceived(welcome.current_level),
                );
            },
        },
        _ => {},
    }
    let s5 = s4.spec_client_phase();
    assert(s5.avatar_invariant());
    match s5.transport.replication.spec_polled() {
        Some(owner) => {
            let polled = SimulationView {
                transport: PairedTransportView {
                    replication: s5.transport.replication.spec_poll(),
                    ..s5.transport
                },
                ..s5
            };
            let with_avatar = SimulationView {
                world: polled.world.push(SessionEntity::ReplicatedAvatar(owner)),
                ..polled
            };
            if s5.client.state is Playing {
                lemma_push_keeps_contains(
                    polled.world,
                    SessionEntity::ReplicatedAvatar(owner),
                    SessionEntity::ReplicatedAvatar(s5.client.local_id),
                );
            }
            assert(with_avatar.world[with_avatar.world.len() - 1]
                == SessionEntity::ReplicatedAvatar(owner));
            lemma_react_keeps_avatar_invariant(with_avatar, ClientEvent::AvatarSpawned(owner));
        },
        _ => {},
    }
    assert(s5.spec_replication_phase().avatar_invariant());
}

/// Handshake ordering, seen from the replicated world: at no tick of any run
/// is the client playing without the avatar it owns standing in its world;
/// the playing state is entered only on that avatar's appearance.
pub proof fn lemma_playing_has_own_avatar(s: SimulationView, n: nat)
    requires
        s.avatar_invariant(),
    ensures
        s.spec_run(n).avatar_invariant(),
    decreases n,
{
    if n > 0 {
        lemma_tick_keeps_avatar_invariant(s);
        lemma_playing_has_own_avatar(s.spec_tick(), (n - 1) as nat);
    }
}

/// One client action has the same effect on two simulations that differ only
/// in their transport's backend kind.
proof fn lemma_apply_action_ignores_kind(a: SimulationView, b: SimulationView, act: ClientAction)
    requires
        a.modulo_kind() == b.modulo_kind(),
    ensures
        a.spec_apply_action(act).modulo_kind() == b.spec_apply_action(act).modulo_kind(),
{
}

/// A list of client actions has the same effect on two simulations that
/// differ only in their transport's backend kind.
proof fn lemma_apply_actions_ignores_kind(
    a: SimulationView,
    b: SimulationView,
    actions: Seq<ClientAction>,
)
    requires
        a.modulo_kind() == b.modulo_kind(),
    ensures
        a.spec_apply_actions(actions).modulo_kind() == b.spec_apply_actions(actions).modulo_kind(),
    decreases actions.len(),
{
    if actions.len() > 0 {
        lemma_apply_action_ignores_kind(a, b, actions[0]);
        lemma_apply_actions_ignores_kind(
            a.spec_apply_action(actions[0]),
            b.spec_apply_action(actions[0]),
            actions.drop_first(),
        );
    }
}

/// A client reaction has the same effect on two simulations that differ only
/// in their transport's backend kind.
proof fn lemma_client_react_ignores_kind(a: SimulationView, b: SimulationView, e: ClientEvent)
    requires
        a.modulo_kind() == b.modulo_kind(),
    ensures
        a.spec_client_react(e).modulo_kind() == b.spec_client_react(e).modulo_kind(),
{
    let ra = SimulationView { client: a.client.spec_step(e), ..a };
    let rb = SimulationView { client: b.client.spec_step(e), ..b };
    lemma_apply_actions_ignores_kind(ra, rb, a.client.spec_emitted(e));
}

/// One tick has the same effect on two simulations that differ only in their
/// transport's backend kind: no phase of a tick reads the kind.
#[verifier::rlimit(60)]
proof fn lemma_tick_ignores_kind(a: SimulationView, b: SimulationView)
    requires
        a.modulo_kind() == b.modulo_kind(),
    ensures
        a.spec_tick().modulo_kind() == b.spec_tick().modulo_kind(),
{
    let a1 = a.spec_tick_time();
    let b1 = b.spec_tick_time();
    assert(a1.modulo_kind() == b1.modulo_kind());
    let a2 = a1.spec_embedded_phase();
    let b2 = b1.spec_embedded_phase();
    if a1.embedded_ready {
        lemma_client_react_ignores_kind(
            SimulationView { embedded_ready: false, ..a1 },
            SimulationView { embedded_ready: false, ..b1 },
            ClientEvent::EmbeddedServerSpawned,
        );
    }
    assert(a2.modulo_kind() == b2.modulo_kind());
    let a3 = a2.spec_asset_phase();
    let b3 = b2.spec_asset_phase();
    match a2.pending_load {
        Some(level) => {
            if a2.load_ticks_remaining == 0 {
                let wa = if level is Example {
                    SimulationView {
                        world: a2.world.push(SessionEntity::LevelGeometry(level)),
                        ..a2
                    }
                } else {
                    a2
                };
                let wb = if level is Example {
                    SimulationView {
                        world: b2.world.push(SessionEntity::LevelGeometry(level)),
                        ..b2
                    }
                } else {
                    b2
                };
                lemma_client_react_ignores_kind(
                    SimulationView { pending_load: Option::<Level>::None, ..wa },
                    SimulationView { pending_load: Option::<Level>::None, ..wb },
                    ClientEvent::AssetsLoaded,
                );
            }
        },
        _ => {},
    }
    assert(a3.modulo_kind() == b3.modulo_kind());
    let a4 = a3.spec_server_phase();
    let b4 = b3.spec_server_phase();
    assert(a4.modulo_kind() == b4.modulo_kind());
    let a5 = a4.spec_client_phase();
    let b5 = b4.spec_client_phase();
    match a4.transport.to_client.spec_polled() {
        Some(message) => match message {
            ServerToClient::Welcome(welcome) => {
                lemma_client_react_ignores_kind(
                    SimulationView {
                        transport: PairedTransportView {
                            to_client: a4.transport.to_client.spec_poll(),
                            ..a4.transport
                        },
                        ..a4
                    },
                    SimulationView {
                        transport: PairedTransportView {
                            to_client: b4.transport.to_client.spec_poll(),
                            ..b4.transport
                        },
                        ..b4
                    },
                    ClientEvent::WelcomeReceived(welcome.current_level),
                );
            },
        },
        _ => {},
    }
    assert(a5.modulo_kind() == b5.modulo_kind());
    match a5.transport.replication.spec_polled() {
        Some(owner) => {
            let pa = SimulationView {
                transport: PairedTransportView {
                    replication: a5.transport.replication.spec_poll(),
                    ..a5.transport
                },
                ..a5
            };
            let pb = SimulationView {
                transport: PairedTransportView {
                    replication: b5.transport.replication.spec_poll(),
                    ..b5.transport
                },
                ..b5
            };
            lemma_client_react_ignores_kind(
                SimulationView { world: pa.world.push(SessionEntity::ReplicatedAvatar(owner)), ..pa },
                SimulationView { world: pb.world.push(SessionEntity::ReplicatedAvatar(owner)), ..pb },
                ClientEvent::AvatarSpawned(owner),
            );
        },
        _ => {},
    }
    assert(a5.spec_replication_phase().modulo_kind() == b5.spec_replication_phase().modulo_kind());
}

/// Transport symmetry: the session state machines and the handshake, driven
/// over the in-process local channel and over a networked link under the
/// same conditioning, pass through identical states — the same client state,
/// the same server state, the same worlds — at every tick, and therefore
/// reach the playing state after the same number of logical steps. The
/// backend kind is invisible to every step of the system.
pub proof fn lemma_transport_symmetry(a: SimulationView, b: SimulationView, n: nat)
    requires
        a.modulo_kind() == b.modulo_kind(),
    ensures
        a.spec_run(n).modulo_kind() == b.spec_run(n).modulo_kind(),
        a.spec_run(n).client == b.spec_run(n).client,
        a.spec_run(n).server == b.spec_run(n).server,
        a.spec_run(n).world == b.spec_run(n).world,
        a.spec_run(n).steps == b.spec_run(n).steps,
    decreases n,
{
    if n > 0 {
        lemma_tick_ignores_kind(a, b);
        lemma_transport_symmetry(a.spec_tick(), b.spec_tick(), (n - 1) as nat);
    }
}

/// Teardown completeness: when a playing client leaves for the main menu —
/// by choice or through a disconnect — not one session-scoped entity remains
/// in its world, whatever the world held.
pub proof fn lemma_teardown_completeness(s: SimulationView)
    requires
        s.wf(),
        s.client.state is Playing,
    ensures
        s.spec_client_react(ClientEvent::ExitToMenu).world.len() == 0,
        s.spec_client_react(ClientEvent::ExitToMenu).client.state is MainMenu,
        s.spec_client_react(ClientEvent::Disconnected).world.len() == 0,
        s.spec_client_react(ClientEvent::Disconnected).client.state is MainMenu,
{
    reveal_with_fuel(SimulationView::spec_apply_actions, 4);
    let exit = ClientEvent::ExitToMenu;
    let reacted = SimulationView { client: s.client.spec_step(exit), ..s };
    let acts = s.client.spec_emitted(exit);
    if s.client.self_hosted {
        assert(acts[0] == ClientAction::SendHostShutdown);
        assert(acts.drop_first()[0] == ClientAction::Disconnect);
        assert(acts.drop_first().drop_first()[0] == ClientAction::DespawnSessionEntities);
        let s1 = reacted.spec_apply_action(ClientAction::SendHostShutdown);
        let s2 = s1.spec_apply_action(ClientAction::Disconnect);
        let s3 = s2.spec_apply_action(ClientAction::DespawnSessionEntities);
        assert(acts.drop_first() =~= seq![
            ClientAction::Disconnect,
            ClientAction::DespawnSessionEntities,
        ]);
        assert(acts.drop_first().drop_first() =~= seq![ClientAction::DespawnSessionEntities]);
        assert(acts.drop_first().drop_first().drop_first() =~= Seq::<ClientAction>::empty());
        assert(reacted.spec_apply_actions(acts) == s3);
    } else {
        let s1 = reacted.spec_apply_action(ClientAction::Disconnect);
        let s2 = s1.spec_apply_action(ClientAction::DespawnSessionEntities);
        assert(acts[0] == ClientAction::Disconnect);
        assert(acts.drop_first()[0] == ClientAction::DespawnSessionEntities);
        assert(acts.drop_first() =~= seq![ClientAction::DespawnSessionEntities]);
        assert(acts.drop_first().drop_first() =~= Seq::<ClientAction>::empty());
        assert(reacted.spec_apply_actions(acts) == s2);
    }
    let drop = ClientEvent::Disconnected;
    let dreacted = SimulationView { client: s.client.spec_step(drop), ..s };
    let dacts = s.client.spec_emitted(drop);
    let d1 = dreacted.spec_apply_action(ClientAction::DespawnSessionEntities);
    assert(dacts[0] == ClientAction::DespawnSessionEntities);
    assert(dacts.drop_first() =~= Seq::<ClientAction>::empty());
    assert(dreacted.spec_apply_actions(dacts) == d1);
}

/// Absorbing one more action equals absorbing the list and then the action.
proof fn lemma_apply_actions_push(s: SimulationView, actions: Seq<ClientAction>, a: ClientAction)
    ensures
        s.spec_apply_actions(actions.push(a)) == s.spec_apply_actions(actions).spec_apply_action(a),
    decreases actions.len(),
{
    if actions.len() == 0 {
        assert(actions.push(a)[0] == a);
        assert(actions.push(a).drop_first() =~= Seq::<ClientAction>::empty());
        assert(s.spec_apply_actions(actions.push(a)) == s.spec_apply_action(a).spec_apply_actions(
            Seq::<ClientAction>::empty(),
        ));
        assert(s.spec_apply_action(a).spec_apply_actions(Seq::<ClientAction>::empty())
            == s.spec_apply_action(a));
        assert(s.spec_apply_actions(actions) == s);
    } else {
        let rest = actions.drop_first();
        assert(actions.push(a)[0] == actions[0]);
        assert(actions.push(a).drop_first() =~= rest.push(a));
        lemma_apply_actions_push(s.spec_apply_action(actions[0]), rest, a);
        assert(s.spec_apply_actions(actions.push(a)) == s.spec_apply_action(
            actions[0],
        ).spec_apply_actions(rest.push(a)));
        assert(s.spec_apply_actions(actions) == s.spec_apply_action(actions[0]).spec_apply_actions(
            rest,
        ));
    }
}

} // verus!
