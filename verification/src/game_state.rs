//! Client-side session lifecycle.
//!
//! The session advances through a fixed set of states, from the main menu to
//! an active game, driven only by explicit events: user requests, transport
//! events, handshake messages and the appearance of the client's own avatar
//! in the replicated world. The transition function is pure — the next state
//! and the emitted side effects depend on nothing but the current session
//! value and the event — so the logic is identical whatever transport
//! delivers the events.

use vstd::prelude::*;

use crate::protocol::Level;

verus! {

/// Lifecycle state of a client session.
#[derive(Clone, Copy, Debug, PartialEq, Eq, Structural)]
pub enum GameState {
    /// Initial state; no connection exists.
    MainMenu,
    /// An embedded server is being constructed (host-capable builds only).
    Hosting,
    /// A connection request was sent to a remote server.
    ConnectingRemote,
    /// A connection request was sent to the embedded local server.
    ConnectingSelf,
    /// Connected; the server named a level and its assets are loading.
    Loading,
    /// Assets are loaded; waiting for the own avatar to be replicated.
    Spawning,
    /// The own avatar exists; gameplay is active.
    Playing,
}

/// An external occurrence the session reacts to.
#[derive(Clone, Copy, Debug, PartialEq, Eq, Structural)]
pub enum ClientEvent {
    /// The user asked to join a remote server.
    ConnectRequested,
    /// The user asked to host a game locally.
    HostRequested,
    /// The embedded server thread was spawned and its transport is wired up.
    EmbeddedServerSpawned,
    /// A welcome message arrived, naming the authoritative current level.
    WelcomeReceived(Level),
    /// The asset subsystem finished loading the requested level.
    AssetsLoaded,
    /// Sending the level-load-complete acknowledgement failed.
    LoadCompleteSendFailed,
    /// An avatar owned by the given client id appeared in the local world.
    AvatarSpawned(u64),
    /// The transport reported a disconnect.
    Disconnected,
    /// The user asked to leave the session.
    ExitToMenu,
}

/// A side effect the surrounding runtime must perform after a transition.
#[derive(Clone, Copy, Debug, PartialEq, Eq, Structural)]
pub enum ClientAction {
    /// Open the transport connection (remote socket or local channel).
    ConnectTransport,
    /// Construct the embedded server and run it on its own thread.
    SpawnEmbeddedServer,
    /// Ask the asset subsystem to load the given level.
    BeginLoading(Level),
    /// Send the level-load-complete acknowledgement to the server.
    SendLoadComplete,
    /// Tag the freshly replicated avatar as the local player.
    MarkLocalPlayer,
    /// Tell the embedded server that its owner is leaving.
    SendHostShutdown,
    /// Close the transport connection.
    Disconnect,
    /// Remove every session-scoped entity from the local world.
    DespawnSessionEntities,
}

/// A client's view of its session: lifecycle state, identity, and the level
/// the server declared. The copy of the level is set once per session from
/// the welcome message and never mutated locally otherwise.
#[derive(Clone, Copy, Debug, PartialEq, Eq, Structural)]
pub struct ClientSession {
    pub state: GameState,
    /// The client id this process authenticates as.
    pub local_id: u64,
    /// Whether this build can run an embedded server.
    pub host_capable: bool,
    /// Whether the current session was started through the hosting path.
    pub self_hosted: bool,
    /// Local mirror of the server's current level.
    pub current_level: Level,
    /// How many welcome messages have driven a transition this session.
    pub welcomes_handled: u64,
    /// Whether the own avatar has been observed in the replicated world.
    pub own_avatar_seen: bool,
}

impl ClientSession {
    /// The states in which a connection attempt or session is underway.
    pub open spec fn spec_connected_phase(self) -> bool {
        self.state is Loading || self.state is Spawning || self.state is Playing
    }

    /// Handshake ordering, kept as an invariant: a session past the welcome
    /// has handled exactly one welcome message, and a playing session has
    /// seen its own avatar.
    pub open spec fn wf(self) -> bool {
        &&& self.spec_connected_phase() ==> self.welcomes_handled == 1
        &&& !self.spec_connected_phase() ==> self.welcomes_handled == 0
        &&& self.own_avatar_seen <==> self.state is Playing
        &&& self.state is Hosting || self.state is ConnectingSelf ==> self.host_capable
        &&& self.self_hosted ==> self.host_capable
    }

    /// A fresh session sitting in the main menu.
    pub open spec fn spec_init(local_id: u64, host_capable: bool) -> ClientSession {
        ClientSession {
            state: GameState::MainMenu,
            local_id,
            host_capable,
            self_hosted: false,
            current_level: Level::Void,
            welcomes_handled: 0,
            own_avatar_seen: false,
        }
    }

    /// The session value after everything session-scoped is torn down.
    pub open spec fn spec_reset(self) -> ClientSession {
        ClientSession {
            state: GameState::MainMenu,
            self_hosted: false,
            current_level: Level::Void,
            welcomes_handled: 0,
            own_avatar_seen: false,
            ..self
        }
    }

    /// The transition function of the session state machine. Events that are
    /// not expected in the current state leave the session unchanged.
    pub open spec fn spec_step(self, event: ClientEvent) -> ClientSession {
        match (self.state, event) {
            (GameState::MainMenu, ClientEvent::ConnectRequested) => ClientSession {
                state: GameState::ConnectingRemote,
                self_hosted: false,
                ..self
            },
            (GameState::MainMenu, ClientEvent::HostRequested) => {
                if self.host_capable {
                    ClientSession { state: GameState::Hosting, self_hosted: true, ..self }
                } else {
                    self
                }
            },
            (GameState::Hosting, ClientEvent::EmbeddedServerSpawned) => ClientSession {
                state: GameState::ConnectingSelf,
                ..self
            },
            (GameState::ConnectingRemote, ClientEvent::WelcomeReceived(level)) => ClientSession {
                state: GameState::Loading,
                current_level: level,
                welcomes_handled: (self.welcomes_handled + 1) as u64,
                ..self
            },
            (GameState::ConnectingSelf, ClientEvent::WelcomeReceived(level)) => ClientSession {
                state: GameState::Loading,
                current_level: level,
                welcomes_handled: (self.welcomes_handled + 1) as u64,
                ..self
            },
            (GameState::Loading, ClientEvent::AssetsLoaded) => ClientSession {
                state: GameState::Spawning,
                ..self
            },
            (GameState::Spawning, ClientEvent::AvatarSpawned(owner)) => {
                if owner == self.local_id {
                    ClientSession { state: GameState::Playing, own_avatar_seen: true, ..self }
                } else {
                    self
                }
            },
            (GameState::Playing, ClientEvent::ExitToMenu) => self.spec_reset(),
            (_, ClientEvent::Disconnected) => self.spec_reset(),
            _ => self,
        }
    }

    /// The side effects emitted by a transition.
    pub open spec fn spec_emitted(self, event: ClientEvent) -> Seq<ClientAction> {
        match (self.state, event) {
            (GameState::MainMenu, ClientEvent::ConnectRequested) => seq![
                ClientAction::ConnectTransport,
            ],
            (GameState::MainMenu, ClientEvent::HostRequested) => {
                if self.host_capable {
                    seq![ClientAction::SpawnEmbeddedServer]
                } else {
                    seq![]
                }
            },
            (GameState::Hosting, ClientEvent::EmbeddedServerSpawned) => seq![
                ClientAction::ConnectTransport,
            ],
            (GameState::ConnectingRemote, ClientEvent::WelcomeReceived(level)) => seq![
                ClientAction::BeginLoading(level),
            ],
            (GameState::ConnectingSelf, ClientEvent::WelcomeReceived(level)) => seq![
                ClientAction::BeginLoading(level),
            ],
            (GameState::Loading, ClientEvent::AssetsLoaded) => seq![
                ClientAction::SendLoadComplete,
            ],
            (GameState::Spawning, ClientEvent::LoadCompleteSendFailed) => seq![
                ClientAction::Disconnect,
            ],
            (GameState::Spawning, ClientEvent::AvatarSpawned(owner)) => {
                if owner == self.local_id {
                    seq![ClientAction::MarkLocalPlayer]
                } else {
                    seq![]
                }
            },
            (GameState::Playing, ClientEvent::ExitToMenu) => {
                if self.self_hosted {
                    seq![
                        ClientAction::SendHostShutdown,
                        ClientAction::Disconnect,
                        ClientAction::DespawnSessionEntities,
                    ]
                } else {
                    seq![ClientAction::Disconnect, ClientAction::DespawnSessionEntities]
                }
            },
            (GameState::Playing, ClientEvent::Disconnected) => seq![
                ClientAction::DespawnSessionEntities,
            ],
            _ => seq![],
        }
    }

    /// Create a session for the given local identity.
    pub fn new(local_id: u64, host_capable: bool) -> (s: ClientSession)
        ensures
            s == ClientSession::spec_init(local_id, host_capable),
            s.wf(),
    {
        ClientSession {
            state: GameState::MainMenu,
            local_id,
            host_capable,
            self_hosted: false,
            current_level: Level::Void,
            welcomes_handled: 0,
            own_avatar_seen: false,
        }
    }

    /// Advance the session by one event and collect the side effects the
    /// runtime must perform, in order.
    pub fn step(&mut self, event: ClientEvent) -> (actions: Vec<ClientAction>)
        requires
            old(self).wf(),
        ensures
            *final(self) == old(self).spec_step(event),
            actions@ == old(self).spec_emitted(event),
            final(self).wf(),
    {
        let mut actions: Vec<ClientAction> = Vec::new();
        match (self.state, event) {
            (GameState::MainMenu, ClientEvent::ConnectRequested) => {
                self.state = GameState::ConnectingRemote;
                self.self_hosted = false;
                actions.push(ClientAction::ConnectTransport);
            },
            (GameState::MainMenu, ClientEvent::HostRequested) => {
                if self.host_capable {
                    self.state = GameState::Hosting;
                    self.self_hosted = true;
                    actions.push(ClientAction::SpawnEmbeddedServer);
                }
            },
            (GameState::Hosting, ClientEvent::EmbeddedServerSpawned) => {
                self.state = GameState::ConnectingSelf;
                actions.push(ClientAction::ConnectTransport);
            },
            (GameState::ConnectingRemote, ClientEvent::WelcomeReceived(level)) => {
                self.state = GameState::Loading;
                self.current_level = level;
                self.welcomes_handled = self.welcomes_handled + 1;
                actions.push(ClientAction::BeginLoading(level));
            },
            (GameState::ConnectingSelf, ClientEvent::WelcomeReceived(level)) => {
                self.state = GameState::Loading;
                self.current_level = level;
                self.welcomes_handled = self.welcomes_handled + 1;
                actions.push(ClientAction::BeginLoading(level));
            },
            (GameState::Loading, ClientEvent::AssetsLoaded) => {
                self.state = GameState::Spawning;
                actions.push(ClientAction::SendLoadComplete);
            },
            (GameState::Spawning, ClientEvent::LoadCompleteSendFailed) => {
                actions.push(ClientAction::Disconnect);
            },
            (GameState::Spawning, ClientEvent::AvatarSpawned(owner)) => {
                if owner == self.local_id {
                    self.state = GameState::Playing;
                    self.own_avatar_seen = true;
                    actions.push(ClientAction::MarkLocalPlayer);
                }
            },
            (GameState::Playing, ClientEvent::ExitToMenu) => {
                if self.self_hosted {
                    actions.push(ClientAction::SendHostShutdown);
                }
                actions.push(ClientAction::Disconnect);
                actions.push(ClientAction::DespawnSessionEntities);
                self.reset();
            },
            (_, ClientEvent::Disconnected) => {
                if self.state == GameState::Playing {
                    actions.push(ClientAction::DespawnSessionEntities);
                }
                self.reset();
            },
            _ => {},
        }
        proof {
            assert(actions@ =~= old(self).spec_emitted(event));
        }
        actions
    }

    /// Tear the session down to the main menu, keeping only identity and
    /// build capability.
    fn reset(&mut self)
        ensures
            *final(self) == old(self).spec_reset(),
    {
        self.state = GameState::MainMenu;
        self.self_hosted = false;
        self.current_level = Level::Void;
        self.welcomes_handled = 0;
        self.own_avatar_seen = false;
    }

    /// The status line shown by the menu UI for the current state.
    pub fn status_text(&self) -> (r: &'static str)
        ensures
            r@ == ClientSession::spec_status_text(self.state),
    {
        match self.state {
            GameState::MainMenu => "My Game",
            GameState::ConnectingRemote => "Connecting",
            GameState::Hosting => "Hosting",
            GameState::ConnectingSelf => "Hosting",
            GameState::Loading => "Loading",
            GameState::Spawning => "Loading",
            GameState::Playing => "",
        }
    }

    /// The session after a sequence of events, in order.
    pub open spec fn spec_run_events(self, events: Seq<ClientEvent>) -> ClientSession
        decreases events.len(),
    {
        if events.len() == 0 {
            self
        } else {
            self.spec_step(events[0]).spec_run_events(events.drop_first())
        }
    }

    pub open spec fn spec_status_text(state: GameState) -> Seq<char> {
        match state {
            GameState::MainMenu => "My Game"@,
            GameState::ConnectingRemote => "Connecting"@,
            GameState::Hosting => "Hosting"@,
            GameState::ConnectingSelf => "Hosting"@,
            GameState::Loading => "Loading"@,
            GameState::Spawning => "Loading"@,
            GameState::Playing => ""@,
        }
    }
}

/// Handshake ordering: a transition into the spawning state happens only
/// after exactly one welcome has been handled, and a transition into the
/// playing state happens only on the appearance of an avatar owned by the
/// local client, out of the spawning state.
pub proof fn lemma_handshake_ordering(s: ClientSession, e: ClientEvent)
    requires
        s.wf(),
    ensures
        s.spec_step(e).wf(),
        !(s.state is Spawning) && s.spec_step(e).state is Spawning ==> {
            &&& s.spec_step(e).welcomes_handled == 1
            &&& s.state is Loading
            &&& e is AssetsLoaded
        },
        !(s.state is Playing) && s.spec_step(e).state is Playing ==> {
            &&& s.state is Spawning
            &&& e == ClientEvent::AvatarSpawned(s.local_id)
            &&& s.spec_step(e).own_avatar_seen
        },
{
}

/// Sessions stay well formed over every run, so the per-transition ordering
/// guarantees hold at each step of any run from a fresh session.
pub proof fn lemma_handshake_ordering_run(s: ClientSession, events: Seq<ClientEvent>)
    requires
        s.wf(),
    ensures
        s.spec_run_events(events).wf(),
    decreases events.len(),
{
    if events.len() > 0 {
        lemma_handshake_ordering(s, events[0]);
        lemma_handshake_ordering_run(s.spec_step(events[0]), events.drop_first());
    }
}

/// Teardown completeness, session side: every transition that leaves the
/// playing state emits the action despawning all session-scoped entities.
pub proof fn lemma_exit_emits_despawn(s: ClientSession, e: ClientEvent)
    requires
        s.wf(),
        s.state is Playing,
        !(s.spec_step(e).state is Playing),
    ensures
        s.spec_emitted(e).contains(ClientAction::DespawnSessionEntities),
{
    match e {
        ClientEvent::ExitToMenu => {
            if s.self_hosted {
                assert(s.spec_emitted(e)[2] == ClientAction::DespawnSessionEntities);
            } else {
                assert(s.spec_emitted(e)[1] == ClientAction::DespawnSessionEntities);
            }
        },
        ClientEvent::Disconnected => {
            assert(s.spec_emitted(e)[0] == ClientAction::DespawnSessionEntities);
        },
        _ => {
            assert(s.spec_step(e).state is Playing);
        },
    }
}

} // verus!
