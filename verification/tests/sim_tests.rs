use mygame_core::game_state::{ClientSession, GameState};
use mygame_core::protocol::{
    ClientLevelLoadComplete, ClientToServer, HostRequestShutdown, Level,
};
use mygame_core::server::{ServerMode, ServerSession};
use mygame_core::sim::{SessionEntity, Simulation};
use mygame_core::transport::{LinkConditioner, PairedTransport};

fn remote_setup(transport: PairedTransport) -> Simulation {
    let client = ClientSession::new(1, false);
    let mut server = ServerSession::new(ServerMode::Headless);
    server.start_server();
    Simulation::new(client, server, transport, 0)
}

#[test]
fn scenario_remote_connect_reaches_playing() {
    let mut sim = remote_setup(PairedTransport::networked(LinkConditioner::zero()));

    sim.user_connect();
    assert_eq!(sim.client.state, GameState::ConnectingRemote);
    assert!(sim.client_connected);
    assert_eq!(sim.server.connections.len(), 1);

    sim.tick();
    assert_eq!(sim.client.state, GameState::Loading);
    assert_eq!(sim.client.current_level, Level::Example);

    sim.tick();
    assert_eq!(sim.client.state, GameState::Playing);
    assert_eq!(sim.server.avatars.len(), 1);
    assert_eq!(sim.server.avatars[0].player.0, 1);
    assert_eq!(
        sim.world,
        vec![
            SessionEntity::LevelGeometry(Level::Example),
            SessionEntity::ReplicatedAvatar(1),
        ]
    );
}

#[test]
fn scenario_duplicate_load_complete_leaves_a_single_avatar() {
    let mut sim = remote_setup(PairedTransport::networked(LinkConditioner::zero()));
    sim.user_connect();
    sim.tick();
    sim.tick();
    assert_eq!(sim.client.state, GameState::Playing);
    assert_eq!(sim.server.avatars.len(), 1);

    // A duplicate acknowledgement arrives after the avatar already exists.
    sim.transport
        .send_to_server(1, ClientToServer::LevelLoadComplete(ClientLevelLoadComplete));
    sim.tick();

    assert_eq!(sim.server.avatars.len(), 1);
    assert_eq!(sim.client.state, GameState::Playing);
    assert_eq!(
        sim.world,
        vec![
            SessionEntity::LevelGeometry(Level::Example),
            SessionEntity::ReplicatedAvatar(1),
        ]
    );
}

#[test]
fn scenario_host_mode_shutdown_obeys_ownership() {
    let client = ClientSession::new(7, true);
    let placeholder = ServerSession::new(ServerMode::Headless);
    let mut sim = Simulation::new(client, placeholder, PairedTransport::local_channel(), 0);

    sim.user_host();
    assert_eq!(sim.client.state, GameState::Hosting);
    assert_eq!(sim.server.mode, ServerMode::ClientHost(7));
    assert!(sim.server.running);

    sim.tick();
    assert_eq!(sim.client.state, GameState::Loading);
    sim.tick();
    assert_eq!(sim.client.state, GameState::Playing);
    assert_eq!(sim.server.avatars.len(), 1);

    // A shutdown request from a non-owning client id has no effect.
    sim.transport
        .send_to_server(9, ClientToServer::RequestShutdown(HostRequestShutdown));
    sim.tick();
    assert!(sim.server.running);
    assert_eq!(sim.server.avatars.len(), 1);

    // The owner leaves: shutdown is sent before the disconnect, the session
    // tears down, and the embedded server stops on the next tick.
    sim.user_exit();
    assert_eq!(sim.client.state, GameState::MainMenu);
    assert!(sim.world.is_empty());
    assert!(!sim.client_connected);
    assert!(sim.server.avatars.is_empty());
    assert!(sim.server.running);

    sim.tick();
    assert!(!sim.server.running);
    assert!(sim.server.connections.is_empty());
}

#[test]
fn teardown_leaves_no_session_scoped_entities() {
    let mut sim = remote_setup(PairedTransport::networked(LinkConditioner::zero()));
    sim.user_connect();
    sim.tick();
    sim.tick();
    assert_eq!(sim.client.state, GameState::Playing);
    assert!(!sim.world.is_empty());

    sim.user_exit();
    assert_eq!(sim.client.state, GameState::MainMenu);
    assert_eq!(sim.world.len(), 0);
}

#[test]
fn transport_choice_is_invisible_to_the_handshake() {
    let mut over_local = remote_setup(PairedTransport::local_channel());
    let mut over_network = remote_setup(PairedTransport::networked(LinkConditioner::zero()));

    over_local.user_connect();
    over_network.user_connect();

    let mut local_steps_to_playing = None;
    let mut network_steps_to_playing = None;
    for _ in 0..16 {
        over_local.tick();
        over_network.tick();
        assert_eq!(over_local.client, over_network.client);
        assert_eq!(over_local.world, over_network.world);
        assert_eq!(over_local.steps, over_network.steps);
        if local_steps_to_playing.is_none() && over_local.client.state == GameState::Playing {
            local_steps_to_playing = Some(over_local.steps);
        }
        if network_steps_to_playing.is_none() && over_network.client.state == GameState::Playing {
            network_steps_to_playing = Some(over_network.steps);
        }
    }
    assert_eq!(local_steps_to_playing, Some(2));
    assert_eq!(network_steps_to_playing, Some(2));
}

#[test]
fn added_latency_delays_the_handshake_but_not_its_outcome() {
    let conditioned = LinkConditioner { latency_ticks: 2, jitter_ticks: 0, loss_per_myriad: 0 };
    let mut sim = remote_setup(PairedTransport::networked(conditioned));
    sim.user_connect();
    let mut steps_to_playing = None;
    for _ in 0..32 {
        sim.tick();
        if sim.client.state == GameState::Playing {
            steps_to_playing = Some(sim.steps);
            break;
        }
    }
    let steps = steps_to_playing.expect("the conditioned handshake still completes");
    assert!(steps > 2);
    assert_eq!(sim.server.avatars.len(), 1);
}

#[test]
fn welcome_naming_the_void_level_loads_no_geometry() {
    let client = ClientSession::new(1, false);
    let server = ServerSession::new(ServerMode::Headless);
    // The server was never started, so its current level is still Void.
    let mut sim = Simulation::new(client, server, PairedTransport::local_channel(), 0);
    sim.user_connect();
    sim.tick();
    assert_eq!(sim.client.state, GameState::Loading);
    assert_eq!(sim.client.current_level, Level::Void);
    sim.tick();
    assert_eq!(sim.client.state, GameState::Playing);
    assert_eq!(sim.world, vec![SessionEntity::ReplicatedAvatar(1)]);
}
