//! The handshake, driven over the real in-process channel pair instead of
//! the model transport: the same session code reaches the playing state
//! through the same transitions.

use mygame_core::channel::local_channel_pair;
use mygame_core::game_state::{ClientAction, ClientEvent, ClientSession, GameState};
use mygame_core::protocol::{ClientToServer, Level, ServerToClient};
use mygame_core::server::{ServerMode, ServerSession, SpawnOutcome};

#[test]
fn queues_start_empty() {
    let (client_half, server_half) = local_channel_pair();
    assert!(client_half.try_receive().is_none());
    assert!(server_half.try_receive().is_none());
}

#[test]
fn messages_cross_the_channel_unchanged() {
    let (client_half, server_half) = local_channel_pair();
    assert!(client_half.send(
        7,
        ClientToServer::LevelLoadComplete(mygame_core::protocol::ClientLevelLoadComplete),
    ));
    let envelope = server_half.try_receive().expect("the queue holds the message");
    assert_eq!(envelope.from, 7);
    assert!(matches!(envelope.message, ClientToServer::LevelLoadComplete(_)));
    assert!(server_half.try_receive().is_none());

    assert!(server_half.send(ServerToClient::Welcome(mygame_core::protocol::ServerWelcome {
        current_level: Level::Example,
    })));
    let message = client_half.try_receive().expect("the queue holds the message");
    let ServerToClient::Welcome(welcome) = message;
    assert_eq!(welcome.current_level, Level::Example);
}

#[test]
fn full_handshake_over_the_real_channel_pair() {
    let (client_half, server_half) = local_channel_pair();
    let mut client = ClientSession::new(7, true);
    let mut server = ServerSession::new(ServerMode::ClientHost(7));
    server.start_server();

    client.step(ClientEvent::HostRequested);
    client.step(ClientEvent::EmbeddedServerSpawned);
    assert_eq!(client.state, GameState::ConnectingSelf);

    // The transport reports the connection; the server owes a welcome.
    let welcome = server.on_client_connect_success(7, 0);
    assert!(server_half.send(ServerToClient::Welcome(welcome)));

    // From here the client needs exactly three transitions to be playing,
    // just as it does over the model transport.
    let mut transitions = 0;

    let ServerToClient::Welcome(welcome) =
        client_half.try_receive().expect("the welcome is delivered");
    client.step(ClientEvent::WelcomeReceived(welcome.current_level));
    transitions += 1;
    assert_eq!(client.state, GameState::Loading);
    assert_eq!(client.current_level, Level::Example);

    let actions = client.step(ClientEvent::AssetsLoaded);
    transitions += 1;
    assert_eq!(client.state, GameState::Spawning);
    for action in actions {
        if action == ClientAction::SendLoadComplete {
            assert!(client_half.send(
                7,
                ClientToServer::LevelLoadComplete(mygame_core::protocol::ClientLevelLoadComplete),
            ));
        }
    }

    let envelope = server_half.try_receive().expect("the acknowledgement is delivered");
    assert_eq!(
        server.on_client_load_complete(envelope.from),
        SpawnOutcome::Spawned
    );
    assert!(server.has_avatar_for(7));

    client.step(ClientEvent::AvatarSpawned(7));
    transitions += 1;
    assert_eq!(client.state, GameState::Playing);
    assert_eq!(transitions, 3);

    // Leaving notifies the embedded server before disconnecting; the queued
    // message stays deliverable and stops the server.
    let actions = client.step(ClientEvent::ExitToMenu);
    for action in actions {
        if action == ClientAction::SendHostShutdown {
            assert!(client_half.send(
                7,
                ClientToServer::RequestShutdown(mygame_core::protocol::HostRequestShutdown),
            ));
        }
    }
    let envelope = server_half.try_receive().expect("the shutdown request is delivered");
    assert!(matches!(envelope.message, ClientToServer::RequestShutdown(_)));
    assert!(server.on_host_request_shutdown(envelope.from));
    assert!(!server.running);
}
