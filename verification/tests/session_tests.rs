use mygame_core::game_state::{ClientAction, ClientEvent, ClientSession, GameState};
use mygame_core::protocol::Level;

#[test]
fn fresh_session_sits_in_main_menu() {
    let s = ClientSession::new(1, false);
    assert_eq!(s.state, GameState::MainMenu);
    assert_eq!(s.local_id, 1);
    assert_eq!(s.current_level, Level::Void);
    assert_eq!(s.welcomes_handled, 0);
    assert!(!s.own_avatar_seen);
    assert!(!s.self_hosted);
}

#[test]
fn connect_request_starts_connecting() {
    let mut s = ClientSession::new(1, false);
    let actions = s.step(ClientEvent::ConnectRequested);
    assert_eq!(s.state, GameState::ConnectingRemote);
    assert_eq!(actions, vec![ClientAction::ConnectTransport]);
}

#[test]
fn welcome_drives_loading_and_mirrors_level() {
    let mut s = ClientSession::new(1, false);
    s.step(ClientEvent::ConnectRequested);
    let actions = s.step(ClientEvent::WelcomeReceived(Level::Example));
    assert_eq!(s.state, GameState::Loading);
    assert_eq!(s.current_level, Level::Example);
    assert_eq!(s.welcomes_handled, 1);
    assert_eq!(actions, vec![ClientAction::BeginLoading(Level::Example)]);
}

#[test]
fn assets_loaded_sends_acknowledgement() {
    let mut s = ClientSession::new(1, false);
    s.step(ClientEvent::ConnectRequested);
    s.step(ClientEvent::WelcomeReceived(Level::Example));
    let actions = s.step(ClientEvent::AssetsLoaded);
    assert_eq!(s.state, GameState::Spawning);
    assert_eq!(actions, vec![ClientAction::SendLoadComplete]);
}

#[test]
fn own_avatar_completes_the_handshake() {
    let mut s = ClientSession::new(1, false);
    s.step(ClientEvent::ConnectRequested);
    s.step(ClientEvent::WelcomeReceived(Level::Example));
    s.step(ClientEvent::AssetsLoaded);
    let actions = s.step(ClientEvent::AvatarSpawned(1));
    assert_eq!(s.state, GameState::Playing);
    assert!(s.own_avatar_seen);
    assert_eq!(actions, vec![ClientAction::MarkLocalPlayer]);
}

#[test]
fn foreign_avatar_does_not_complete_the_handshake() {
    let mut s = ClientSession::new(1, false);
    s.step(ClientEvent::ConnectRequested);
    s.step(ClientEvent::WelcomeReceived(Level::Example));
    s.step(ClientEvent::AssetsLoaded);
    let actions = s.step(ClientEvent::AvatarSpawned(2));
    assert_eq!(s.state, GameState::Spawning);
    assert!(actions.is_empty());
}

#[test]
fn duplicate_welcome_is_ignored_after_loading_began() {
    let mut s = ClientSession::new(1, false);
    s.step(ClientEvent::ConnectRequested);
    s.step(ClientEvent::WelcomeReceived(Level::Example));
    let actions = s.step(ClientEvent::WelcomeReceived(Level::Example));
    assert_eq!(s.state, GameState::Loading);
    assert_eq!(s.welcomes_handled, 1);
    assert!(actions.is_empty());
}

#[test]
fn send_failure_in_spawning_forces_disconnect() {
    let mut s = ClientSession::new(1, false);
    s.step(ClientEvent::ConnectRequested);
    s.step(ClientEvent::WelcomeReceived(Level::Example));
    s.step(ClientEvent::AssetsLoaded);
    let actions = s.step(ClientEvent::LoadCompleteSendFailed);
    assert_eq!(s.state, GameState::Spawning);
    assert_eq!(actions, vec![ClientAction::Disconnect]);
    let actions = s.step(ClientEvent::Disconnected);
    assert_eq!(s.state, GameState::MainMenu);
    assert!(actions.is_empty());
}

#[test]
fn host_request_needs_a_host_capable_build() {
    let mut s = ClientSession::new(1, false);
    let actions = s.step(ClientEvent::HostRequested);
    assert_eq!(s.state, GameState::MainMenu);
    assert!(actions.is_empty());

    let mut h = ClientSession::new(1, true);
    let actions = h.step(ClientEvent::HostRequested);
    assert_eq!(h.state, GameState::Hosting);
    assert!(h.self_hosted);
    assert_eq!(actions, vec![ClientAction::SpawnEmbeddedServer]);
}

#[test]
fn hosting_advances_once_the_embedded_server_is_up() {
    let mut s = ClientSession::new(7, true);
    s.step(ClientEvent::HostRequested);
    let actions = s.step(ClientEvent::EmbeddedServerSpawned);
    assert_eq!(s.state, GameState::ConnectingSelf);
    assert_eq!(actions, vec![ClientAction::ConnectTransport]);
}

#[test]
fn exit_from_playing_tears_down_and_notifies_the_embedded_server() {
    let mut s = ClientSession::new(7, true);
    s.step(ClientEvent::HostRequested);
    s.step(ClientEvent::EmbeddedServerSpawned);
    s.step(ClientEvent::WelcomeReceived(Level::Example));
    s.step(ClientEvent::AssetsLoaded);
    s.step(ClientEvent::AvatarSpawned(7));
    assert_eq!(s.state, GameState::Playing);
    let actions = s.step(ClientEvent::ExitToMenu);
    assert_eq!(
        actions,
        vec![
            ClientAction::SendHostShutdown,
            ClientAction::Disconnect,
            ClientAction::DespawnSessionEntities,
        ]
    );
    assert_eq!(s.state, GameState::MainMenu);
    assert_eq!(s.welcomes_handled, 0);
    assert!(!s.own_avatar_seen);
}

#[test]
fn exit_from_playing_without_hosting_skips_the_shutdown_message() {
    let mut s = ClientSession::new(1, false);
    s.step(ClientEvent::ConnectRequested);
    s.step(ClientEvent::WelcomeReceived(Level::Example));
    s.step(ClientEvent::AssetsLoaded);
    s.step(ClientEvent::AvatarSpawned(1));
    let actions = s.step(ClientEvent::ExitToMenu);
    assert_eq!(
        actions,
        vec![ClientAction::Disconnect, ClientAction::DespawnSessionEntities]
    );
}

#[test]
fn disconnect_while_playing_despawns_session_entities() {
    let mut s = ClientSession::new(1, false);
    s.step(ClientEvent::ConnectRequested);
    s.step(ClientEvent::WelcomeReceived(Level::Example));
    s.step(ClientEvent::AssetsLoaded);
    s.step(ClientEvent::AvatarSpawned(1));
    let actions = s.step(ClientEvent::Disconnected);
    assert_eq!(s.state, GameState::MainMenu);
    assert_eq!(actions, vec![ClientAction::DespawnSessionEntities]);
}

#[test]
fn disconnect_mid_handshake_returns_to_menu() {
    let mut s = ClientSession::new(1, false);
    s.step(ClientEvent::ConnectRequested);
    s.step(ClientEvent::WelcomeReceived(Level::Example));
    let actions = s.step(ClientEvent::Disconnected);
    assert_eq!(s.state, GameState::MainMenu);
    assert!(actions.is_empty());
    assert_eq!(s.welcomes_handled, 0);
    assert_eq!(s.current_level, Level::Void);
}

#[test]
fn status_text_follows_the_state() {
    let mut s = ClientSession::new(7, true);
    assert_eq!(s.status_text(), "My Game");
    s.step(ClientEvent::HostRequested);
    assert_eq!(s.status_text(), "Hosting");
    s.step(ClientEvent::EmbeddedServerSpawned);
    assert_eq!(s.status_text(), "Hosting");
    s.step(ClientEvent::WelcomeReceived(Level::Example));
    assert_eq!(s.status_text(), "Loading");
    s.step(ClientEvent::AssetsLoaded);
    assert_eq!(s.status_text(), "Loading");
    s.step(ClientEvent::AvatarSpawned(7));
    assert_eq!(s.status_text(), "");

    let mut r = ClientSession::new(1, false);
    r.step(ClientEvent::ConnectRequested);
    assert_eq!(r.status_text(), "Connecting");
}
