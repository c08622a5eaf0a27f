use mygame_core::app_build::{build_client_app, build_server_app};
use mygame_core::game_state::GameState;
use mygame_core::host::{
    AuthenticationMode, ClientConfigModel, LaunchConfigurations, ServerConfigModel, SocketAddress,
};
use mygame_core::protocol::Level;
use mygame_core::server::ServerMode;

fn sample_server_config() -> ServerConfigModel {
    ServerConfigModel {
        listen: SocketAddress { ip: (127, 0, 0, 1), port: 12025 },
        protocol_id: 5,
        private_key: [3u8; 32],
    }
}

#[test]
fn a_client_with_full_configuration_can_host() {
    let configs = LaunchConfigurations {
        server_config: Some(sample_server_config()),
        client_local_config: Some(ClientConfigModel {
            auth: AuthenticationMode::Manual {
                server_addr: SocketAddress { ip: (127, 0, 0, 1), port: 0 },
                client_id: 4,
                private_key: [3u8; 32],
                protocol_id: 5,
            },
        }),
        client_remote_config: None,
    };
    let app = build_client_app(4, configs, String::from("../mygame-assets/assets"));
    assert_eq!(app.session.state, GameState::MainMenu);
    assert_eq!(app.session.local_id, 4);
    assert!(app.session.host_capable);
    assert_eq!(app.session.current_level, Level::Void);
    assert_eq!(app.asset_path.0, "../mygame-assets/assets");
}

#[test]
fn a_client_without_a_server_config_cannot_host() {
    let configs = LaunchConfigurations {
        server_config: None,
        client_local_config: None,
        client_remote_config: Some(ClientConfigModel { auth: AuthenticationMode::Token }),
    };
    let app = build_client_app(4, configs, String::from("./assets"));
    assert!(!app.session.host_capable);
    assert_eq!(app.session.state, GameState::MainMenu);
}

#[test]
fn a_built_server_is_not_yet_started() {
    let app = build_server_app(
        sample_server_config(),
        String::from("./assets"),
        ServerMode::Headless,
    );
    assert_eq!(app.session.mode, ServerMode::Headless);
    assert!(!app.session.running);
    assert_eq!(app.session.current_level, Level::Void);
    assert!(app.session.connections.is_empty());
    assert!(app.session.avatars.is_empty());
    assert_eq!(app.config.protocol_id, 5);
}
