use mygame_core::host::{
    begin_hosting, credentials_match, extract_client_id, AuthenticationMode, ClientConfigModel,
    HostError, LaunchConfigurations, ServerConfigModel, SocketAddress,
};
use mygame_core::server::ServerMode;

fn local_addr(port: u16) -> SocketAddress {
    SocketAddress { ip: (127, 0, 0, 1), port }
}

fn manual_auth(client_id: u64) -> AuthenticationMode {
    AuthenticationMode::Manual {
        server_addr: local_addr(0),
        client_id,
        private_key: [0; 32],
        protocol_id: 1,
    }
}

fn server_config() -> ServerConfigModel {
    ServerConfigModel { listen: local_addr(12025), protocol_id: 1, private_key: [0; 32] }
}

#[test]
fn manual_authentication_carries_the_client_id() {
    assert_eq!(extract_client_id(&manual_auth(7)), Ok(7));
}

#[test]
fn token_authentication_cannot_host() {
    assert_eq!(
        extract_client_id(&AuthenticationMode::Token),
        Err(HostError::TokenAuthNotAllowed)
    );
}

#[test]
fn missing_authentication_cannot_host() {
    assert_eq!(
        extract_client_id(&AuthenticationMode::Unauthenticated),
        Err(HostError::AuthenticationRequired)
    );
}

#[test]
fn begin_hosting_builds_an_embedded_server_owned_by_the_local_client() {
    let configs = LaunchConfigurations {
        server_config: Some(server_config()),
        client_local_config: Some(ClientConfigModel { auth: manual_auth(7) }),
        client_remote_config: Some(ClientConfigModel { auth: manual_auth(7) }),
    };
    let server = begin_hosting(&configs).unwrap();
    assert_eq!(server.mode, ServerMode::ClientHost(7));
    assert!(!server.running);
    assert!(server.connections.is_empty());
    assert!(server.avatars.is_empty());
}

#[test]
fn begin_hosting_fails_fast_on_missing_configuration() {
    let no_server = LaunchConfigurations {
        server_config: None,
        client_local_config: Some(ClientConfigModel { auth: manual_auth(7) }),
        client_remote_config: None,
    };
    assert_eq!(
        begin_hosting(&no_server).unwrap_err(),
        HostError::MissingServerConfig
    );

    let no_local = LaunchConfigurations {
        server_config: Some(server_config()),
        client_local_config: None,
        client_remote_config: None,
    };
    assert_eq!(
        begin_hosting(&no_local).unwrap_err(),
        HostError::MissingLocalClientConfig
    );
}

#[test]
fn begin_hosting_fails_fast_on_token_authentication() {
    let with_token = LaunchConfigurations {
        server_config: Some(server_config()),
        client_local_config: Some(ClientConfigModel { auth: AuthenticationMode::Token }),
        client_remote_config: None,
    };
    assert_eq!(
        begin_hosting(&with_token).unwrap_err(),
        HostError::TokenAuthNotAllowed
    );

    let without_auth = LaunchConfigurations {
        server_config: Some(server_config()),
        client_local_config: Some(ClientConfigModel {
            auth: AuthenticationMode::Unauthenticated,
        }),
        client_remote_config: None,
    };
    assert_eq!(
        begin_hosting(&without_auth).unwrap_err(),
        HostError::AuthenticationRequired
    );
}

#[test]
fn matching_credentials_are_accepted() {
    let key = [42u8; 32];
    assert!(credentials_match(&key, 9, &key, 9));
}

#[test]
fn a_single_differing_key_byte_refuses_the_connection() {
    let client_key = [42u8; 32];
    let mut server_key = [42u8; 32];
    server_key[31] = 43;
    assert!(!credentials_match(&client_key, 9, &server_key, 9));
}

#[test]
fn a_protocol_id_mismatch_refuses_the_connection() {
    let key = [42u8; 32];
    assert!(!credentials_match(&key, 9, &key, 10));
}
