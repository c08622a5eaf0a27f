//! Host-mode orchestration: a client constructs a complete embedded server,
//! runs it on a background thread, and is recorded as that server's owner.
//!
//! Hosting requires explicit-identity (manual) authentication: the embedded
//! server's privileged owner id is read out of the client's own local
//! authentication configuration. A remote-issued connect token carries no
//! usable identity for this purpose, so hosting with token authentication is
//! a launch-configuration error that must fail fast.

use vstd::prelude::*;

use crate::server::{ServerMode, ServerSession, ServerSessionView};

verus! {

/// A socket address, as four octets and a port.
#[derive(Clone, Copy, Debug, PartialEq, Eq)]
pub struct SocketAddress {
    pub ip: (u8, u8, u8, u8),
    pub port: u16,
}

/// How a client authenticates against a server.
#[derive(Clone, Copy, Debug, PartialEq, Eq)]
pub enum AuthenticationMode {
    /// A connect token issued by a remote backend; the client id inside it is
    /// not locally readable.
    Token,
    /// Explicit identity: the client knows its own id and shares the
    /// pre-shared key and protocol id with the server.
    Manual {
        server_addr: SocketAddress,
        client_id: u64,
        private_key: [u8; 32],
        protocol_id: u64,
    },
    /// No authentication configured.
    Unauthenticated,
}

/// A launch-configuration error around hosting; all of these are fatal.
#[derive(Clone, Copy, Debug, PartialEq, Eq, Structural)]
pub enum HostError {
    /// Host mode without a server configuration to build the server from.
    MissingServerConfig,
    /// Host mode without a local client configuration to connect with.
    MissingLocalClientConfig,
    /// Token authentication cannot name the owner of an embedded server.
    TokenAuthNotAllowed,
    /// Hosting requires an explicit identity.
    AuthenticationRequired,
}

/// The slice of a server configuration the session logic reads.
#[derive(Clone, Copy, Debug, PartialEq, Eq)]
pub struct ServerConfigModel {
    /// Network listen configuration.
    pub listen: SocketAddress,
    /// Versioning nonce; mismatched builds refuse each other.
    pub protocol_id: u64,
    /// Shared 256-bit pre-shared key.
    pub private_key: [u8; 32],
}

/// The slice of a client configuration the session logic reads.
#[derive(Clone, Copy, Debug, PartialEq, Eq)]
pub struct ClientConfigModel {
    pub auth: AuthenticationMode,
}

/// The root asset path, preserved at startup so it can be forwarded to the
/// embedded server should the client choose to host.
#[derive(Clone, Debug)]
pub struct AssetPath(pub String);

/// The configurations a launcher hands the client: the remote-connection
/// config always, the local-connection and server configs only in builds
/// that can host.
#[derive(Clone, Copy, Debug, PartialEq, Eq)]
pub struct LaunchConfigurations {
    pub server_config: Option<ServerConfigModel>,
    pub client_local_config: Option<ClientConfigModel>,
    pub client_remote_config: Option<ClientConfigModel>,
}

/// The numeric identity inside an authentication mode, if it names one.
pub open spec fn spec_client_id_of(auth: AuthenticationMode) -> Option<u64> {
    match auth {
        AuthenticationMode::Manual { client_id, .. } => Some(client_id),
        _ => Option::<u64>::None,
    }
}

/// Read the local client id out of an explicit-identity authentication
/// configuration. Exactly the manual mode carries one; a token or missing
/// authentication is a programming error surfaced to the caller.
pub fn extract_client_id(auth: &AuthenticationMode) -> (r: Result<u64, HostError>)
    ensures
        match r {
            Ok(id) => spec_client_id_of(*auth) == Some(id),
            Err(e) => {
                &&& spec_client_id_of(*auth) is None
                &&& e == (if auth is Token {
                    HostError::TokenAuthNotAllowed
                } else {
                    HostError::AuthenticationRequired
                })
            },
        },
{
    match auth {
        AuthenticationMode::Token => Err(HostError::TokenAuthNotAllowed),
        AuthenticationMode::Manual { client_id, .. } => Ok(*client_id),
        AuthenticationMode::Unauthenticated => Err(HostError::AuthenticationRequired),
    }
}

/// What `begin_hosting` decides for a given set of launch configurations:
/// either the owner id the embedded server must record, or the fatal error.
pub open spec fn spec_hosting_owner(configs: LaunchConfigurations) -> Result<u64, HostError> {
    match configs.server_config {
        Option::None => Err(HostError::MissingServerConfig),
        Some(_) => match configs.client_local_config {
            Option::None => Err(HostError::MissingLocalClientConfig),
            Some(local) => match spec_client_id_of(local.auth) {
                Some(id) => Ok(id),
                Option::None => Err(
                    if local.auth is Token {
                        HostError::TokenAuthNotAllowed
                    } else {
                        HostError::AuthenticationRequired
                    },
                ),
            },
        },
    }
}

/// Construct the embedded server for a hosting client: a complete,
/// independent server instance whose privileged owner is the local client id
/// from the manual authentication configuration. The caller runs the result
/// on its own thread and, without waiting for startup, advances its session;
/// the server's welcome over the local channel signals readiness. Every
/// error is a misconfigured launch and fatal.
pub fn begin_hosting(configs: &LaunchConfigurations) -> (r: Result<ServerSession, HostError>)
    ensures
        match r {
            Ok(server) => {
                &&& spec_hosting_owner(*configs) matches Ok(id)
                &&& server@ == ServerSessionView::init(ServerMode::ClientHost(id))
                &&& server@.wf()
            },
            Err(e) => spec_hosting_owner(*configs) == Err::<u64, HostError>(e),
        },
{
    if configs.server_config.is_none() {
        return Err(HostError::MissingServerConfig);
    }
    match &configs.client_local_config {
        Option::None => Err(HostError::MissingLocalClientConfig),
        Some(local) => {
            match extract_client_id(&local.auth) {
                Ok(owner) => Ok(ServerSession::new(ServerMode::ClientHost(owner))),
                Err(e) => Err(e),
            }
        },
    }
}

/// Both transport backends authenticate with a shared pre-shared key and a
/// protocol id; a mismatch in either refuses the connection, which the
/// client observes as a disconnect.
pub fn credentials_match(
    client_key: &[u8; 32],
    client_protocol_id: u64,
    server_key: &[u8; 32],
    server_protocol_id: u64,
) -> (r: bool)
    ensures
        r == (client_key@ == server_key@ && client_protocol_id == server_protocol_id),
{
    if client_protocol_id != server_protocol_id {
        proof {
            assert(client_protocol_id != server_protocol_id);
        }
        return false;
    }
    let mut i: usize = 0;
    while i < 32
        invariant
            0 <= i <= 32,
            client_key@.len() == 32,
            server_key@.len() == 32,
            forall|k: int| 0 <= k < i ==> client_key@[k] == server_key@[k],
        decreases 32 - i,
    {
        if client_key[i] != server_key[i] {
            proof {
                assert(client_key@[i as int] != server_key@[i as int]);
            }
            return false;
        }
        i = i + 1;
    }
    proof {
        assert(client_key@ =~= server_key@);
    }
    true
}

} // verus!
