//! Assembly of a launchable client or server: the session state machine
//! together with the configurations and the asset root the runtime needs.
//!
//! The engine plugins, windows and schedulers that surround these pieces in
//! a running game are glue; what is assembled here is the state the session
//! logic owns from the first frame on.

use vstd::prelude::*;

use crate::game_state::ClientSession;
use crate::host::{AssetPath, LaunchConfigurations, ServerConfigModel};
use crate::server::{ServerMode, ServerSession, ServerSessionView};

verus! {

/// A client application, ready to run: a fresh session in the main menu,
/// the launch configurations, and the asset root preserved for a later
/// embedded server.
pub struct ClientApp {
    pub session: ClientSession,
    pub configs: LaunchConfigurations,
    pub asset_path: AssetPath,
}

/// A server application, ready to run: a constructed but not yet started
/// server session, its network configuration, and the asset root.
pub struct ServerApp {
    pub session: ServerSession,
    pub config: ServerConfigModel,
    pub asset_path: AssetPath,
}

/// Assemble a client. The build can host exactly when the launcher supplied
/// both a server configuration and a local-connection configuration; the
/// session starts in the main menu either way.
pub fn build_client_app(client_id: u64, configs: LaunchConfigurations, asset_path: String) -> (app:
    ClientApp)
    ensures
        app.session == ClientSession::spec_init(
            client_id,
            configs.server_config is Some && configs.client_local_config is Some,
        ),
        app.session.wf(),
        app.configs == configs,
        app.asset_path.0@ == asset_path@,
{
    let host_capable = configs.server_config.is_some() && configs.client_local_config.is_some();
    ClientApp {
        session: ClientSession::new(client_id, host_capable),
        configs,
        asset_path: AssetPath(asset_path),
    }
}

/// Assemble a server for the given mode. Nothing is loaded and nobody is
/// connected until the runtime starts it.
pub fn build_server_app(server_config: ServerConfigModel, asset_path: String, mode: ServerMode) -> (
    app: ServerApp)
    ensures
        app.session@ == ServerSessionView::init(mode),
        app.session@.wf(),
        app.config == server_config,
        app.asset_path.0@ == asset_path@,
{
    ServerApp {
        session: ServerSession::new(mode),
        config: server_config,
        asset_path: AssetPath(asset_path),
    }
}

} // verus!
