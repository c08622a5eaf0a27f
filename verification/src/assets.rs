//! The level-asset loading state machine, at the boundary of the asset
//! subsystem.
//!
//! Asset streaming itself — files, handles, scenes — is outside this
//! library; what is modelled here is the progression a level load goes
//! through and the bookkeeping the session logic relies on: which level is
//! wanted, how many loads are outstanding, and when the loaded signal that
//! gates the handshake may fire.

use vstd::prelude::*;

use crate::protocol::Level;

verus! {

/// Progress of the current level load.
#[derive(Clone, Copy, Debug, PartialEq, Eq, Structural)]
pub enum LevelState {
    /// No level is loaded or loading.
    Unloaded,
    /// Asset loads for the wanted level are in flight.
    Loading,
    /// Everything arrived; loaded scenes get their gameplay components.
    Postprocess,
    /// The level is ready; the session may report its assets loaded.
    Loaded,
}

/// The level this peer currently considers active. The server sets it once
/// at startup; a client mirrors what the welcome message declared.
#[derive(Clone, Copy, Debug, PartialEq, Eq, Structural)]
pub struct CurrentLevel(pub Level);

impl Default for CurrentLevel {
    /// Nothing is loaded until a level is declared.
    fn default() -> (r: CurrentLevel)
        ensures
            r == CurrentLevel(Level::Void),
    {
        CurrentLevel(Level::Void)
    }
}

/// Fired by the server when a new level begins loading, and by the client
/// when the server informs it of the level to load.
#[derive(Clone, Copy, Debug, PartialEq, Eq, Structural)]
pub struct LoadLevelRequest {
    pub level: Level,
}

/// How many queued asset loads are still outstanding. The handles themselves
/// belong to the asset subsystem; their number is what gates progress.
#[derive(Clone, Copy, Debug, PartialEq, Eq, Structural)]
pub struct LoadingAssets {
    pub handles: u64,
}

/// How many asset loads the given level queues.
pub open spec fn spec_loads_for(level: Level) -> u64 {
    match level {
        Level::Void => 0u64,
        Level::Example => 1u64,
    }
}

/// Accept a load request: record the level to load and begin loading.
pub fn load_level(request: &LoadLevelRequest, level_to_load: &mut Level) -> (next: LevelState)
    ensures
        *final(level_to_load) == request.level,
        next == LevelState::Loading,
{
    *level_to_load = request.level;
    LevelState::Loading
}

/// Queue the asset loads the wanted level needs. The void level queues
/// nothing and will fall straight through the loading states.
pub fn on_level_change(level_to_load: &Level, loading: &mut LoadingAssets) -> (next: LevelState)
    requires
        old(loading).handles + spec_loads_for(*level_to_load) <= u64::MAX,
    ensures
        final(loading).handles == old(loading).handles + spec_loads_for(*level_to_load),
        next == LevelState::Loading,
{
    match level_to_load {
        Level::Example => {
            loading.handles = loading.handles + 1;
        },
        Level::Void => {},
    }
    LevelState::Loading
}

/// Poll the outstanding loads: once everything queued has arrived, the
/// handles are released and postprocessing begins; otherwise loading
/// continues unchanged.
pub fn check_asset_loading(loading: &mut LoadingAssets, arrived: u64) -> (next: Option<LevelState>)
    ensures
        arrived >= old(loading).handles ==> {
            &&& next == Some(LevelState::Postprocess)
            &&& final(loading).handles == 0
        },
        arrived < old(loading).handles ==> {
            &&& next is None
            &&& *final(loading) == *old(loading)
        },
{
    if arrived >= loading.handles {
        loading.handles = 0;
        Some(LevelState::Postprocess)
    } else {
        None
    }
}

/// Postprocessing attaches collision geometry to the loaded scene; how many
/// scenes that touches is exactly the number of loads the level queued. It
/// always ends with the level ready.
pub fn postprocess_assets(level_to_load: &Level) -> (r: (LevelState, u64))
    ensures
        r.0 == LevelState::Loaded,
        r.1 == spec_loads_for(*level_to_load),
{
    match level_to_load {
        Level::Example => (LevelState::Loaded, 1),
        Level::Void => (LevelState::Loaded, 0),
    }
}

/// The level finished loading: the active level becomes the wanted one, and
/// exactly a non-void level has a scene to place in the world.
pub fn level_loaded(current_level: &mut CurrentLevel, level_to_load: &Level) -> (spawn_scene: bool)
    ensures
        *final(current_level) == CurrentLevel(*level_to_load),
        spawn_scene == (*level_to_load is Example),
{
    current_level.0 = *level_to_load;
    match level_to_load {
        Level::Example => true,
        Level::Void => false,
    }
}

} // verus!
