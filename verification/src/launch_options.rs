//! Launch options shared by client and server, and their serializable form.
//!
//! The shared options carry the credentials both transport backends
//! authenticate with (pre-shared key and protocol id) and the timing of the
//! simulation and replication loops. The serializable form spells every
//! duration out in milliseconds; conversion in both directions is exact.

use vstd::prelude::*;

verus! {

/// A span of time, held as whole milliseconds.
#[derive(Clone, Copy, Debug, PartialEq, Eq, Structural)]
pub struct DurationMillis(pub u64);

/// Options every launch mode needs: the shared credentials and the timing of
/// simulation and replication.
#[derive(Clone, Copy, Debug, PartialEq, Eq)]
pub struct SharedLaunchOptions {
    /// Versioning nonce; client and server reject mismatched builds.
    pub protocol_id: u64,
    /// Shared 256-bit pre-shared key.
    pub key: [u8; 32],
    /// Length of one simulation tick.
    pub simulation_update_frequency: DurationMillis,
    /// How often the server sends replication updates; zero means every tick.
    pub server_replication_send_interval: DurationMillis,
    /// How often the client sends replication updates; zero means every tick.
    pub client_replication_send_interval: DurationMillis,
}

impl SharedLaunchOptions {
    /// The options used when no configuration file overrides them: a zeroed
    /// identity and a 16 ms tick, replicating on every tick.
    pub open spec fn is_default(self) -> bool {
        &&& self.protocol_id == 0
        &&& forall|i: int| 0 <= i < 32 ==> self.key@[i] == 0u8
        &&& self.simulation_update_frequency == DurationMillis(16)
        &&& self.server_replication_send_interval == DurationMillis(0)
        &&& self.client_replication_send_interval == DurationMillis(0)
    }
}

impl Default for SharedLaunchOptions {
    /// A zeroed identity and a 16 ms tick, replicating on every tick.
    fn default() -> (r: SharedLaunchOptions)
        ensures
            r.is_default(),
    {
        proof {
            vstd::array::axiom_spec_array_fill_for_copy_type::<u8, 32>(0u8);
        }
        SharedLaunchOptions {
            protocol_id: 0,
            key: [0u8; 32],
            simulation_update_frequency: DurationMillis(16),
            server_replication_send_interval: DurationMillis(0),
            client_replication_send_interval: DurationMillis(0),
        }
    }
}

/// The shared options as a configuration file holds them, with durations
/// written out as milliseconds.
#[derive(Clone, Copy, Debug, PartialEq, Eq)]
pub struct SerializableSharedLaunchOptions {
    pub protocol_id: u64,
    pub key: [u8; 32],
    pub simulation_update_frequency_ms: u64,
    pub server_replication_send_interval_ms: u64,
    pub client_replication_send_interval_ms: u64,
}

impl From<SharedLaunchOptions> for SerializableSharedLaunchOptions {
    /// Write each duration out in milliseconds; no information is lost.
    fn from(options: SharedLaunchOptions) -> (r: SerializableSharedLaunchOptions) {
        SerializableSharedLaunchOptions {
            protocol_id: options.protocol_id,
            key: options.key,
            simulation_update_frequency_ms: options.simulation_update_frequency.0,
            server_replication_send_interval_ms: options.server_replication_send_interval.0,
            client_replication_send_interval_ms: options.client_replication_send_interval.0,
        }
    }
}

impl vstd::std_specs::convert::FromSpecImpl<SharedLaunchOptions> for SerializableSharedLaunchOptions {
    open spec fn obeys_from_spec() -> bool {
        true
    }

    open spec fn from_spec(options: SharedLaunchOptions) -> SerializableSharedLaunchOptions {
        SerializableSharedLaunchOptions {
            protocol_id: options.protocol_id,
            key: options.key,
            simulation_update_frequency_ms: options.simulation_update_frequency.0,
            server_replication_send_interval_ms: options.server_replication_send_interval.0,
            client_replication_send_interval_ms: options.client_replication_send_interval.0,
        }
    }
}

impl From<SerializableSharedLaunchOptions> for SharedLaunchOptions {
    /// Read each duration back from its milliseconds; no information is lost.
    fn from(options: SerializableSharedLaunchOptions) -> (r: SharedLaunchOptions) {
        SharedLaunchOptions {
            protocol_id: options.protocol_id,
            key: options.key,
            simulation_update_frequency: DurationMillis(options.simulation_update_frequency_ms),
            server_replication_send_interval: DurationMillis(
                options.server_replication_send_interval_ms,
            ),
            client_replication_send_interval: DurationMillis(
                options.client_replication_send_interval_ms,
            ),
        }
    }
}

impl vstd::std_specs::convert::FromSpecImpl<SerializableSharedLaunchOptions> for SharedLaunchOptions {
    open spec fn obeys_from_spec() -> bool {
        true
    }

    open spec fn from_spec(options: SerializableSharedLaunchOptions) -> SharedLaunchOptions {
        SharedLaunchOptions {
            protocol_id: options.protocol_id,
            key: options.key,
            simulation_update_frequency: DurationMillis(options.simulation_update_frequency_ms),
            server_replication_send_interval: DurationMillis(
                options.server_replication_send_interval_ms,
            ),
            client_replication_send_interval: DurationMillis(
                options.client_replication_send_interval_ms,
            ),
        }
    }
}

/// Converting shared options to their serializable form and back yields the
/// value that was written.
pub proof fn lemma_shared_options_round_trip(options: SharedLaunchOptions)
    ensures
        <SharedLaunchOptions as vstd::std_specs::convert::FromSpec<
            SerializableSharedLaunchOptions,
        >>::from_spec(
            <SerializableSharedLaunchOptions as vstd::std_specs::convert::FromSpec<
                SharedLaunchOptions,
            >>::from_spec(options),
        ) == options,
{
}

} // verus!
