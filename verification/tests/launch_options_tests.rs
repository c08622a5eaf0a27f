use mygame_core::launch_options::{
    DurationMillis, SerializableSharedLaunchOptions, SharedLaunchOptions,
};

#[test]
fn default_options_use_a_16ms_tick_and_a_zeroed_identity() {
    let options = SharedLaunchOptions::default();
    assert_eq!(options.protocol_id, 0);
    assert_eq!(options.key, [0u8; 32]);
    assert_eq!(options.simulation_update_frequency, DurationMillis(16));
    assert_eq!(options.server_replication_send_interval, DurationMillis(0));
    assert_eq!(options.client_replication_send_interval, DurationMillis(0));
}

#[test]
fn options_serialize_to_exact_millisecond_fields() {
    let options = SharedLaunchOptions {
        protocol_id: 80085,
        key: [7u8; 32],
        simulation_update_frequency: DurationMillis(16),
        server_replication_send_interval: DurationMillis(40),
        client_replication_send_interval: DurationMillis(25),
    };
    let written = SerializableSharedLaunchOptions::from(options);
    assert_eq!(written.protocol_id, 80085);
    assert_eq!(written.key, [7u8; 32]);
    assert_eq!(written.simulation_update_frequency_ms, 16);
    assert_eq!(written.server_replication_send_interval_ms, 40);
    assert_eq!(written.client_replication_send_interval_ms, 25);
}

#[test]
fn options_round_trip_through_their_serializable_form() {
    let options = SharedLaunchOptions {
        protocol_id: 3,
        key: [9u8; 32],
        simulation_update_frequency: DurationMillis(8),
        server_replication_send_interval: DurationMillis(100),
        client_replication_send_interval: DurationMillis(50),
    };
    let back = SharedLaunchOptions::from(SerializableSharedLaunchOptions::from(options));
    assert_eq!(back, options);
}

#[test]
fn serialized_options_round_trip_too() {
    let written = SerializableSharedLaunchOptions {
        protocol_id: 11,
        key: [1u8; 32],
        simulation_update_frequency_ms: 33,
        server_replication_send_interval_ms: 0,
        client_replication_send_interval_ms: 2,
    };
    let read = SharedLaunchOptions::from(written);
    assert_eq!(read.simulation_update_frequency, DurationMillis(33));
    let rewritten = SerializableSharedLaunchOptions::from(read);
    assert_eq!(rewritten, written);
}
