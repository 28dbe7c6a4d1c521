use synchole::{
    ConnectionPolicy, EndpointTransport, PeerEndpoint, RelayPolicy, RetryPolicy, StorageMode,
    SyncholeConfig, TransportPath, TransportPolicy, ConnectionPreference, BatteryPolicy, Platform,
};

#[test]
fn endpoint_priority_is_orderable_by_application_policy() {
    let mut endpoints = [
        PeerEndpoint {
            address: "relay.example".to_owned(),
            port: 443,
            transport: EndpointTransport::Relay,
            priority: 100,
        },
        PeerEndpoint {
            address: "10.0.0.2".to_owned(),
            port: 41641,
            transport: EndpointTransport::Udp,
            priority: 10,
        },
    ];
    endpoints.sort_by_key(|endpoint| endpoint.priority);
    assert_eq!(endpoints[0].transport, EndpointTransport::Udp);
}

#[test]
fn default_policy_prefers_direct_before_relay() {
    let policy = ConnectionPolicy::default();

    assert_eq!(
        policy.preferred_paths.first(),
        Some(&TransportPath::DirectUdp)
    );
    assert_eq!(policy.preferred_paths.last(), Some(&TransportPath::Relay));
}

#[test]
fn applications_can_force_relay_only_paths() {
    let policy = ConnectionPolicy {
        preferred_paths: vec![TransportPath::Relay],
        ..ConnectionPolicy::default()
    };

    assert_eq!(policy.preferred_paths, vec![TransportPath::Relay]);
}

#[test]
fn default_policies_hold_documented_values() {
    let policy = ConnectionPolicy::default();
    assert_eq!(policy.preferred_paths.len(), 5);
    assert_eq!(policy.max_frame_bytes, 1_048_576);
    assert!(policy.require_forward_secrecy);

    let retry = RetryPolicy::default();
    assert_eq!((retry.max_attempts, retry.initial_backoff_ms, retry.max_backoff_ms), (5, 250, 30_000));

    let transport = TransportPolicy::default();
    assert_eq!(transport.preference, ConnectionPreference::DirectWithRelayFallback);
    assert_eq!(transport.keepalive_interval_ms, 15_000);
    assert_eq!(transport.idle_timeout_ms, 120_000);

    let config = SyncholeConfig::default();
    assert_eq!(config.platform, Platform::Unknown("runtime-detected".to_owned()));
    assert_eq!(config.storage_mode, StorageMode::Binary);
    assert_eq!(config.battery, BatteryPolicy::Balanced);
    assert_eq!(config.sync_batch_size, 512);

    let relay = RelayPolicy::default();
    assert!(relay.allowed_regions.is_empty());
    assert_eq!(relay.max_buffered_bytes, 16_777_216);
    assert!(relay.require_e2e_encryption);
}
