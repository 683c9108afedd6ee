use focl::archive::manifest::{sha256_hex, SegmentManifest};
use focl::archive::replicator::object_key;
use focl::archive::types::ArchiveStream;
use focl::bgp::{summarize_peers, PeerInfo};
use focl::config::{
    ArchiveConfig, ArchiveDestinationConfig, CompressionKind, CustomLayoutTemplates,
    DestinationMode, DestinationType, FoclConfig, GlobalConfig, LayoutProfile,
};
use focl::control::CommandKind;
use focl::netparse::{is_valid_ipv4_net, parse_ipv4};
use focl::types::{ControlRequest, EventEnvelope, Event, PeerState};

#[test]
fn validates_archive_defaults() {
    let mut cfg = ArchiveConfig::default();
    cfg.enabled = true;
    cfg.validate().expect("default archive config should validate");
}

#[test]
fn rejects_non_dividing_updates_interval() {
    let mut cfg = ArchiveConfig::default();
    cfg.enabled = true;
    cfg.updates_interval_secs = 1000;
    assert!(cfg.validate().is_err());
}

#[test]
fn rejects_custom_without_templates() {
    let mut cfg = ArchiveConfig::default();
    cfg.enabled = true;
    cfg.layout_profile = LayoutProfile::Custom;
    cfg.custom_templates = None;
    assert!(cfg.validate().is_err());
}

#[test]
fn rejects_templates_missing_tokens() {
    let t = CustomLayoutTemplates {
        updates: "{collector}/updates.{yyyymmdd}.{hhmm}".to_string(),
        ribs: "{collector}/ribs".to_string(),
    };
    assert!(t.validate().is_err());
    let ok = CustomLayoutTemplates {
        updates: "{collector}/updates.{yyyymmdd}.{hhmm}".to_string(),
        ribs: "{collector}/ribs.{yyyymmdd}.{hhmm}".to_string(),
    };
    ok.validate().unwrap();
}

#[test]
fn destination_keys_follow_the_documented_shape() {
    let mut cfg = ArchiveConfig::default();
    let local = &cfg.destinations[0];
    assert_eq!(local.destination_key(), "local:/var/lib/focld/archive");

    cfg.destinations.push(ArchiveDestinationConfig {
        destination_type: DestinationType::S3,
        mode: DestinationMode::AsyncReplica,
        path: None,
        required: None,
        endpoint: Some("http://minio:9000".to_string()),
        bucket: Some("mrt".to_string()),
        prefix: Some("/collectors/".to_string()),
        upload_concurrency: None,
        retry_backoff_secs: None,
        max_retries: None,
        region: None,
        access_key_id: None,
        secret_access_key: None,
        session_token: None,
    });
    assert_eq!(
        cfg.destinations[1].destination_key(),
        "s3:http://minio:9000:mrt"
    );
    assert_eq!(cfg.destinations[1].retry_backoff_secs(), 5);
    assert_eq!(cfg.destinations[1].max_retries(), 0);
    assert_eq!(cfg.destinations[1].upload_concurrency(), 4);
}

#[test]
fn focl_config_validation_checks_router_id_and_prefixes() {
    let mut cfg = FoclConfig {
        global: GlobalConfig {
            asn: 65001,
            router_id: "192.0.2.1".to_string(),
            listen: true,
            listen_addr: "0.0.0.0:179".to_string(),
            control_socket: "/tmp/focld.sock".to_string(),
            log_level: "info".to_string(),
        },
        peers: vec![],
        prefixes: vec![],
        archive: ArchiveConfig::default(),
    };
    cfg.validate().unwrap();

    cfg.global.router_id = "192.0.2.256".to_string();
    assert!(cfg.validate().is_err());
    cfg.global.router_id = "10.00.0.1".to_string();
    assert!(cfg.validate().is_err());
    cfg.global.router_id = "192.0.2.1".to_string();

    cfg.global.asn = 0;
    assert!(cfg.validate().is_err());
    cfg.global.asn = 65001;

    cfg.prefixes = vec![focl::config::PrefixConfig {
        network: "203.0.113.0/24".to_string(),
        next_hop: None,
    }];
    cfg.validate().unwrap();
    cfg.prefixes[0].network = "203.0.113.0/33".to_string();
    assert!(cfg.validate().is_err());
}

#[test]
fn parses_dotted_quads() {
    assert_eq!(parse_ipv4("192.0.2.1"), Some((192, 0, 2, 1)));
    assert_eq!(parse_ipv4("0.0.0.0"), Some((0, 0, 0, 0)));
    assert_eq!(parse_ipv4("255.255.255.255"), Some((255, 255, 255, 255)));
    assert_eq!(parse_ipv4("256.0.0.1"), None);
    assert_eq!(parse_ipv4("01.2.3.4"), None); // leading zero
    assert_eq!(parse_ipv4("1.2.3"), None);
    assert_eq!(parse_ipv4("1.2.3.4.5"), None);
    assert_eq!(parse_ipv4(""), None);
    assert!(is_valid_ipv4_net("10.0.0.0/8"));
    assert!(is_valid_ipv4_net("010.0.0.0/08")); // the prefix parser allows leading zeros
    assert!(!is_valid_ipv4_net("10.0.0.0/33"));
    assert!(!is_valid_ipv4_net("10.0.0.0"));
}

#[test]
fn object_keys_trim_slashes() {
    assert_eq!(object_key("", "/a/b.gz"), "a/b.gz");
    assert_eq!(object_key("/pre/", "a/b.gz"), "pre/a/b.gz");
    assert_eq!(object_key("pre", "/a/b.gz"), "pre/a/b.gz");
}

#[test]
fn manifest_json_is_exact() {
    let payload: Vec<u8> = b"test-bytes".to_vec();
    let manifest = SegmentManifest::build(
        "focl01".to_string(),
        ArchiveStream::Updates,
        100,
        200,
        3,
        CompressionKind::Gzip,
        LayoutProfile::RouteViews,
        &payload,
        "focl01/2026.02/UPDATES/updates.20260221.1200.gz".to_string(),
    );
    let sha = sha256_hex(&payload);
    let expected = format!(
        "{{\"collector_id\":\"focl01\",\"stream\":\"updates\",\"start_ts\":100,\"end_ts\":200,\"record_count\":3,\"bytes\":10,\"sha256\":\"{}\",\"compression\":\"gzip\",\"layout_profile\":\"routeviews\",\"relative_path\":\"focl01/2026.02/UPDATES/updates.20260221.1200.gz\"}}",
        sha
    );
    assert_eq!(manifest.to_json(), expected);
    assert_eq!(sha.len(), 64);
}

#[test]
fn decimal_rendering_pads_and_signs() {
    assert_eq!(focl::textfmt::dec_u64(0), "0");
    assert_eq!(focl::textfmt::dec_u64(1234567890), "1234567890");
    assert_eq!(focl::textfmt::dec_pad(7, 4), "0007");
    assert_eq!(focl::textfmt::dec_pad(12345, 4), "12345");
    assert_eq!(focl::textfmt::dec_i64(-42), "-42");
    assert_eq!(focl::textfmt::dec_i64(i64::MIN), "-9223372036854775808");
}

#[test]
fn replace_all_scans_left_to_right() {
    assert_eq!(focl::textfmt::replace_all_str("a{x}b{x}", "{x}", "Y"), "aYbY");
    assert_eq!(focl::textfmt::replace_all_str("aaa", "aa", "b"), "ba");
    assert_eq!(focl::textfmt::replace_all_str("abc", "zz", "y"), "abc");
    assert!(focl::textfmt::contains_str("a{hhmm}b", "{hhmm}"));
    assert!(!focl::textfmt::contains_str("a{hhm}b", "{hhmm}"));
}

#[test]
fn manifest_json_escapes_string_fields() {
    let payload: Vec<u8> = vec![1, 2, 3];
    let manifest = SegmentManifest::build(
        "co\"l\\le\nctor".to_string(),
        ArchiveStream::Ribs,
        -5,
        5,
        0,
        CompressionKind::Zstd,
        LayoutProfile::Custom,
        &payload,
        "a/b.zst".to_string(),
    );
    let json = manifest.to_json();
    assert!(json.contains("\"collector_id\":\"co\\\"l\\\\le\\nctor\""));
    assert!(json.contains("\"stream\":\"ribs\""));
    assert!(json.contains("\"start_ts\":-5"));
    assert!(json.contains("\"compression\":\"zstd\""));
    assert!(json.contains("\"layout_profile\":\"custom\""));
    // the escaped text still parses back to the raw field values
    let value: serde_json::Value = serde_json::from_str(&json).unwrap();
    assert_eq!(value["collector_id"], "co\"l\\le\nctor");
    assert_eq!(value["relative_path"], "a/b.zst");
}

#[test]
fn command_kinds_match_their_names() {
    let req = |cmd: &str| ControlRequest {
        version: 1,
        id: "r1".to_string(),
        cmd: cmd.to_string(),
        args: serde_json::Value::Null,
    };
    assert_eq!(CommandKind::from_request(&req("ping")), CommandKind::Ping);
    assert_eq!(
        CommandKind::from_request(&req("archive_status")),
        CommandKind::ArchiveStatus
    );
    assert_eq!(
        CommandKind::from_request(&req("archive_rollover")),
        CommandKind::ArchiveRollover
    );
    assert_eq!(
        CommandKind::from_request(&req("mystery")),
        CommandKind::Unsupported
    );
}

#[test]
fn event_envelopes_are_versioned() {
    let env = EventEnvelope::new(Event::PeerState {
        peer: "192.0.2.7".to_string(),
        state: PeerState::Established,
    });
    assert_eq!(env.version, 1);
    assert_eq!(env.envelope_type, "event");
}

#[test]
fn rib_summary_counts_established_peers() {
    let peer = |state: PeerState, prefixes: usize| PeerInfo {
        address: "192.0.2.9".to_string(),
        name: None,
        remote_as: 64512,
        local_as: 64513,
        remote_port: 179,
        passive: false,
        state,
        last_error: None,
        advertised_prefixes: prefixes,
        established_at: None,
    };
    let peers = vec![
        peer(PeerState::Established, 3),
        peer(PeerState::Idle, 0),
        peer(PeerState::Established, 2),
    ];
    let summary = summarize_peers(&peers);
    assert_eq!(summary.peers_total, 3);
    assert_eq!(summary.peers_established, 2);
    assert_eq!(summary.advertised_prefixes_total, 5);
}
