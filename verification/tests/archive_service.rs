use std::io::Read;

use focl::archive::types::{
    ArchiveStream, Ipv4Address, RibSnapshotInput, SnapshotPeer, SnapshotRoute, UpdateRecordInput,
};
use focl::archive::writer::FsAction;
use focl::archive::ArchiveService;
use focl::config::{
    ArchiveConfig, ArchiveDestinationConfig, DestinationMode, DestinationType,
};
use focl::errors::ErrorKind;
use focl::types::Event;

fn valid_update_withdraw_message() -> Vec<u8> {
    let mut msg = vec![0xff; 16];
    msg.extend_from_slice(&24u16.to_be_bytes());
    msg.push(2); // UPDATE
    msg.extend_from_slice(&1u16.to_be_bytes());
    msg.push(0);
    msg.extend_from_slice(&0u16.to_be_bytes());
    msg
}

fn valid_open_message() -> Vec<u8> {
    let mut msg = vec![0xff; 16];
    msg.extend_from_slice(&29u16.to_be_bytes());
    msg.push(1); // OPEN
    msg.push(4);
    msg.extend_from_slice(&64496u16.to_be_bytes());
    msg.extend_from_slice(&90u16.to_be_bytes());
    msg.extend_from_slice(&[192, 0, 2, 1]);
    msg.push(0);
    msg
}

fn enabled_config() -> ArchiveConfig {
    let mut cfg = ArchiveConfig::default();
    cfg.enabled = true;
    cfg.root = "/data/archive".to_string();
    cfg.tmp_root = "/data/archive/.tmp".to_string();
    cfg.destinations = vec![ArchiveDestinationConfig {
        destination_type: DestinationType::Local,
        mode: DestinationMode::Primary,
        path: Some("/data/archive".to_string()),
        required: Some(true),
        endpoint: None,
        bucket: None,
        prefix: None,
        upload_concurrency: Some(1),
        retry_backoff_secs: Some(1),
        max_retries: Some(0),
        region: None,
        access_key_id: None,
        secret_access_key: None,
        session_token: None,
    }];
    cfg.validate().unwrap();
    cfg
}

fn sample_update(ts: i64) -> UpdateRecordInput {
    UpdateRecordInput {
        timestamp: ts,
        peer_asn: 64512,
        local_asn: 64513,
        interface_index: 0,
        peer_ip: Ipv4Address(198, 51, 100, 1),
        local_ip: Ipv4Address(198, 51, 100, 2),
        bgp_message: valid_update_withdraw_message(),
    }
}

fn gunzip(bytes: &[u8]) -> Vec<u8> {
    let mut decoder = flate2::read::GzDecoder::new(bytes);
    let mut out = Vec::new();
    decoder.read_to_end(&mut out).unwrap();
    out
}

#[test]
fn rollover_produces_segment_and_manifest_actions() {
    let mut service = ArchiveService::new(enabled_config(), Ipv4Address(192, 0, 2, 1), None);

    let eff = service.ingest_update(sample_update(1_700_000_001)).unwrap();
    // the first ingest opens the bucket's segment
    assert!(matches!(eff.events[0].event, Event::ArchiveSegmentOpened { .. }));

    let status = service.status().unwrap();
    assert_eq!(status.updates_record_count, 1);
    let open_path = status.updates_open_path.unwrap();
    assert!(open_path.ends_with(".gz"));

    let eff = service.rollover(ArchiveStream::Updates).unwrap();
    let mut wrote_segment = false;
    let mut wrote_manifest = false;
    let mut renamed = false;
    for action in &eff.actions {
        match action {
            FsAction::WriteFile { path, bytes, .. } => {
                assert!(path.ends_with(".gz.tmp"));
                let raw = gunzip(bytes);
                assert!(!raw.is_empty());
                wrote_segment = true;
            }
            FsAction::WriteText { path, text } => {
                assert!(path.ends_with(".gz.json"));
                assert!(text.contains("\"record_count\":1"));
                wrote_manifest = true;
            }
            FsAction::Rename { from, to } => {
                assert!(from.ends_with(".gz.tmp"));
                assert!(to.ends_with(".gz"));
                renamed = true;
            }
            FsAction::EnsureDirFor { .. } => {}
        }
    }
    assert!(wrote_segment, "expected the compressed segment bytes");
    assert!(wrote_manifest, "expected the manifest sidecar text");
    assert!(renamed, "expected the atomic promotion rename");
}

#[test]
fn ingest_across_buckets_rotates_and_appends() {
    let mut service = ArchiveService::new(enabled_config(), Ipv4Address(192, 0, 2, 1), None);
    service.ingest_update(sample_update(1_700_000_001)).unwrap();
    assert_eq!(service.status().unwrap().updates_record_count, 1);

    // the next bucket: the old segment is finalized and the new record lands
    // in the fresh writer
    let eff = service.ingest_update(sample_update(1_700_000_901)).unwrap();
    assert_eq!(service.status().unwrap().updates_record_count, 1);
    let finalized: Vec<_> = eff
        .events
        .iter()
        .filter(|e| matches!(e.event, Event::ArchiveSegmentFinalized { .. }))
        .collect();
    assert_eq!(finalized.len(), 1);
    let mut wrote = false;
    for action in &eff.actions {
        if let FsAction::WriteText { text, .. } = action {
            assert!(text.contains("\"record_count\":1"));
            wrote = true;
        }
    }
    assert!(wrote, "the rotation must write the closed segment's manifest");
}

#[test]
fn invalid_bgp_message_leaves_the_writer_untouched() {
    let mut service = ArchiveService::new(enabled_config(), Ipv4Address(192, 0, 2, 1), None);
    service.ingest_update(sample_update(1_700_000_001)).unwrap();
    assert_eq!(service.status().unwrap().updates_record_count, 1);

    let mut bad = sample_update(1_700_000_002);
    bad.bgp_message = valid_open_message();
    let err = service.ingest_update(bad).unwrap_err();
    assert_eq!(err.kind(), ErrorKind::Encode);
    assert_eq!(service.status().unwrap().updates_record_count, 1);
}

#[test]
fn snapshot_now_writes_peer_index_and_rib_records() {
    let mut service = ArchiveService::new(enabled_config(), Ipv4Address(10, 0, 0, 1), None);
    let input = RibSnapshotInput {
        timestamp: 1_700_000_000,
        collector_bgp_id: Ipv4Address(192, 0, 2, 1),
        view_name: "main".to_string(),
        peers: vec![SnapshotPeer {
            peer_bgp_id: Ipv4Address(198, 51, 100, 1),
            peer_ip: Ipv4Address(198, 51, 100, 1),
            peer_asn: 64512,
        }],
        routes: vec![SnapshotRoute {
            sequence: 1,
            prefix: Ipv4Address(203, 0, 113, 0),
            prefix_len: 24,
            peer_index: 0,
            originated_time: 1_700_000_000,
            path_attributes: vec![],
        }],
    };

    let (seg, eff) = service.snapshot_now(input).unwrap();
    assert_eq!(seg.record_count, 2);
    assert!(matches!(eff.events[0].event, Event::ArchiveSegmentOpened { .. }));
    assert!(matches!(eff.events[1].event, Event::ArchiveSegmentFinalized { .. }));

    // the finalized file holds exactly two MRT records: the peer-index table
    // and one RIB_IPV4_UNICAST with sequence number 1
    let bytes = eff
        .actions
        .iter()
        .find_map(|a| match a {
            FsAction::WriteFile { bytes, .. } => Some(bytes.clone()),
            _ => None,
        })
        .expect("segment bytes");
    let raw = gunzip(&bytes);
    let mut cursor = std::io::Cursor::new(raw);
    let first = bgpkit_parser::parse_mrt_record(&mut cursor).unwrap();
    assert_eq!(
        first.common_header.entry_subtype,
        bgpkit_parser::models::TableDumpV2Type::PeerIndexTable as u16
    );
    let second = bgpkit_parser::parse_mrt_record(&mut cursor).unwrap();
    match second.message {
        bgpkit_parser::models::MrtMessage::TableDumpV2Message(
            bgpkit_parser::models::TableDumpV2Message::RibAfi(rib),
        ) => {
            assert_eq!(rib.sequence_number, 1);
        }
        other => panic!("unexpected message: {:?}", other),
    }

    let status = service.status().unwrap();
    assert_eq!(status.ribs_last_record_count, 2);
    assert!(status.ribs_last_path.unwrap().ends_with(".gz"));
}

#[test]
fn empty_snapshot_produces_a_bare_peer_index_table() {
    let mut service = ArchiveService::new(enabled_config(), Ipv4Address(192, 0, 2, 1), None);
    let input = RibSnapshotInput {
        timestamp: 1_700_000_000,
        collector_bgp_id: Ipv4Address(0, 0, 0, 0),
        view_name: "main".to_string(),
        peers: vec![],
        routes: vec![],
    };
    let (seg, eff) = service.snapshot_now(input).unwrap();
    assert_eq!(seg.record_count, 1);
    let bytes = eff
        .actions
        .iter()
        .find_map(|a| match a {
            FsAction::WriteFile { bytes, .. } => Some(bytes.clone()),
            _ => None,
        })
        .unwrap();
    let raw = gunzip(&bytes);
    let mut cursor = std::io::Cursor::new(raw);
    let record = bgpkit_parser::parse_mrt_record(&mut cursor).unwrap();
    assert_eq!(
        record.common_header.entry_subtype,
        bgpkit_parser::models::TableDumpV2Type::PeerIndexTable as u16
    );
}

#[test]
fn manifest_text_matches_the_written_bytes() {
    let mut service = ArchiveService::new(enabled_config(), Ipv4Address(192, 0, 2, 1), None);
    service.ingest_update(sample_update(1_700_000_001)).unwrap();
    let eff = service.rollover(ArchiveStream::Updates).unwrap();
    let mut written: Option<Vec<u8>> = None;
    let mut manifest: Option<String> = None;
    for action in &eff.actions {
        match action {
            FsAction::WriteFile { bytes, .. } => written = Some(bytes.clone()),
            FsAction::WriteText { text, .. } => manifest = Some(text.clone()),
            _ => {}
        }
    }
    let written = written.unwrap();
    let manifest = manifest.unwrap();
    // the manifest's size and digest describe exactly the bytes handed out
    // for the segment file
    assert!(manifest.contains(&format!("\"bytes\":{}", written.len())));
    let sha = focl::archive::manifest::sha256_hex(&written);
    assert!(manifest.contains(&format!("\"sha256\":\"{}\"", sha)));
}

#[test]
fn snapshot_is_rejected_when_disabled() {
    let cfg = ArchiveConfig::default();
    let mut service = ArchiveService::new(cfg, Ipv4Address(192, 0, 2, 1), None);
    let input = RibSnapshotInput {
        timestamp: 1_700_000_000,
        collector_bgp_id: Ipv4Address(0, 0, 0, 0),
        view_name: "main".to_string(),
        peers: vec![],
        routes: vec![],
    };
    let err = service.snapshot_now(input).unwrap_err();
    assert_eq!(err.kind(), ErrorKind::Config);
}

#[test]
fn tick_rotates_across_buckets_and_snapshots() {
    let mut service = ArchiveService::new(enabled_config(), Ipv4Address(192, 0, 2, 1), None);

    // one record in the first bucket
    service.ingest_update(sample_update(1_700_000_001)).unwrap();
    // a tick in the next updates bucket finalizes the old segment and emits
    // the first scheduled snapshot
    let eff = service.tick(1_700_000_901).unwrap();
    let finalized: Vec<_> = eff
        .events
        .iter()
        .filter(|e| matches!(e.event, Event::ArchiveSegmentFinalized { .. }))
        .collect();
    assert!(finalized.len() >= 2, "updates rotation and rib snapshot");
    assert_eq!(service.status().unwrap().updates_record_count, 0);
}

#[test]
fn destinations_reports_key_mode_and_type() {
    let service = ArchiveService::new(enabled_config(), Ipv4Address(192, 0, 2, 1), None);
    let listed = service.destinations();
    assert_eq!(listed.len(), 1);
    assert_eq!(listed[0].0, "local:/data/archive");
    assert_eq!(listed[0].1, "primary");
    assert_eq!(listed[0].2, "local");
}
