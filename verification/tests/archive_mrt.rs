use std::io::Cursor;

use bgpkit_parser::models::{Bgp4MpType, EntryType, TableDumpV2Message, TableDumpV2Type};
use bgpkit_parser::parse_mrt_record;

use focl::archive::snapshot::{
    build_table_dump_v2, encode_bgp4mp_message_as4, encode_bgp4mp_state_change_as4,
    parse_bgp4mp_message_as4,
};
use focl::archive::types::{
    Ipv4Address, PeerStateRecordInput, RibSnapshotInput, SnapshotPeer, SnapshotRoute,
    UpdateRecordInput,
};
use focl::errors::ErrorKind;

fn valid_update_withdraw_message() -> Vec<u8> {
    let mut msg = vec![0xff; 16];
    // total length 24 bytes: 19-byte header + 5-byte payload
    msg.extend_from_slice(&24u16.to_be_bytes());
    msg.push(2); // UPDATE
    msg.extend_from_slice(&1u16.to_be_bytes()); // withdrawn routes length
    msg.push(0); // withdraw 0.0.0.0/0
    msg.extend_from_slice(&0u16.to_be_bytes()); // path attributes length
    msg
}

fn valid_open_message() -> Vec<u8> {
    let mut msg = vec![0xff; 16];
    msg.extend_from_slice(&29u16.to_be_bytes());
    msg.push(1); // OPEN
    msg.push(4); // version
    msg.extend_from_slice(&64496u16.to_be_bytes());
    msg.extend_from_slice(&90u16.to_be_bytes());
    msg.extend_from_slice(&[192, 0, 2, 1]);
    msg.push(0); // no optional parameters
    msg
}

fn sample_update_input() -> UpdateRecordInput {
    UpdateRecordInput {
        timestamp: 1_700_000_000,
        peer_asn: 64496,
        local_asn: 64497,
        interface_index: 0,
        peer_ip: Ipv4Address(198, 51, 100, 1),
        local_ip: Ipv4Address(198, 51, 100, 2),
        bgp_message: valid_update_withdraw_message(),
    }
}

#[test]
fn encodes_bgp4mp_update_record_with_bgpkit_models() {
    let input = sample_update_input();
    let bytes = encode_bgp4mp_message_as4(&input).expect("update encoding should succeed");

    let mut cursor = Cursor::new(bytes);
    let parsed = parse_mrt_record(&mut cursor).expect("record should parse");
    assert_eq!(parsed.common_header.entry_type, EntryType::BGP4MP);
    assert_eq!(
        parsed.common_header.entry_subtype,
        Bgp4MpType::MessageAs4 as u16
    );
}

#[test]
fn encodes_bgp4mp_state_change_record_with_bgpkit_models() {
    let input = PeerStateRecordInput {
        timestamp: 1_700_000_000,
        peer_asn: 64496,
        local_asn: 64497,
        interface_index: 0,
        peer_ip: Ipv4Address(198, 51, 100, 1),
        local_ip: Ipv4Address(198, 51, 100, 2),
        old_state: 3,
        new_state: 6,
    };

    let bytes = encode_bgp4mp_state_change_as4(&input).expect("state change encoding");
    let mut cursor = Cursor::new(bytes);
    let parsed = parse_mrt_record(&mut cursor).expect("record should parse");
    assert_eq!(parsed.common_header.entry_type, EntryType::BGP4MP);
    assert_eq!(
        parsed.common_header.entry_subtype,
        Bgp4MpType::StateChangeAs4 as u16
    );
}

#[test]
fn builds_table_dump_v2_records() {
    let snapshot = RibSnapshotInput {
        timestamp: 1_700_000_000,
        collector_bgp_id: Ipv4Address(192, 0, 2, 1),
        view_name: "main".to_string(),
        peers: vec![SnapshotPeer {
            peer_bgp_id: Ipv4Address(198, 51, 100, 1),
            peer_ip: Ipv4Address(198, 51, 100, 1),
            peer_asn: 64_512,
        }],
        routes: vec![SnapshotRoute {
            sequence: 1,
            prefix: Ipv4Address(203, 0, 113, 0),
            prefix_len: 24,
            peer_index: 0,
            originated_time: 1_700_000_000,
            path_attributes: vec![],
        }],
    };

    let records = build_table_dump_v2(&snapshot).expect("table dump should be built");
    assert_eq!(records.len(), 2);

    let mut first = Cursor::new(records[0].clone());
    let first_record = parse_mrt_record(&mut first).expect("peer index should parse");
    assert_eq!(first_record.common_header.entry_type, EntryType::TABLE_DUMP_V2);
    assert_eq!(
        first_record.common_header.entry_subtype,
        TableDumpV2Type::PeerIndexTable as u16
    );

    let mut second = Cursor::new(records[1].clone());
    let second_record = parse_mrt_record(&mut second).expect("rib entry should parse");
    assert_eq!(second_record.common_header.entry_type, EntryType::TABLE_DUMP_V2);
    assert_eq!(
        second_record.common_header.entry_subtype,
        TableDumpV2Type::RibIpv4Unicast as u16
    );
    match second_record.message {
        bgpkit_parser::models::MrtMessage::TableDumpV2Message(TableDumpV2Message::RibAfi(rib)) => {
            assert_eq!(rib.sequence_number, 1);
            assert_eq!(rib.rib_entries.len(), 1);
            assert_eq!(rib.rib_entries[0].peer_index, 0);
        }
        other => panic!("unexpected message shape: {:?}", other),
    }
}

#[test]
fn update_record_round_trip_preserves_fields() {
    let input = sample_update_input();
    let bytes = encode_bgp4mp_message_as4(&input).unwrap();
    let fields = parse_bgp4mp_message_as4(&bytes).expect("record should decode");
    assert_eq!(fields.timestamp, 1_700_000_000);
    assert_eq!(fields.peer_asn, input.peer_asn);
    assert_eq!(fields.local_asn, input.local_asn);
    assert_eq!(fields.interface_index, input.interface_index);
    assert_eq!(fields.peer_ip, input.peer_ip);
    assert_eq!(fields.local_ip, input.local_ip);
    // the embedded message is the input after marker/length normalization:
    // here the input was already normalized, so the bytes match exactly
    assert_eq!(fields.message, input.bgp_message);
    assert_eq!(&fields.message[0..16], &[0xff; 16]);
}

#[test]
fn rejects_non_update_bgp_message() {
    let mut input = sample_update_input();
    input.bgp_message = valid_open_message();
    let err = encode_bgp4mp_message_as4(&input).unwrap_err();
    assert_eq!(err.kind(), ErrorKind::Encode);
}

#[test]
fn rejects_invalid_fsm_state() {
    let input = PeerStateRecordInput {
        timestamp: 1_700_000_000,
        peer_asn: 64496,
        local_asn: 64497,
        interface_index: 0,
        peer_ip: Ipv4Address(198, 51, 100, 1),
        local_ip: Ipv4Address(198, 51, 100, 2),
        old_state: 0,
        new_state: 6,
    };
    let err = encode_bgp4mp_state_change_as4(&input).unwrap_err();
    assert_eq!(err.kind(), ErrorKind::Encode);
}

#[test]
fn rejects_route_with_unknown_peer_index() {
    let snapshot = RibSnapshotInput {
        timestamp: 1_700_000_000,
        collector_bgp_id: Ipv4Address(192, 0, 2, 1),
        view_name: "main".to_string(),
        peers: vec![],
        routes: vec![SnapshotRoute {
            sequence: 1,
            prefix: Ipv4Address(203, 0, 113, 0),
            prefix_len: 24,
            peer_index: 0,
            originated_time: 1_700_000_000,
            path_attributes: vec![],
        }],
    };
    let err = build_table_dump_v2(&snapshot).unwrap_err();
    assert_eq!(err.kind(), ErrorKind::Encode);
}

#[test]
fn rejects_invalid_prefix_length() {
    let snapshot = RibSnapshotInput {
        timestamp: 1_700_000_000,
        collector_bgp_id: Ipv4Address(192, 0, 2, 1),
        view_name: "main".to_string(),
        peers: vec![SnapshotPeer {
            peer_bgp_id: Ipv4Address(198, 51, 100, 1),
            peer_ip: Ipv4Address(198, 51, 100, 1),
            peer_asn: 64_512,
        }],
        routes: vec![SnapshotRoute {
            sequence: 1,
            prefix: Ipv4Address(203, 0, 113, 0),
            prefix_len: 33,
            peer_index: 0,
            originated_time: 1_700_000_000,
            path_attributes: vec![],
        }],
    };
    let err = build_table_dump_v2(&snapshot).unwrap_err();
    assert_eq!(err.kind(), ErrorKind::Encode);
}
