//! MRT record encoding: BGP4MP MESSAGE_AS4 and STATE_CHANGE_AS4 records and
//! TABLE_DUMP_V2 peer-index / RIB records, built byte by byte against the
//! RFC 6396 layout. The embedded BGP message and path attributes are
//! normalized by the BGP parsing library behind trusted wrappers.

use vstd::prelude::*;
use vstd::arithmetic::div_mod::lemma_fundamental_div_mod;
use vstd::string::*;
use vstd::utf8::encode_utf8;

use bgpkit_parser::models::{AsnLength, BgpMessage};
use bgpkit_parser::parser::bgp::attributes::parse_attributes;
use bgpkit_parser::parser::bgp::parse_bgp_message;

use crate::archive::types::{Ipv4Address, RibSnapshotInput, SnapshotPeer, SnapshotRoute};
use crate::archive::types::{PeerStateRecordInput, UpdateRecordInput};
use crate::errors::{ArchiveError, ErrorKind};

verus! {

/// A 16-bit value in network byte order.
pub open spec fn be16(v: u16) -> Seq<u8> {
    seq![(v / 256) as u8, (v % 256) as u8]
}

/// A 32-bit value in network byte order.
pub open spec fn be32(v: u32) -> Seq<u8> {
    seq![
        (v / 0x1000000) as u8,
        ((v / 0x10000) % 256) as u8,
        ((v / 256) % 256) as u8,
        (v % 256) as u8,
    ]
}

/// The value read back from two network-order bytes.
pub open spec fn u16_of_be(s: Seq<u8>) -> int {
    s[0] * 256 + s[1]
}

/// The value read back from four network-order bytes.
pub open spec fn u32_of_be(s: Seq<u8>) -> int {
    s[0] * 0x1000000 + s[1] * 0x10000 + s[2] * 256 + s[3]
}

pub proof fn lemma_be16_inverse(v: u16)
    ensures
        u16_of_be(be16(v)) == v,
{
    lemma_fundamental_div_mod(v as int, 256);
}

pub proof fn lemma_be32_inverse(v: u32)
    ensures
        u32_of_be(be32(v)) == v,
{
    assert((v / 0x1000000) * 0x1000000 + ((v / 0x10000) % 256) * 0x10000 + ((v / 256) % 256) * 256
        + (v % 256) == v) by (bit_vector);
}

/// An epoch second truncated to the 32-bit MRT timestamp field, with
/// two's-complement wrap-around.
pub open spec fn spec_ts_u32(t: int) -> u32 {
    (t % 0x100000000) as u32
}

/// One MRT record: the 12-byte common header followed by the payload.
pub open spec fn spec_mrt_record(ts: u32, entry_type: u16, subtype: u16, payload: Seq<u8>) -> Seq<
    u8,
> {
    be32(ts) + be16(entry_type) + be16(subtype) + be32(payload.len() as u32) + payload
}

/// The fixed part of a BGP4MP AS4 message body: peer and local ASN, interface
/// index, the IPv4 address family, and both addresses.
pub open spec fn spec_bgp4mp_as4_header(
    peer_asn: u32,
    local_asn: u32,
    interface_index: u16,
    peer_ip: Ipv4Address,
    local_ip: Ipv4Address,
) -> Seq<u8> {
    be32(peer_asn) + be32(local_asn) + be16(interface_index) + be16(1) + peer_ip.bytes()
        + local_ip.bytes()
}

fn push_be16(out: &mut Vec<u8>, v: u16)
    ensures
        final(out)@ == old(out)@ + be16(v),
{
    out.push((v / 256) as u8);
    out.push((v % 256) as u8);
    proof {
        assert(out@ =~= old(out)@ + be16(v));
    }
}

fn push_be32(out: &mut Vec<u8>, v: u32)
    ensures
        final(out)@ == old(out)@ + be32(v),
{
    out.push((v / 0x1000000) as u8);
    out.push(((v / 0x10000) % 256) as u8);
    out.push(((v / 256) % 256) as u8);
    out.push((v % 256) as u8);
    proof {
        assert(out@ =~= old(out)@ + be32(v));
    }
}

fn push_ip(out: &mut Vec<u8>, ip: Ipv4Address)
    ensures
        final(out)@ == old(out)@ + ip.bytes(),
{
    out.push(ip.0);
    out.push(ip.1);
    out.push(ip.2);
    out.push(ip.3);
    proof {
        assert(out@ =~= old(out)@ + ip.bytes());
    }
}

/// Truncates an epoch second to the MRT timestamp field.
fn mrt_timestamp(t: i64) -> (r: u32)
    ensures
        r == spec_ts_u32(t as int),
{
    t.checked_rem_euclid(4294967296).unwrap() as u32
}

/// Frames one MRT record around a payload.
pub fn mrt_record(timestamp: u32, entry_type: u16, subtype: u16, payload: &Vec<u8>) -> (r: Vec<u8>)
    requires
        payload@.len() <= 0xFFFFFFFF,
    ensures
        r@ == spec_mrt_record(timestamp, entry_type, subtype, payload@),
        r@.len() == 12 + payload@.len(),
{
    let mut out: Vec<u8> = Vec::new();
    push_be32(&mut out, timestamp);
    push_be16(&mut out, entry_type);
    push_be16(&mut out, subtype);
    push_be32(&mut out, payload.len() as u32);
    out.extend_from_slice(payload.as_slice());
    proof {
        assert(out@ =~= spec_mrt_record(timestamp, entry_type, subtype, payload@));
    }
    out
}

/// The wire bytes that the BGP library's re-encoding assigns to a parseable
/// UPDATE message: marker and length normalized, attributes re-encoded with
/// four-byte ASNs. `None` when the input does not parse as an UPDATE or its
/// re-encoding does not fit a BGP message.
pub uninterp spec fn normalized_update_of(raw: Seq<u8>) -> Option<Seq<u8>>;

/// Relies on bgpkit-parser's `parse_bgp_message` (four-byte ASNs first, then
/// the two-byte fallback) and `BgpMessage::encode`: parses the raw message
/// and re-encodes it. The encoder writes the 16-byte marker, a 16-bit total
/// length of at least 19 and at most 65535, the type byte and the body, so
/// the result's length lies in that range.
#[verifier::external_body]
fn normalize_update(raw: &Vec<u8>) -> (r: Result<Vec<u8>, String>)
    ensures
        r matches Ok(v) ==> normalized_update_of(raw@) == Some(v@) && 19 <= v@.len() <= 65535,
        r is Err ==> normalized_update_of(raw@) is None,
{
    let mut b32 = bytes::Bytes::copy_from_slice(raw.as_slice());
    let mut b16 = bytes::Bytes::copy_from_slice(raw.as_slice());
    let parsed = parse_bgp_message(&mut b32, false, &AsnLength::Bits32)
        .or_else(|_| parse_bgp_message(&mut b16, false, &AsnLength::Bits16))
        .map_err(|e| e.to_string())?;
    if !matches!(parsed, BgpMessage::Update(_)) {
        return Err("expected a BGP UPDATE message".to_string());
    }
    parsed.encode(AsnLength::Bits32).map(|b| b.to_vec()).map_err(|e| e.to_string())
}

/// The wire bytes that the BGP library's re-encoding assigns to a parseable
/// path-attribute block, with four-byte ASNs. `None` when the block does not
/// parse or cannot be re-encoded.
pub uninterp spec fn normalized_attrs_of(raw: Seq<u8>) -> Option<Seq<u8>>;

/// Relies on bgpkit-parser's `parse_attributes` and `Attributes::encode`
/// (both with four-byte ASNs): parses a path-attribute block and re-encodes
/// it. An empty block parses to no attributes and re-encodes to no bytes, as
/// both the parsing and the encoding loop show.
#[verifier::external_body]
fn normalize_attributes(raw: &Vec<u8>) -> (r: Result<Vec<u8>, String>)
    ensures
        r matches Ok(v) ==> normalized_attrs_of(raw@) == Some(v@) && (raw@.len() == 0 ==> v@.len()
            == 0),
        r is Err ==> normalized_attrs_of(raw@) is None && raw@.len() != 0,
{
    let raw_bytes = bytes::Bytes::copy_from_slice(raw.as_slice());
    let parsed = parse_attributes(raw_bytes, &AsnLength::Bits32, false, None, None, None)
        .map_err(|e| e.to_string())?;
    parsed.encode(AsnLength::Bits32).map(|b| b.to_vec()).map_err(|e| e.to_string())
}

/// The whole BGP4MP MESSAGE_AS4 record for an update input whose message
/// normalizes to `m`.
pub open spec fn spec_update_record(input: UpdateRecordInput, m: Seq<u8>) -> Seq<u8> {
    spec_mrt_record(
        spec_ts_u32(input.timestamp as int),
        16u16,
        4u16,
        spec_bgp4mp_as4_header(
            input.peer_asn,
            input.local_asn,
            input.interface_index,
            input.peer_ip,
            input.local_ip,
        ) + m,
    )
}

/// Encodes one received UPDATE as a BGP4MP MESSAGE_AS4 record. Succeeds
/// exactly when the raw message parses as a BGP UPDATE.
pub fn encode_bgp4mp_message_as4(input: &UpdateRecordInput) -> (r: Result<Vec<u8>, ArchiveError>)
    ensures
        r is Ok <==> normalized_update_of(input.bgp_message@) is Some,
        r matches Err(e) ==> e.kind == ErrorKind::Encode,
        r matches Ok(v) ==> v@ == spec_update_record(
            *input,
            normalized_update_of(input.bgp_message@)->Some_0,
        ),
        r is Ok ==> 19 <= normalized_update_of(input.bgp_message@)->Some_0.len() <= 65535,
{
    let msg = match normalize_update(&input.bgp_message) {
        Ok(m) => m,
        Err(detail) => {
            return Err(ArchiveError::new(ErrorKind::Encode, detail));
        },
    };
    let ts = mrt_timestamp(input.timestamp);
    let mut payload: Vec<u8> = Vec::new();
    push_be32(&mut payload, input.peer_asn);
    push_be32(&mut payload, input.local_asn);
    push_be16(&mut payload, input.interface_index);
    push_be16(&mut payload, 1);
    push_ip(&mut payload, input.peer_ip);
    push_ip(&mut payload, input.local_ip);
    let ghost header = spec_bgp4mp_as4_header(
        input.peer_asn,
        input.local_asn,
        input.interface_index,
        input.peer_ip,
        input.local_ip,
    );
    let ghost m_view = msg@;
    let mut m = msg;
    payload.append(&mut m);
    proof {
        assert(payload@ =~= header + m_view);
    }
    Ok(mrt_record(ts, 16, 4, &payload))
}

/// The BGP FSM state codes that the MRT state-change record accepts.
pub open spec fn spec_valid_fsm_state(s: u16) -> bool {
    1 <= s <= 8
}

/// The whole BGP4MP STATE_CHANGE_AS4 record for a peer-state input.
pub open spec fn spec_state_change_record(input: PeerStateRecordInput) -> Seq<u8> {
    spec_mrt_record(
        spec_ts_u32(input.timestamp as int),
        16u16,
        5u16,
        spec_bgp4mp_as4_header(
            input.peer_asn,
            input.local_asn,
            input.interface_index,
            input.peer_ip,
            input.local_ip,
        ) + be16(input.old_state) + be16(input.new_state),
    )
}

/// Encodes one FSM transition as a BGP4MP STATE_CHANGE_AS4 record. Succeeds
/// exactly when both states are FSM state codes.
pub fn encode_bgp4mp_state_change_as4(input: &PeerStateRecordInput) -> (r: Result<
    Vec<u8>,
    ArchiveError,
>)
    ensures
        r is Ok <==> spec_valid_fsm_state(input.old_state) && spec_valid_fsm_state(
            input.new_state,
        ),
        r matches Err(e) ==> e.kind == ErrorKind::Encode,
        r matches Ok(v) ==> v@ == spec_state_change_record(*input),
{
    if input.old_state < 1 || input.old_state > 8 {
        return Err(ArchiveError::new(ErrorKind::Encode, "invalid old_state value".to_owned()));
    }
    if input.new_state < 1 || input.new_state > 8 {
        return Err(ArchiveError::new(ErrorKind::Encode, "invalid new_state value".to_owned()));
    }
    let ts = mrt_timestamp(input.timestamp);
    let mut payload: Vec<u8> = Vec::new();
    push_be32(&mut payload, input.peer_asn);
    push_be32(&mut payload, input.local_asn);
    push_be16(&mut payload, input.interface_index);
    push_be16(&mut payload, 1);
    push_ip(&mut payload, input.peer_ip);
    push_ip(&mut payload, input.local_ip);
    push_be16(&mut payload, input.old_state);
    push_be16(&mut payload, input.new_state);
    proof {
        assert(payload@ =~= spec_bgp4mp_as4_header(
            input.peer_asn,
            input.local_asn,
            input.interface_index,
            input.peer_ip,
            input.local_ip,
        ) + be16(input.old_state) + be16(input.new_state));
    }
    Ok(mrt_record(ts, 16, 5, &payload))
}

/// One peer entry of the peer-index table: the AS4+IPv4 peer type byte, the
/// peer's BGP id, its address and its 32-bit ASN.
pub open spec fn spec_peer_entry(p: SnapshotPeer) -> Seq<u8> {
    seq![2u8] + p.peer_bgp_id.bytes() + p.peer_ip.bytes() + be32(p.peer_asn)
}

/// The concatenated peer entries, in order.
pub open spec fn peers_bytes(peers: Seq<SnapshotPeer>) -> Seq<u8>
    decreases peers.len(),
{
    if peers.len() == 0 {
        Seq::empty()
    } else {
        peers_bytes(peers.drop_last()) + spec_peer_entry(peers.last())
    }
}

pub proof fn lemma_peers_bytes_len(peers: Seq<SnapshotPeer>)
    ensures
        peers_bytes(peers).len() == 13 * peers.len(),
    decreases peers.len(),
{
    if peers.len() > 0 {
        lemma_peers_bytes_len(peers.drop_last());
    }
}

/// The PEER_INDEX_TABLE payload: collector BGP id, view name with a 16-bit
/// byte length, peer count, and the peer entries.
pub open spec fn spec_peer_index_payload(s: RibSnapshotInput) -> Seq<u8> {
    let vb = encode_utf8(s.view_name@);
    s.collector_bgp_id.bytes() + be16(vb.len() as u16) + vb + be16(s.peers@.len() as u16)
        + peers_bytes(s.peers@)
}

/// One RIB_IPV4_UNICAST payload for a route whose attributes normalize to
/// `attrs`: sequence number, length-prefixed prefix, and a single RIB entry.
pub open spec fn spec_rib_payload(route: SnapshotRoute, attrs: Seq<u8>) -> Seq<u8> {
    be32(route.sequence) + seq![route.prefix_len] + route.prefix.bytes().take(
        ((route.prefix_len + 7) / 8) as int,
    ) + be16(1) + be16(route.peer_index) + be32(route.originated_time) + be16(attrs.len() as u16)
        + attrs
}

/// Whether one route of a snapshot can be encoded: an IPv4 prefix length, a
/// peer index that the table holds, and parseable attributes that fit the
/// 16-bit length field.
pub open spec fn spec_route_encodable(s: RibSnapshotInput, route: SnapshotRoute) -> bool {
    &&& route.prefix_len <= 32
    &&& (route.peer_index as int) < s.peers@.len()
    &&& normalized_attrs_of(route.path_attributes@) matches Some(a) && a.len() <= 65535
}

/// Whether a snapshot can be encoded at all.
pub open spec fn spec_snapshot_encodable(s: RibSnapshotInput) -> bool {
    &&& s.peers@.len() <= 65535
    &&& encode_utf8(s.view_name@).len() <= 65535
    &&& forall|i: int| 0 <= i < s.routes@.len() ==> spec_route_encodable(s, #[trigger] s.routes@[i])
}

/// Builds the TABLE_DUMP_V2 records of a snapshot: the peer-index table
/// first, then one RIB_IPV4_UNICAST record per route.
pub fn build_table_dump_v2(snapshot: &RibSnapshotInput) -> (r: Result<Vec<Vec<u8>>, ArchiveError>)
    ensures
        r is Ok <==> spec_snapshot_encodable(*snapshot),
        r matches Err(e) ==> e.kind == ErrorKind::Encode,
        r matches Ok(v) ==> {
            &&& v@.len() == 1 + snapshot.routes@.len()
            &&& v@[0]@ == spec_mrt_record(
                spec_ts_u32(snapshot.timestamp as int),
                13u16,
                1u16,
                spec_peer_index_payload(*snapshot),
            )
            &&& forall|i: int|
                0 <= i < snapshot.routes@.len() ==> (#[trigger] v@[i + 1])@ == spec_mrt_record(
                    spec_ts_u32(snapshot.timestamp as int),
                    13u16,
                    2u16,
                    spec_rib_payload(
                        snapshot.routes@[i],
                        normalized_attrs_of(snapshot.routes@[i].path_attributes@)->Some_0,
                    ),
                )
        },
{
    let ts = mrt_timestamp(snapshot.timestamp);
    if snapshot.peers.len() > 65535 {
        return Err(ArchiveError::new(
            ErrorKind::Encode,
            "peer count exceeds the TABLE_DUMP_V2 limit".to_owned(),
        ));
    }
    let mut vb = snapshot.view_name.as_str().as_bytes_vec();
    if vb.len() > 65535 {
        return Err(ArchiveError::new(
            ErrorKind::Encode,
            "view name exceeds the TABLE_DUMP_V2 limit".to_owned(),
        ));
    }
    let vb_len = vb.len();
    let mut payload: Vec<u8> = Vec::new();
    push_ip(&mut payload, snapshot.collector_bgp_id);
    push_be16(&mut payload, vb_len as u16);
    payload.append(&mut vb);
    push_be16(&mut payload, snapshot.peers.len() as u16);
    let ghost table_prefix = payload@;
    let pn = snapshot.peers.len();
    let mut i: usize = 0;
    while i < pn
        invariant
            i <= pn,
            pn == snapshot.peers@.len(),
            payload@ == table_prefix + peers_bytes(snapshot.peers@.take(i as int)),
        decreases pn - i,
    {
        let ghost done = snapshot.peers@.take(i as int);
        let p = &snapshot.peers[i];
        payload.push(2u8);
        push_ip(&mut payload, p.peer_bgp_id);
        push_ip(&mut payload, p.peer_ip);
        push_be32(&mut payload, p.peer_asn);
        proof {
            assert(snapshot.peers@.take(i + 1).drop_last() =~= done);
            assert(snapshot.peers@.take(i + 1).last() == snapshot.peers@[i as int]);
            assert(payload@ =~= table_prefix + peers_bytes(snapshot.peers@.take(i + 1)));
        }
        i = i + 1;
    }
    proof {
        assert(snapshot.peers@.take(pn as int) =~= snapshot.peers@);
        lemma_peers_bytes_len(snapshot.peers@);
        assert(payload@ =~= spec_peer_index_payload(*snapshot));
    }
    let mut records: Vec<Vec<u8>> = Vec::new();
    records.push(mrt_record(ts, 13, 1, &payload));
    let rn = snapshot.routes.len();
    let mut i: usize = 0;
    while i < rn
        invariant
            i <= rn,
            rn == snapshot.routes@.len(),
            pn == snapshot.peers@.len(),
            pn <= 65535,
            encode_utf8(snapshot.view_name@).len() <= 65535,
            ts == spec_ts_u32(snapshot.timestamp as int),
            records@.len() == i + 1,
            records@[0]@ == spec_mrt_record(
                spec_ts_u32(snapshot.timestamp as int),
                13u16,
                1u16,
                spec_peer_index_payload(*snapshot),
            ),
            forall|j: int|
                0 <= j < i ==> spec_route_encodable(*snapshot, #[trigger] snapshot.routes@[j]),
            forall|j: int|
                0 <= j < i ==> (#[trigger] records@[j + 1])@ == spec_mrt_record(
                    spec_ts_u32(snapshot.timestamp as int),
                    13u16,
                    2u16,
                    spec_rib_payload(
                        snapshot.routes@[j],
                        normalized_attrs_of(snapshot.routes@[j].path_attributes@)->Some_0,
                    ),
                ),
        decreases rn - i,
    {
        let route = &snapshot.routes[i];
        if route.prefix_len > 32 {
            return Err(ArchiveError::new(
                ErrorKind::Encode,
                "invalid IPv4 prefix length".to_owned(),
            ));
        }
        if route.peer_index as usize >= pn {
            return Err(ArchiveError::new(
                ErrorKind::Encode,
                "route references an unknown peer index".to_owned(),
            ));
        }
        let mut attrs = match normalize_attributes(&route.path_attributes) {
            Ok(a) => a,
            Err(detail) => {
                return Err(ArchiveError::new(ErrorKind::Encode, detail));
            },
        };
        if attrs.len() > 65535 {
            return Err(ArchiveError::new(
                ErrorKind::Encode,
                "path attributes exceed the RIB entry limit".to_owned(),
            ));
        }
        let ghost attrs_view = attrs@;
        let mut rp: Vec<u8> = Vec::new();
        push_be32(&mut rp, route.sequence);
        rp.push(route.prefix_len);
        let mut ob: Vec<u8> = Vec::new();
        ob.push(route.prefix.0);
        ob.push(route.prefix.1);
        ob.push(route.prefix.2);
        ob.push(route.prefix.3);
        let blen = ((route.prefix_len as usize) + 7) / 8;
        ob.truncate(blen);
        proof {
            assert(ob@ =~= route.prefix.bytes().take(((route.prefix_len + 7) / 8) as int));
        }
        rp.append(&mut ob);
        push_be16(&mut rp, 1);
        push_be16(&mut rp, route.peer_index);
        push_be32(&mut rp, route.originated_time);
        push_be16(&mut rp, attrs.len() as u16);
        rp.append(&mut attrs);
        proof {
            assert(rp@ =~= spec_rib_payload(snapshot.routes@[i as int], attrs_view));
        }
        let rec = mrt_record(ts, 13, 2, &rp);
        records.push(rec);
        i = i + 1;
    }
    proof {
        assert(spec_snapshot_encodable(*snapshot));
    }
    Ok(records)
}

/// The `j`-th MRT record of a snapshot's segment: the peer-index table
/// first, then one RIB record per route.
pub open spec fn spec_snapshot_record(s: RibSnapshotInput, j: int) -> Seq<u8> {
    if j == 0 {
        spec_mrt_record(
            spec_ts_u32(s.timestamp as int),
            13u16,
            1u16,
            spec_peer_index_payload(s),
        )
    } else {
        spec_mrt_record(
            spec_ts_u32(s.timestamp as int),
            13u16,
            2u16,
            spec_rib_payload(
                s.routes@[j - 1],
                normalized_attrs_of(s.routes@[j - 1].path_attributes@)->Some_0,
            ),
        )
    }
}

/// The concatenation of a snapshot's first `i` MRT records.
pub open spec fn spec_snapshot_bytes(s: RibSnapshotInput, i: int) -> Seq<u8>
    decreases i,
{
    if i <= 0 {
        Seq::empty()
    } else {
        spec_snapshot_bytes(s, i - 1) + spec_snapshot_record(s, i - 1)
    }
}

/// The whole uncompressed segment an encodable snapshot produces.
pub open spec fn spec_snapshot_segment_bytes(s: RibSnapshotInput) -> Seq<u8> {
    spec_snapshot_bytes(s, 1 + s.routes@.len() as int)
}

/// The UTF-8 encoding of a character sequence takes at most four bytes per
/// character.
pub proof fn lemma_encode_utf8_len(s: Seq<char>)
    ensures
        encode_utf8(s).len() <= 4 * s.len(),
    decreases s.len(),
{
    if s.len() > 0 {
        lemma_encode_utf8_len(s.drop_first());
    }
}

/// The fields read back from a BGP4MP MESSAGE_AS4 record over IPv4.
pub struct Bgp4MpUpdateFields {
    pub timestamp: u32,
    pub peer_asn: u32,
    pub local_asn: u32,
    pub interface_index: u16,
    pub peer_ip: Ipv4Address,
    pub local_ip: Ipv4Address,
    pub message: Vec<u8>,
}

fn read_u16_at(v: &Vec<u8>, at: usize) -> (r: u16)
    requires
        at + 2 <= v@.len(),
    ensures
        r == u16_of_be(v@.subrange(at as int, at + 2)),
{
    let n = v.len();
    let b0 = v[at];
    let b1 = v[at + 1];
    proof {
        assert(v@.subrange(at as int, at + 2)[0] == v@[at as int]);
        assert(v@.subrange(at as int, at + 2)[1] == v@[at + 1]);
    }
    (b0 as u16) * 256 + (b1 as u16)
}

fn read_u32_at(v: &Vec<u8>, at: usize) -> (r: u32)
    requires
        at + 4 <= v@.len(),
    ensures
        r == u32_of_be(v@.subrange(at as int, at + 4)),
{
    let n = v.len();
    let b0 = v[at];
    let b1 = v[at + 1];
    let b2 = v[at + 2];
    let b3 = v[at + 3];
    proof {
        assert(v@.subrange(at as int, at + 4)[0] == v@[at as int]);
        assert(v@.subrange(at as int, at + 4)[1] == v@[at + 1]);
        assert(v@.subrange(at as int, at + 4)[2] == v@[at + 2]);
        assert(v@.subrange(at as int, at + 4)[3] == v@[at + 3]);
    }
    (b0 as u32) * 0x1000000 + (b1 as u32) * 0x10000 + (b2 as u32) * 256 + (b3 as u32)
}

/// Reads one BGP4MP MESSAGE_AS4 record over IPv4 back into its fields.
/// Accepts exactly the records whose header declares that type and subtype,
/// whose length field matches, and whose address family is IPv4.
pub fn parse_bgp4mp_message_as4(record: &Vec<u8>) -> (r: Option<Bgp4MpUpdateFields>)
    ensures
        r matches Some(f) ==> {
            &&& record@.len() >= 32
            &&& f.timestamp == u32_of_be(record@.subrange(0, 4))
            &&& u16_of_be(record@.subrange(4, 6)) == 16
            &&& u16_of_be(record@.subrange(6, 8)) == 4
            &&& u32_of_be(record@.subrange(8, 12)) == record@.len() - 12
            &&& f.peer_asn == u32_of_be(record@.subrange(12, 16))
            &&& f.local_asn == u32_of_be(record@.subrange(16, 20))
            &&& f.interface_index == u16_of_be(record@.subrange(20, 22))
            &&& u16_of_be(record@.subrange(22, 24)) == 1
            &&& f.peer_ip.bytes() == record@.subrange(24, 28)
            &&& f.local_ip.bytes() == record@.subrange(28, 32)
            &&& f.message@ == record@.skip(32)
        },
        r is None ==> !{
            &&& record@.len() >= 32
            &&& u16_of_be(record@.subrange(4, 6)) == 16
            &&& u16_of_be(record@.subrange(6, 8)) == 4
            &&& u32_of_be(record@.subrange(8, 12)) == record@.len() - 12
            &&& u16_of_be(record@.subrange(22, 24)) == 1
        },
{
    let n = record.len();
    if n < 32 {
        return None;
    }
    let entry_type = read_u16_at(record, 4);
    let subtype = read_u16_at(record, 6);
    let length = read_u32_at(record, 8);
    let afi = read_u16_at(record, 22);
    if entry_type != 16 || subtype != 4 || afi != 1 {
        return None;
    }
    if (length as usize) != n - 12 {
        return None;
    }
    let timestamp = read_u32_at(record, 0);
    let peer_asn = read_u32_at(record, 12);
    let local_asn = read_u32_at(record, 16);
    let interface_index = read_u16_at(record, 20);
    let peer_ip = Ipv4Address(record[24], record[25], record[26], record[27]);
    let local_ip = Ipv4Address(record[28], record[29], record[30], record[31]);
    let mut message: Vec<u8> = Vec::new();
    let mut i: usize = 32;
    while i < n
        invariant
            32 <= i <= n,
            n == record@.len(),
            message@ == record@.subrange(32, i as int),
        decreases n - i,
    {
        message.push(record[i]);
        proof {
            assert(message@ =~= record@.subrange(32, i + 1));
        }
        i = i + 1;
    }
    proof {
        assert(message@ =~= record@.skip(32));
        assert(peer_ip.bytes() =~= record@.subrange(24, 28));
        assert(local_ip.bytes() =~= record@.subrange(28, 32));
    }
    Some(
        Bgp4MpUpdateFields {
            timestamp,
            peer_asn,
            local_asn,
            interface_index,
            peer_ip,
            local_ip,
            message,
        },
    )
}

/// Law (round trip): the BGP4MP MESSAGE_AS4 record built from an update
/// input carries, at their wire offsets, exactly the input's peer ASN, local
/// ASN, interface index, both addresses, and the normalized UPDATE bytes —
/// so reading the record back recovers every field.
pub proof fn lemma_update_record_roundtrip(input: UpdateRecordInput, m: Seq<u8>)
    requires
        m.len() <= 65535,
    ensures
        spec_update_record(input, m).len() == 32 + m.len(),
        u32_of_be(spec_update_record(input, m).subrange(0, 4)) == spec_ts_u32(
            input.timestamp as int,
        ),
        u16_of_be(spec_update_record(input, m).subrange(4, 6)) == 16,
        u16_of_be(spec_update_record(input, m).subrange(6, 8)) == 4,
        u32_of_be(spec_update_record(input, m).subrange(8, 12)) == 20 + m.len(),
        u32_of_be(spec_update_record(input, m).subrange(12, 16)) == input.peer_asn,
        u32_of_be(spec_update_record(input, m).subrange(16, 20)) == input.local_asn,
        u16_of_be(spec_update_record(input, m).subrange(20, 22)) == input.interface_index,
        u16_of_be(spec_update_record(input, m).subrange(22, 24)) == 1,
        spec_update_record(input, m).subrange(24, 28) == input.peer_ip.bytes(),
        spec_update_record(input, m).subrange(28, 32) == input.local_ip.bytes(),
        spec_update_record(input, m).skip(32) == m,
{
    let ts = spec_ts_u32(input.timestamp as int);
    let header = spec_bgp4mp_as4_header(
        input.peer_asn,
        input.local_asn,
        input.interface_index,
        input.peer_ip,
        input.local_ip,
    );
    let v = spec_update_record(input, m);
    let payload = header + m;
    assert(payload.len() == 20 + m.len());
    assert(v =~= be32(ts) + be16(16u16) + be16(4u16) + be32(payload.len() as u32) + payload);
    assert(v.subrange(0, 4) =~= be32(ts));
    lemma_be32_inverse(ts);
    assert(v.subrange(4, 6) =~= be16(16u16));
    lemma_be16_inverse(16u16);
    assert(v.subrange(6, 8) =~= be16(4u16));
    lemma_be16_inverse(4u16);
    assert(v.subrange(8, 12) =~= be32((20 + m.len()) as u32));
    lemma_be32_inverse((20 + m.len()) as u32);
    assert(v.subrange(12, 16) =~= be32(input.peer_asn));
    lemma_be32_inverse(input.peer_asn);
    assert(v.subrange(16, 20) =~= be32(input.local_asn));
    lemma_be32_inverse(input.local_asn);
    assert(v.subrange(20, 22) =~= be16(input.interface_index));
    lemma_be16_inverse(input.interface_index);
    assert(v.subrange(22, 24) =~= be16(1u16));
    lemma_be16_inverse(1u16);
    assert(v.subrange(24, 28) =~= input.peer_ip.bytes());
    assert(v.subrange(28, 32) =~= input.local_ip.bytes());
    assert(v.skip(32) =~= m);
}

} // verus!
