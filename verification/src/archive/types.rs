//! Data shapes of the archive subsystem.

use vstd::prelude::*;

use crate::config::CompressionKind;

verus! {

/// An IPv4 address as four octets, most significant first.
#[derive(Clone, Copy, Debug, PartialEq, Eq, Structural)]
pub struct Ipv4Address(pub u8, pub u8, pub u8, pub u8);

impl Ipv4Address {
    /// The four octets in wire order.
    pub open spec fn bytes(self) -> Seq<u8> {
        seq![self.0, self.1, self.2, self.3]
    }

    /// The all-zero address, which stands for "no address given".
    pub open spec fn spec_is_unspecified(self) -> bool {
        self.0 == 0 && self.1 == 0 && self.2 == 0 && self.3 == 0
    }

    pub fn is_unspecified(&self) -> (b: bool)
        ensures
            b == self.spec_is_unspecified(),
    {
        self.0 == 0 && self.1 == 0 && self.2 == 0 && self.3 == 0
    }
}

/// The two archive streams, each with its own path template and record kinds.
#[derive(Clone, Copy, Debug, PartialEq, Eq, Structural)]
pub enum ArchiveStream {
    Updates,
    Ribs,
}

/// The stream name as manifests and events spell it.
pub open spec fn spec_stream_name(s: ArchiveStream) -> Seq<char> {
    match s {
        ArchiveStream::Updates => "updates"@,
        ArchiveStream::Ribs => "ribs"@,
    }
}

impl ArchiveStream {
    pub fn as_str(self) -> (r: &'static str)
        ensures
            r@ == spec_stream_name(self),
    {
        match self {
            ArchiveStream::Updates => "updates",
            ArchiveStream::Ribs => "ribs",
        }
    }
}

/// Where a segment lives: its temporary path, its final path, and the
/// relative path under the archive root that manifests and replication use.
#[derive(Clone, Debug)]
pub struct SegmentPaths {
    pub tmp_path: String,
    pub final_path: String,
    pub relative_path: String,
}

/// The immutable record of a closed segment.
#[derive(Clone, Debug)]
pub struct FinalizedSegment {
    pub stream: ArchiveStream,
    pub start_ts: i64,
    pub end_ts: i64,
    pub record_count: u64,
    pub bytes: u64,
    pub compression: CompressionKind,
    pub final_path: String,
    pub relative_path: String,
    pub manifest_path: String,
}

impl FinalizedSegment {
    /// An explicit copy whose fields provably match the original's.
    pub fn duplicate(&self) -> (r: FinalizedSegment)
        ensures
            r.stream == self.stream,
            r.start_ts == self.start_ts,
            r.end_ts == self.end_ts,
            r.record_count == self.record_count,
            r.bytes == self.bytes,
            r.compression == self.compression,
            r.final_path@ == self.final_path@,
            r.relative_path@ == self.relative_path@,
            r.manifest_path@ == self.manifest_path@,
    {
        FinalizedSegment {
            stream: self.stream,
            start_ts: self.start_ts,
            end_ts: self.end_ts,
            record_count: self.record_count,
            bytes: self.bytes,
            compression: self.compression,
            final_path: self.final_path.clone(),
            relative_path: self.relative_path.clone(),
            manifest_path: self.manifest_path.clone(),
        }
    }
}

/// One received BGP UPDATE, as the ingest API takes it.
#[derive(Clone, Debug)]
pub struct UpdateRecordInput {
    pub timestamp: i64,
    pub peer_asn: u32,
    pub local_asn: u32,
    pub interface_index: u16,
    pub peer_ip: Ipv4Address,
    pub local_ip: Ipv4Address,
    pub bgp_message: Vec<u8>,
}

/// One BGP FSM state transition, as the ingest API takes it.
#[derive(Clone, Copy, Debug)]
pub struct PeerStateRecordInput {
    pub timestamp: i64,
    pub peer_asn: u32,
    pub local_asn: u32,
    pub interface_index: u16,
    pub peer_ip: Ipv4Address,
    pub local_ip: Ipv4Address,
    pub old_state: u16,
    pub new_state: u16,
}

/// One peer of a RIB snapshot's peer-index table.
#[derive(Clone, Copy, Debug)]
pub struct SnapshotPeer {
    pub peer_bgp_id: Ipv4Address,
    pub peer_ip: Ipv4Address,
    pub peer_asn: u32,
}

/// One route of a RIB snapshot.
#[derive(Clone, Debug)]
pub struct SnapshotRoute {
    pub sequence: u32,
    pub prefix: Ipv4Address,
    pub prefix_len: u8,
    pub peer_index: u16,
    pub originated_time: u32,
    pub path_attributes: Vec<u8>,
}

/// A full-table snapshot handed to `snapshot_now`.
#[derive(Clone, Debug)]
pub struct RibSnapshotInput {
    pub timestamp: i64,
    pub collector_bgp_id: Ipv4Address,
    pub view_name: String,
    pub peers: Vec<SnapshotPeer>,
    pub routes: Vec<SnapshotRoute>,
}

/// The status snapshot that the control plane reports.
#[derive(Clone, Debug)]
pub struct ArchiveStatus {
    pub enabled: bool,
    pub collector_id: String,
    pub updates_interval_secs: u32,
    pub ribs_interval_secs: u32,
    pub updates_open_path: Option<String>,
    pub updates_record_count: u64,
    pub ribs_last_path: Option<String>,
    pub ribs_last_record_count: u64,
    pub queued_replication_jobs: usize,
    pub replication_failures: u64,
}

} // verus!
