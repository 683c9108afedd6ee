//! The archive subsystem: layout, MRT encoding, segment writing, manifests,
//! the replication queue and the archive service that orchestrates them.
//!
//! The service here is the verified core of the daemon's archive: it owns
//! the open updates segment, rotates it at bucket boundaries, emits RIB
//! snapshots, and plans the replication of finalized segments. It performs
//! no I/O itself: every operation returns its effects — file-system actions
//! to run in order, events to broadcast, and replication jobs to insert once
//! the segment stands at its final path. Every failure happens before the
//! service's state changes, so an error never loses a finalized segment.

pub mod layout;
pub mod manifest;
pub mod queue;
pub mod replicator;
pub mod snapshot;
pub mod types;
pub mod writer;

use vstd::prelude::*;
use vstd::string::*;

use crate::archive::layout::{aligned_epoch, segment_paths, spec_aligned, spec_segment_paths};
use crate::archive::queue::{now_epoch, ReplicationQueue};
use crate::archive::replicator::{
    replication_requests, spec_replica_targets, ReplicationRequest, Replicator,
};
use crate::archive::snapshot::{
    build_table_dump_v2, encode_bgp4mp_message_as4, encode_bgp4mp_state_change_as4,
    lemma_encode_utf8_len, normalized_update_of, spec_snapshot_bytes, spec_snapshot_encodable,
    spec_snapshot_record, spec_snapshot_segment_bytes, spec_state_change_record,
    spec_update_record, spec_valid_fsm_state,
};
use crate::archive::types::{
    spec_stream_name, ArchiveStatus, ArchiveStream, FinalizedSegment, Ipv4Address,
    PeerStateRecordInput, RibSnapshotInput, UpdateRecordInput,
};
use crate::archive::writer::{spec_finalize_outcome, FsAction, SegmentWriter};
use crate::config::{
    spec_archive_config_valid, spec_destination_key, ArchiveConfig, DestinationMode,
    DestinationType,
};
use crate::errors::{ArchiveError, ErrorKind};
use crate::types::{Event, EventEnvelope};

verus! {

/// The side effects of one service operation: file-system actions to perform
/// in order, then events to broadcast, then replication jobs to insert —
/// after the actions, so that every job points at a file that exists.
#[derive(Debug)]
pub struct Effects {
    pub actions: Vec<FsAction>,
    pub events: Vec<EventEnvelope>,
    pub enqueues: Vec<ReplicationRequest>,
}

impl Effects {
    fn none() -> (r: Effects)
        ensures
            r.actions@.len() == 0,
            r.events@.len() == 0,
            r.enqueues@.len() == 0,
    {
        Effects { actions: Vec::new(), events: Vec::new(), enqueues: Vec::new() }
    }
}

/// Rounds a timestamp down to its bucket start, rejecting the few timestamps
/// near the representable minimum for which the bucket start would not be
/// representable.
fn bucket_start(timestamp: i64, interval: u32) -> (r: Result<i64, ArchiveError>)
    requires
        interval > 0,
    ensures
        r matches Ok(b) ==> b == spec_aligned(timestamp as int, interval as int) && i64::MIN
            + interval <= timestamp,
        r matches Err(e) ==> e.kind == ErrorKind::Layout && timestamp < i64::MIN + interval,
{
    if timestamp >= i64::MIN + (interval as i64) {
        Ok(aligned_epoch(timestamp, interval))
    } else {
        Err(ArchiveError::new(
            ErrorKind::Layout,
            "timestamp is below the representable bucket range".to_owned(),
        ))
    }
}

/// The archive orchestrator: the open updates segment, the last RIB segment,
/// the scheduler's last RIB bucket, and the replication worker state.
pub struct ArchiveService {
    pub cfg: ArchiveConfig,
    pub collector_bgp_id: Ipv4Address,
    pub updates_writer: Option<SegmentWriter>,
    pub ribs_last: Option<FinalizedSegment>,
    pub last_rib_bucket: Option<i64>,
    pub replicator: Option<Replicator>,
}

/// The destination mode as the control plane spells it.
pub open spec fn spec_mode_name(m: DestinationMode) -> Seq<char> {
    match m {
        DestinationMode::Primary => "primary"@,
        DestinationMode::AsyncReplica => "async_replica"@,
    }
}

/// The destination type as the control plane spells it.
pub open spec fn spec_type_name(t: DestinationType) -> Seq<char> {
    match t {
        DestinationType::Local => "local"@,
        DestinationType::S3 => "s3"@,
    }
}

/// The envelope announcing a freshly opened segment.
pub open spec fn spec_opened_event(
    e: EventEnvelope,
    stream: ArchiveStream,
    path: Seq<char>,
    start_ts: i64,
) -> bool {
    &&& e.version == 1
    &&& e.envelope_type@ == "event"@
    &&& e.event matches Event::ArchiveSegmentOpened { stream: s, path: p, start_ts: t } && s@
        == spec_stream_name(stream) && p@ == path && t == start_ts
}

/// The envelope announcing a finalized segment.
pub open spec fn spec_finalized_event(
    e: EventEnvelope,
    stream: ArchiveStream,
    path: Seq<char>,
    end_ts: i64,
    records: u64,
) -> bool {
    &&& e.version == 1
    &&& e.envelope_type@ == "event"@
    &&& e.event matches Event::ArchiveSegmentFinalized { stream: s, path: p, end_ts: t, records: n }
        && s@ == spec_stream_name(stream) && p@ == path && t == end_ts && n == records
}

/// Whether the archive can lay out an updates segment for `ts`: the archive
/// is enabled, the bucket start is representable, and the path rendering
/// succeeds.
pub open spec fn spec_updates_ready(s: ArchiveService, ts: i64) -> bool {
    &&& s.cfg.enabled
    &&& i64::MIN + s.cfg.updates_interval_secs <= ts
    &&& spec_segment_paths(s.cfg, ArchiveStream::Updates, ts) is Ok
}

/// Whether the open updates writer already covers the bucket of `ts`.
pub open spec fn spec_covers_bucket(s: ArchiveService, ts: i64) -> bool {
    s.updates_writer matches Some(w) && w.start_ts == spec_aligned(
        ts as int,
        s.cfg.updates_interval_secs as int,
    )
}

/// The replication jobs a finalized segment at `final_path` owes: with a
/// replication worker, one request per plan entry pointing at the segment
/// and its manifest; none without a worker.
pub open spec fn spec_requests_for(
    s0: ArchiveService,
    final_path: Seq<char>,
    manifest_path: Seq<char>,
    reqs: Seq<ReplicationRequest>,
) -> bool {
    if s0.replicator is Some {
        let targets = spec_replica_targets(s0.cfg.destinations@);
        &&& reqs.len() == targets.len()
        &&& forall|i: int|
            0 <= i < reqs.len() ==> {
                &&& (#[trigger] reqs[i]).segment_path@ == final_path
                &&& reqs[i].manifest_path@ == manifest_path
                &&& reqs[i].destination_key@ == targets[i].0
                &&& reqs[i].max_retries == targets[i].1
            }
    } else {
        reqs.len() == 0
    }
}

/// The fresh writer a rotation at `ts` installs: empty, on the bucket of
/// `ts`, at the rendered updates paths, carrying the configuration.
pub open spec fn spec_fresh_updates_writer(s0: ArchiveService, ts: i64, s1: ArchiveService) -> bool {
    let paths = spec_segment_paths(s0.cfg, ArchiveStream::Updates, ts)->Ok_0;
    let bucket = spec_aligned(ts as int, s0.cfg.updates_interval_secs as int);
    s1.updates_writer matches Some(w) && w.record_count == 0 && w.buffer@.len() == 0
        && w.start_ts == bucket && w.stream == ArchiveStream::Updates && w.paths.tmp_path@
        == paths.0 && w.paths.final_path@ == paths.1 && w.paths.relative_path@ == paths.2
        && w.collector_id@ == s0.cfg.collector_id@ && w.compression == s0.cfg.compression
        && w.layout_profile == s0.cfg.layout_profile && w.fsync_on_rotate
        == s0.cfg.fsync_on_rotate
}

/// The effects a rotation at `ts` hands back: when a writer `w0` was open,
/// its finalize actions, a Finalized and then an Opened event, and the
/// closed segment's replication requests; only the Opened event otherwise.
pub open spec fn spec_rotation_log(s0: ArchiveService, ts: i64, e: Effects) -> bool {
    let paths = spec_segment_paths(s0.cfg, ArchiveStream::Updates, ts)->Ok_0;
    let bucket = spec_aligned(ts as int, s0.cfg.updates_interval_secs as int);
    match s0.updates_writer {
        Some(w0) => {
            &&& (exists|seg: FinalizedSegment| #[trigger] spec_finalize_outcome(
                w0,
                ts,
                seg,
                e.actions@,
            ))
            &&& e.events@.len() == 2
            &&& spec_finalized_event(
                e.events@[0],
                ArchiveStream::Updates,
                w0.paths.final_path@,
                ts,
                w0.record_count,
            )
            &&& spec_opened_event(e.events@[1], ArchiveStream::Updates, paths.1, bucket as i64)
            &&& spec_requests_for(
                s0,
                w0.paths.final_path@,
                w0.paths.final_path@ + ".json"@,
                e.enqueues@,
            )
        },
        None => {
            &&& e.actions@.len() == 0
            &&& e.events@.len() == 1
            &&& spec_opened_event(e.events@[0], ArchiveStream::Updates, paths.1, bucket as i64)
            &&& e.enqueues@.len() == 0
        },
    }
}

/// What a rotation at `ts` leaves behind, taking service `s0` to `s1` with
/// effects `e`: the fresh writer and the rotation's effects.
pub open spec fn spec_rotation_effects(
    s0: ArchiveService,
    ts: i64,
    s1: ArchiveService,
    e: Effects,
) -> bool {
    spec_fresh_updates_writer(s0, ts, s1) && spec_rotation_log(s0, ts, e)
}

impl ArchiveService {
    /// A service is well-formed when an enabled archive has positive bucket
    /// intervals (the validator guarantees that) and the open writer, if
    /// any, is itself well-formed and belongs to the updates stream.
    pub open spec fn wf(self) -> bool {
        &&& (self.cfg.enabled ==> self.cfg.updates_interval_secs > 0
            && self.cfg.ribs_interval_secs > 0)
        &&& (self.updates_writer matches Some(w) ==> w.wf() && w.stream
            == ArchiveStream::Updates)
    }

    /// The service's unchanging parts: everything an operation never touches.
    pub open spec fn same_core(self, other: ArchiveService) -> bool {
        &&& self.cfg == other.cfg
        &&& self.collector_bgp_id == other.collector_bgp_id
        &&& self.replicator == other.replicator
    }

    /// Builds the service over a validated configuration. The queue, already
    /// initialized by the caller, feeds the replication worker; a disabled
    /// archive gets none.
    pub fn new(cfg: ArchiveConfig, collector_bgp_id: Ipv4Address, queue: Option<ReplicationQueue>)
        -> (r: ArchiveService)
        requires
            spec_archive_config_valid(cfg),
        ensures
            r.wf(),
            r.cfg == cfg,
            r.collector_bgp_id == collector_bgp_id,
            r.updates_writer is None,
            r.ribs_last is None,
            r.last_rib_bucket is None,
            cfg.enabled ==> (match queue {
                Some(q) => r.replicator matches Some(rep) && rep.queue == q && rep.failures == 0,
                None => r.replicator is None,
            }),
            !cfg.enabled ==> r.replicator is None,
    {
        let replicator = if cfg.enabled {
            match queue {
                Some(q) => Some(Replicator::new(q)),
                None => None,
            }
        } else {
            None
        };
        ArchiveService {
            cfg,
            collector_bgp_id,
            updates_writer: None,
            ribs_last: None,
            last_rib_bucket: None,
            replicator,
        }
    }

    /// Makes the open updates writer cover the bucket of `now_ts`: keeps it
    /// when it already does, otherwise finalizes the old segment and opens a
    /// fresh writer for the new bucket, handing back the closed segment's
    /// actions, events and replication requests. Succeeds on every
    /// layout-ready timestamp; an error changes nothing.
    pub fn ensure_updates_writer(&mut self, now_ts: i64) -> (r: Result<Effects, ArchiveError>)
        requires
            old(self).wf(),
        ensures
            final(self).wf(),
            old(self).same_core(*final(self)),
            final(self).ribs_last == old(self).ribs_last,
            final(self).last_rib_bucket == old(self).last_rib_bucket,
            r is Err ==> *final(self) == *old(self),
            !old(self).cfg.enabled ==> *final(self) == *old(self) && (r matches Ok(e)
                && e.actions@.len() == 0 && e.events@.len() == 0 && e.enqueues@.len() == 0),
            old(self).cfg.enabled && i64::MIN + old(self).cfg.updates_interval_secs <= now_ts
                && spec_covers_bucket(*old(self), now_ts) ==> *final(self) == *old(self) && (
            r matches Ok(e) && e.actions@.len() == 0 && e.events@.len() == 0 && e.enqueues@.len()
                == 0),
            spec_updates_ready(*old(self), now_ts) ==> r is Ok,
            r is Ok && old(self).cfg.enabled ==> i64::MIN + old(self).cfg.updates_interval_secs
                <= now_ts,
            r is Ok && old(self).cfg.enabled ==> (final(self).updates_writer matches Some(w)
                && w.start_ts == spec_aligned(
                now_ts as int,
                old(self).cfg.updates_interval_secs as int,
            )),
            old(self).cfg.enabled && !spec_covers_bucket(*old(self), now_ts) ==> (r matches Ok(e)
                ==> spec_rotation_effects(*old(self), now_ts, *final(self), e)),
            old(self).cfg.enabled ==> (r matches Err(err) ==> (now_ts < i64::MIN + old(
                self,
            ).cfg.updates_interval_secs && err.kind == ErrorKind::Layout) || spec_segment_paths(
                old(self).cfg,
                ArchiveStream::Updates,
                now_ts,
            ) == Err::<(Seq<char>, Seq<char>, Seq<char>), ErrorKind>(err.kind)),
    {
        if !self.cfg.enabled {
            return Ok(Effects::none());
        }
        let interval = self.cfg.updates_interval_secs;
        let bucket = match bucket_start(now_ts, interval) {
            Ok(b) => b,
            Err(e) => {
                return Err(e);
            },
        };
        let needs_rotate = match &self.updates_writer {
            Some(w) => w.start_ts() != bucket,
            None => true,
        };
        if !needs_rotate {
            return Ok(Effects::none());
        }
        let paths = match segment_paths(&self.cfg, ArchiveStream::Updates, now_ts) {
            Ok(p) => p,
            Err(e) => {
                return Err(e);
            },
        };
        let mut actions: Vec<FsAction> = Vec::new();
        let mut events: Vec<EventEnvelope> = Vec::new();
        let mut enqueues: Vec<ReplicationRequest> = Vec::new();
        let ghost mut gseg: Option<FinalizedSegment> = None;
        let taken = self.updates_writer.take();
        if let Some(old_writer) = taken {
            let ghost w0 = old_writer;
            let (seg, acts) = old_writer.finalize(now_ts);
            proof {
                gseg = Some(seg);
            }
            actions = acts;
            events.push(
                EventEnvelope::new(
                    Event::ArchiveSegmentFinalized {
                        stream: ArchiveStream::Updates.as_str().to_owned(),
                        path: seg.final_path.clone(),
                        end_ts: seg.end_ts,
                        records: seg.record_count,
                    },
                ),
            );
            proof {
                assert(spec_finalize_outcome(w0, now_ts, gseg->Some_0, actions@));
                assert(spec_finalized_event(
                    events@[0],
                    ArchiveStream::Updates,
                    w0.paths.final_path@,
                    now_ts,
                    w0.record_count,
                ));
            }
            if self.replicator.is_some() {
                enqueues = replication_requests(&self.cfg.destinations, &seg);
            }
        }
        events.push(
            EventEnvelope::new(
                Event::ArchiveSegmentOpened {
                    stream: ArchiveStream::Updates.as_str().to_owned(),
                    path: paths.final_path.clone(),
                    start_ts: bucket,
                },
            ),
        );
        let w = SegmentWriter::new(&self.cfg, ArchiveStream::Updates, bucket, paths);
        self.updates_writer = Some(w);
        let eff = Effects { actions, events, enqueues };
        proof {
            if old(self).updates_writer is Some {
                let w0p = old(self).updates_writer->Some_0;
                assert(spec_finalize_outcome(w0p, now_ts, gseg->Some_0, eff.actions@));
            }
            assert(spec_rotation_effects(*old(self), now_ts, *self, eff));
        }
        Ok(eff)
    }

    /// Routes one received UPDATE into the open updates segment: the record
    /// is encoded first, so a message that does not parse as a BGP UPDATE is
    /// rejected with an `Encode` error before anything changes; only then is
    /// the writer rotated if the update's bucket has moved on. Succeeds
    /// exactly on parseable UPDATEs at layout-ready timestamps; any error
    /// leaves the service — writer and open segment — exactly as it was.
    pub fn ingest_update(&mut self, update: UpdateRecordInput) -> (r: Result<Effects, ArchiveError>)
        requires
            old(self).wf(),
        ensures
            final(self).wf(),
            old(self).same_core(*final(self)),
            final(self).ribs_last == old(self).ribs_last,
            final(self).last_rib_bucket == old(self).last_rib_bucket,
            r is Err ==> *final(self) == *old(self),
            !old(self).cfg.enabled ==> *final(self) == *old(self) && (r matches Ok(e)
                && e.actions@.len() == 0 && e.events@.len() == 0 && e.enqueues@.len() == 0),
            spec_updates_ready(*old(self), update.timestamp) && normalized_update_of(
                update.bgp_message@,
            ) is Some ==> r is Ok,
            r is Ok && old(self).cfg.enabled ==> normalized_update_of(update.bgp_message@) is Some,
            r is Ok && old(self).cfg.enabled ==> (final(self).updates_writer matches Some(w)
                && w.start_ts == spec_aligned(
                update.timestamp as int,
                old(self).cfg.updates_interval_secs as int,
            ) && w.buffer@ =~= (if spec_covers_bucket(*old(self), update.timestamp) {
                old(self).updates_writer->Some_0.buffer@
            } else {
                Seq::<u8>::empty()
            }) + spec_update_record(update, normalized_update_of(update.bgp_message@)->Some_0)
                && w.record_count == 1 + (if spec_covers_bucket(*old(self), update.timestamp) {
                old(self).updates_writer->Some_0.record_count as int
            } else {
                0int
            })),
            old(self).cfg.enabled && !spec_covers_bucket(*old(self), update.timestamp) ==> (
            r matches Ok(e) ==> spec_rotation_log(*old(self), update.timestamp, e)),
            old(self).cfg.enabled && spec_covers_bucket(*old(self), update.timestamp) ==> (
            r matches Ok(e) ==> e.actions@.len() == 0 && e.events@.len() == 0 && e.enqueues@.len()
                == 0),
            old(self).cfg.enabled ==> (r matches Err(e) ==> (e.kind == ErrorKind::Encode
                && normalized_update_of(update.bgp_message@) is None) || (normalized_update_of(
                update.bgp_message@,
            ) is Some && ((update.timestamp < i64::MIN + old(self).cfg.updates_interval_secs
                && e.kind == ErrorKind::Layout) || spec_segment_paths(
                old(self).cfg,
                ArchiveStream::Updates,
                update.timestamp,
            ) == Err::<(Seq<char>, Seq<char>, Seq<char>), ErrorKind>(e.kind)))),
    {
        if !self.cfg.enabled {
            return Ok(Effects::none());
        }
        let record = match encode_bgp4mp_message_as4(&update) {
            Ok(rec) => rec,
            Err(e) => {
                return Err(e);
            },
        };
        let eff = match self.ensure_updates_writer(update.timestamp) {
            Ok(e) => e,
            Err(e) => {
                return Err(e);
            },
        };
        let ghost pre_append = *self;
        match &mut self.updates_writer {
            Some(w) => {
                w.write_record(record.as_slice());
            },
            None => {
                proof {
                    assert(false);
                }
            },
        }
        proof {
            let wpre = pre_append.updates_writer->Some_0;
            let wpost = self.updates_writer->Some_0;
            assert(wpost.buffer@ == wpre.buffer@ + record@);
            if spec_covers_bucket(*old(self), update.timestamp) {
                assert(pre_append == *old(self));
            } else {
                assert(wpre.buffer@.len() == 0);
                assert(wpost.buffer@ =~= Seq::<u8>::empty() + record@);
            }
        }
        Ok(eff)
    }

    /// Routes one FSM transition into the open updates segment, when the
    /// configuration asks for peer-state records. The record is encoded
    /// before any rotation, so invalid FSM codes are rejected with an
    /// `Encode` error while the service stays exactly as it was. Succeeds
    /// exactly on valid FSM codes at layout-ready timestamps.
    pub fn ingest_peer_state(&mut self, state: PeerStateRecordInput) -> (r: Result<
        Effects,
        ArchiveError,
    >)
        requires
            old(self).wf(),
        ensures
            final(self).wf(),
            old(self).same_core(*final(self)),
            final(self).ribs_last == old(self).ribs_last,
            final(self).last_rib_bucket == old(self).last_rib_bucket,
            r is Err ==> *final(self) == *old(self),
            !(old(self).cfg.enabled && old(self).cfg.include_peer_state_records)
                ==> *final(self) == *old(self) && (r matches Ok(e) && e.actions@.len() == 0
                && e.events@.len() == 0 && e.enqueues@.len() == 0),
            old(self).cfg.include_peer_state_records && spec_updates_ready(
                *old(self),
                state.timestamp,
            ) && spec_valid_fsm_state(state.old_state) && spec_valid_fsm_state(state.new_state)
                ==> r is Ok,
            r is Ok && old(self).cfg.enabled && old(self).cfg.include_peer_state_records ==> (
            final(self).updates_writer matches Some(w) && w.start_ts == spec_aligned(
                state.timestamp as int,
                old(self).cfg.updates_interval_secs as int,
            ) && w.buffer@ =~= (if spec_covers_bucket(*old(self), state.timestamp) {
                old(self).updates_writer->Some_0.buffer@
            } else {
                Seq::<u8>::empty()
            }) + spec_state_change_record(state) && w.record_count == 1 + (if spec_covers_bucket(
                *old(self),
                state.timestamp,
            ) {
                old(self).updates_writer->Some_0.record_count as int
            } else {
                0int
            })),
            old(self).cfg.enabled && old(self).cfg.include_peer_state_records
                && !spec_covers_bucket(*old(self), state.timestamp) ==> (r matches Ok(e)
                ==> spec_rotation_log(*old(self), state.timestamp, e)),
            old(self).cfg.enabled && old(self).cfg.include_peer_state_records
                && spec_covers_bucket(*old(self), state.timestamp) ==> (r matches Ok(e)
                ==> e.actions@.len() == 0 && e.events@.len() == 0 && e.enqueues@.len() == 0),
            old(self).cfg.enabled && old(self).cfg.include_peer_state_records ==> (r matches Err(
                e,
            ) ==> (e.kind == ErrorKind::Encode && !(spec_valid_fsm_state(state.old_state)
                && spec_valid_fsm_state(state.new_state))) || (spec_valid_fsm_state(
                state.old_state,
            ) && spec_valid_fsm_state(state.new_state) && ((state.timestamp < i64::MIN + old(
                self,
            ).cfg.updates_interval_secs && e.kind == ErrorKind::Layout) || spec_segment_paths(
                old(self).cfg,
                ArchiveStream::Updates,
                state.timestamp,
            ) == Err::<(Seq<char>, Seq<char>, Seq<char>), ErrorKind>(e.kind)))),
    {
        if !self.cfg.enabled || !self.cfg.include_peer_state_records {
            return Ok(Effects::none());
        }
        let record = match encode_bgp4mp_state_change_as4(&state) {
            Ok(rec) => rec,
            Err(e) => {
                return Err(e);
            },
        };
        let eff = match self.ensure_updates_writer(state.timestamp) {
            Ok(e) => e,
            Err(e) => {
                return Err(e);
            },
        };
        let ghost pre_append = *self;
        match &mut self.updates_writer {
            Some(w) => {
                w.write_record(record.as_slice());
            },
            None => {
                proof {
                    assert(false);
                }
            },
        }
        proof {
            let wpre = pre_append.updates_writer->Some_0;
            let wpost = self.updates_writer->Some_0;
            assert(wpost.buffer@ == wpre.buffer@ + record@);
            if spec_covers_bucket(*old(self), state.timestamp) {
                assert(pre_append == *old(self));
            } else {
                assert(wpre.buffer@.len() == 0);
                assert(wpost.buffer@ =~= Seq::<u8>::empty() + record@);
            }
        }
        Ok(eff)
    }

    /// Writes a full RIB snapshot: always a fresh ribs segment for the
    /// input's bucket, the peer-index table first and one RIB record per
    /// route, finalized with its replication requests. An unspecified
    /// collector BGP id falls back to the service's. Succeeds on every
    /// encodable snapshot with a layout-ready timestamp; any error leaves
    /// the service exactly as it was.
    #[verifier::rlimit(60)]
    pub fn snapshot_now(&mut self, input: RibSnapshotInput) -> (r: Result<
        (FinalizedSegment, Effects),
        ArchiveError,
    >)
        requires
            old(self).wf(),
        ensures
            final(self).wf(),
            old(self).same_core(*final(self)),
            final(self).updates_writer == old(self).updates_writer,
            final(self).last_rib_bucket == old(self).last_rib_bucket,
            r is Err ==> *final(self) == *old(self),
            !old(self).cfg.enabled ==> (r matches Err(e) && e.kind == ErrorKind::Config
                && *final(self) == *old(self)),
            old(self).cfg.enabled && i64::MIN + old(self).cfg.ribs_interval_secs
                <= input.timestamp && spec_segment_paths(
                old(self).cfg,
                ArchiveStream::Ribs,
                input.timestamp,
            ) is Ok && spec_snapshot_encodable(
                spec_effective_snapshot(input, old(self).collector_bgp_id),
            ) ==> r is Ok,
            r matches Ok(res) ==> spec_snapshot_outcome(
                *old(self),
                input,
                *final(self),
                res.0,
                res.1,
            ),
    {
        if !self.cfg.enabled {
            return Err(ArchiveError::new(ErrorKind::Config, "archive is disabled".to_owned()));
        }
        let collector = if input.collector_bgp_id.is_unspecified() {
            self.collector_bgp_id
        } else {
            input.collector_bgp_id
        };
        let effective = RibSnapshotInput {
            timestamp: input.timestamp,
            collector_bgp_id: collector,
            view_name: input.view_name,
            peers: input.peers,
            routes: input.routes,
        };
        let ghost eff_spec = spec_effective_snapshot(input, self.collector_bgp_id);
        proof {
            assert(effective == eff_spec);
        }
        let interval = self.cfg.ribs_interval_secs;
        let bucket = match bucket_start(effective.timestamp, interval) {
            Ok(b) => b,
            Err(e) => {
                return Err(e);
            },
        };
        let paths = match segment_paths(&self.cfg, ArchiveStream::Ribs, effective.timestamp) {
            Ok(p) => p,
            Err(e) => {
                return Err(e);
            },
        };
        let records = match build_table_dump_v2(&effective) {
            Ok(rs) => rs,
            Err(e) => {
                return Err(e);
            },
        };
        let mut events: Vec<EventEnvelope> = Vec::new();
        events.push(
            EventEnvelope::new(
                Event::ArchiveSegmentOpened {
                    stream: ArchiveStream::Ribs.as_str().to_owned(),
                    path: paths.final_path.clone(),
                    start_ts: bucket,
                },
            ),
        );
        let ghost paths_saved = paths;
        let mut writer = SegmentWriter::new(&self.cfg, ArchiveStream::Ribs, bucket, paths);
        let ghost w_init = writer;
        let rn = records.len();
        proof {
            assert forall|j: int| 0 <= j < rn implies (#[trigger] records@[j])@
                == spec_snapshot_record(eff_spec, j) by {
                if j > 0 {
                    assert(records@[(j - 1) + 1]@ == spec_snapshot_record(eff_spec, j));
                }
            }
            assert forall|j: int| 0 <= j < rn implies (#[trigger] records@[j])@.len() >= 1 by {
                assert(records@[j]@ == spec_snapshot_record(eff_spec, j));
            }
            assert(writer.buffer@ =~= spec_snapshot_bytes(eff_spec, 0));
        }
        let mut i: usize = 0;
        while i < rn
            invariant
                i <= rn,
                rn == records@.len(),
                rn == 1 + effective.routes@.len(),
                effective.routes@ == eff_spec.routes@,
                forall|j: int| 0 <= j < rn ==> (#[trigger] records@[j])@ == spec_snapshot_record(
                    eff_spec,
                    j,
                ),
                forall|j: int| 0 <= j < rn ==> (#[trigger] records@[j])@.len() >= 1,
                writer.wf(),
                writer.record_count == i,
                writer.stream == ArchiveStream::Ribs,
                writer.start_ts == bucket,
                writer.buffer@ == spec_snapshot_bytes(eff_spec, i as int),
                writer.collector_id == w_init.collector_id,
                writer.compression == w_init.compression,
                writer.layout_profile == w_init.layout_profile,
                writer.fsync_on_rotate == w_init.fsync_on_rotate,
                writer.paths == w_init.paths,
                w_init.collector_id@ == self.cfg.collector_id@,
                w_init.compression == self.cfg.compression,
                w_init.layout_profile == self.cfg.layout_profile,
                w_init.fsync_on_rotate == self.cfg.fsync_on_rotate,
                w_init.paths == paths_saved,
            decreases rn - i,
        {
            writer.write_record(records[i].as_slice());
            i = i + 1;
        }
        proof {
            assert(writer.buffer@ == spec_snapshot_segment_bytes(eff_spec));
        }
        let ghost wfin = writer;
        let (seg, actions) = writer.finalize(effective.timestamp);
        let ghost gseg = seg;
        events.push(
            EventEnvelope::new(
                Event::ArchiveSegmentFinalized {
                    stream: ArchiveStream::Ribs.as_str().to_owned(),
                    path: seg.final_path.clone(),
                    end_ts: seg.end_ts,
                    records: seg.record_count,
                },
            ),
        );
        proof {
            assert(spec_finalize_outcome(wfin, input.timestamp, gseg, actions@));
        }
        let enqueues: Vec<ReplicationRequest> = if self.replicator.is_some() {
            replication_requests(&self.cfg.destinations, &seg)
        } else {
            Vec::new()
        };
        self.ribs_last = Some(seg.duplicate());
        let eff_out = Effects { actions, events, enqueues };
        proof {
            assert(spec_finalize_outcome(wfin, input.timestamp, gseg, eff_out.actions@));
            assert(spec_snapshot_outcome(*old(self), input, *self, gseg, eff_out));
        }
        Ok((seg, eff_out))
    }

    /// Forces the closure of the current stream at the present wall-clock
    /// time: the updates writer is finalized and reopened (`rotate_updates`
    /// carries the exact contract for a given timestamp), or an immediate
    /// empty RIB snapshot is emitted. Any error leaves the service as it
    /// was.
    pub fn rollover(&mut self, stream: ArchiveStream) -> (r: Result<Effects, ArchiveError>)
        requires
            old(self).wf(),
        ensures
            final(self).wf(),
            old(self).same_core(*final(self)),
            r is Err ==> *final(self) == *old(self),
            !old(self).cfg.enabled ==> *final(self) == *old(self) && (r matches Ok(e)
                && e.actions@.len() == 0 && e.events@.len() == 0 && e.enqueues@.len() == 0),
            stream == ArchiveStream::Updates ==> final(self).ribs_last == old(self).ribs_last
                && final(self).last_rib_bucket == old(self).last_rib_bucket,
            stream == ArchiveStream::Updates && old(self).cfg.enabled ==> (r matches Ok(e) ==>
                exists|ts: i64| #[trigger] spec_rotation_effects(*old(self), ts, *final(self), e)),
            r is Ok && old(self).cfg.enabled && stream == ArchiveStream::Updates
                ==> (final(self).updates_writer matches Some(w) && w.record_count == 0),
            stream == ArchiveStream::Ribs ==> final(self).updates_writer == old(
                self,
            ).updates_writer && final(self).last_rib_bucket == old(self).last_rib_bucket,
            r is Ok && old(self).cfg.enabled && stream == ArchiveStream::Ribs
                ==> (final(self).ribs_last matches Some(s2) && s2.record_count == 1),
            stream == ArchiveStream::Ribs && old(self).cfg.enabled ==> (r matches Ok(e) ==> {
                &&& e.events@.len() == 2
                &&& (e.events@[0].event matches Event::ArchiveSegmentOpened { stream: s, .. }
                    && s@ == spec_stream_name(ArchiveStream::Ribs))
                &&& (e.events@[1].event matches Event::ArchiveSegmentFinalized {
                    stream: s,
                    records,
                    ..
                } && s@ == spec_stream_name(ArchiveStream::Ribs) && records == 1)
            }),
    {
        if !self.cfg.enabled {
            return Ok(Effects::none());
        }
        match stream {
            ArchiveStream::Updates => {
                let now = now_epoch();
                let r = self.rotate_updates(now);
                proof {
                    if r is Ok {
                        assert(spec_rotation_effects(*old(self), now, *self, r->Ok_0));
                    }
                }
                r
            },
            ArchiveStream::Ribs => {
                let now = now_epoch();
                let snapshot = RibSnapshotInput {
                    timestamp: now,
                    collector_bgp_id: self.collector_bgp_id,
                    view_name: "main".to_owned(),
                    peers: Vec::new(),
                    routes: Vec::new(),
                };
                match self.snapshot_now(snapshot) {
                    Ok(res) => Ok(res.1),
                    Err(e) => Err(e),
                }
            },
        }
    }

    /// Finalizes the open updates writer unconditionally — whether or not
    /// its bucket has advanced — and opens a fresh writer for the bucket of
    /// `now_ts`, handing back the closed segment's actions, events and
    /// replication requests. Succeeds on every layout-ready timestamp; an
    /// error changes nothing.
    pub fn rotate_updates(&mut self, now_ts: i64) -> (r: Result<Effects, ArchiveError>)
        requires
            old(self).wf(),
            old(self).cfg.enabled,
        ensures
            final(self).wf(),
            old(self).same_core(*final(self)),
            final(self).ribs_last == old(self).ribs_last,
            final(self).last_rib_bucket == old(self).last_rib_bucket,
            r is Err ==> *final(self) == *old(self),
            spec_updates_ready(*old(self), now_ts) ==> r is Ok,
            r matches Ok(e) ==> spec_rotation_effects(*old(self), now_ts, *final(self), e),
            r matches Err(err) ==> (now_ts < i64::MIN + old(self).cfg.updates_interval_secs
                && err.kind == ErrorKind::Layout) || spec_segment_paths(
                old(self).cfg,
                ArchiveStream::Updates,
                now_ts,
            ) == Err::<(Seq<char>, Seq<char>, Seq<char>), ErrorKind>(err.kind),
    {
        let interval = self.cfg.updates_interval_secs;
        let bucket = match bucket_start(now_ts, interval) {
            Ok(b) => b,
            Err(e) => {
                return Err(e);
            },
        };
        let paths = match segment_paths(&self.cfg, ArchiveStream::Updates, now_ts) {
            Ok(p) => p,
            Err(e) => {
                return Err(e);
            },
        };
        let mut actions: Vec<FsAction> = Vec::new();
        let mut events: Vec<EventEnvelope> = Vec::new();
        let mut enqueues: Vec<ReplicationRequest> = Vec::new();
        let ghost mut gseg: Option<FinalizedSegment> = None;
        let taken = self.updates_writer.take();
        if let Some(old_writer) = taken {
            let ghost w0 = old_writer;
            let (seg, acts) = old_writer.finalize(now_ts);
            proof {
                gseg = Some(seg);
            }
            actions = acts;
            events.push(
                EventEnvelope::new(
                    Event::ArchiveSegmentFinalized {
                        stream: ArchiveStream::Updates.as_str().to_owned(),
                        path: seg.final_path.clone(),
                        end_ts: seg.end_ts,
                        records: seg.record_count,
                    },
                ),
            );
            proof {
                assert(spec_finalize_outcome(w0, now_ts, gseg->Some_0, actions@));
                assert(spec_finalized_event(
                    events@[0],
                    ArchiveStream::Updates,
                    w0.paths.final_path@,
                    now_ts,
                    w0.record_count,
                ));
            }
            if self.replicator.is_some() {
                enqueues = replication_requests(&self.cfg.destinations, &seg);
            }
        }
        events.push(
            EventEnvelope::new(
                Event::ArchiveSegmentOpened {
                    stream: ArchiveStream::Updates.as_str().to_owned(),
                    path: paths.final_path.clone(),
                    start_ts: bucket,
                },
            ),
        );
        let w = SegmentWriter::new(&self.cfg, ArchiveStream::Updates, bucket, paths);
        self.updates_writer = Some(w);
        let eff = Effects { actions, events, enqueues };
        proof {
            if old(self).updates_writer is Some {
                let w0p = old(self).updates_writer->Some_0;
                assert(spec_finalize_outcome(w0p, now_ts, gseg->Some_0, eff.actions@));
            }
            assert(spec_rotation_effects(*old(self), now_ts, *self, eff));
        }
        Ok(eff)
    }

    /// One scheduler beat: keeps the updates writer on the bucket of
    /// `now_ts` and emits an empty RIB snapshot whenever the RIB bucket has
    /// advanced. The snapshot's layout is validated before the rotation, so
    /// a failure cannot lose the rotation's effects: any error changes
    /// nothing. Succeeds on every layout-ready timestamp.
    pub fn tick(&mut self, now_ts: i64) -> (r: Result<Effects, ArchiveError>)
        requires
            old(self).wf(),
        ensures
            final(self).wf(),
            old(self).same_core(*final(self)),
            final(self).ribs_last == old(self).ribs_last || final(self).ribs_last is Some,
            r is Err ==> *final(self) == *old(self),
            !old(self).cfg.enabled ==> *final(self) == *old(self) && (r matches Ok(e)
                && e.actions@.len() == 0 && e.events@.len() == 0 && e.enqueues@.len() == 0),
            spec_updates_ready(*old(self), now_ts) && i64::MIN + old(self).cfg.ribs_interval_secs
                <= now_ts && spec_segment_paths(old(self).cfg, ArchiveStream::Ribs, now_ts) is Ok
                ==> r is Ok,
            r is Ok && old(self).cfg.enabled ==> final(self).last_rib_bucket == Some(
                spec_aligned(now_ts as int, old(self).cfg.ribs_interval_secs as int) as i64,
            ),
            r is Ok && old(self).cfg.enabled ==> (final(self).updates_writer matches Some(w)
                && w.start_ts == spec_aligned(
                now_ts as int,
                old(self).cfg.updates_interval_secs as int,
            )),
            old(self).cfg.enabled && i64::MIN + old(self).cfg.updates_interval_secs <= now_ts
                && i64::MIN + old(self).cfg.ribs_interval_secs <= now_ts && spec_covers_bucket(
                *old(self),
                now_ts,
            ) && old(self).last_rib_bucket == Some(
                spec_aligned(now_ts as int, old(self).cfg.ribs_interval_secs as int) as i64,
            ) ==> *final(self) == *old(self) && (r matches Ok(e) && e.actions@.len() == 0
                && e.events@.len() == 0 && e.enqueues@.len() == 0),
    {
        if !self.cfg.enabled {
            return Ok(Effects::none());
        }
        let rib_interval = self.cfg.ribs_interval_secs;
        let rib_bucket = match bucket_start(now_ts, rib_interval) {
            Ok(b) => b,
            Err(e) => {
                return Err(e);
            },
        };
        let needs_snapshot = match self.last_rib_bucket {
            Some(b) => b != rib_bucket,
            None => true,
        };
        if needs_snapshot {
            // validate the snapshot's layout before rotating, so a layout
            // failure cannot lose the rotation's effects
            if let Err(e) = segment_paths(&self.cfg, ArchiveStream::Ribs, now_ts) {
                return Err(e);
            }
        }
        let mut eff = match self.ensure_updates_writer(now_ts) {
            Ok(e) => e,
            Err(e) => {
                return Err(e);
            },
        };
        if needs_snapshot {
            let snapshot = RibSnapshotInput {
                timestamp: now_ts,
                collector_bgp_id: self.collector_bgp_id,
                view_name: "main".to_owned(),
                peers: Vec::new(),
                routes: Vec::new(),
            };
            proof {
                reveal_strlit("main");
                lemma_encode_utf8_len(snapshot.view_name@);
                assert(spec_snapshot_encodable(
                    spec_effective_snapshot(snapshot, self.collector_bgp_id),
                ));
            }
            let snap = match self.snapshot_now(snapshot) {
                Ok(res) => res,
                Err(e) => {
                    proof {
                        assert(false);
                    }
                    return Err(e);
                },
            };
            let mut eff2 = snap.1;
            eff.actions.append(&mut eff2.actions);
            eff.events.append(&mut eff2.events);
            eff.enqueues.append(&mut eff2.enqueues);
            self.last_rib_bucket = Some(rib_bucket);
        }
        Ok(eff)
    }

    /// Moves every failed replication job back to pending; returns how many.
    pub fn retry_failed_replications(&self) -> (r: Result<usize, ArchiveError>)
        ensures
            r matches Err(e) ==> e.kind == ErrorKind::Queue,
            self.replicator is None ==> (r matches Ok(n) && n == 0),
    {
        match &self.replicator {
            Some(rep) => rep.retry_failed(),
            None => Ok(0),
        }
    }

    /// The archive's current status: configuration echoes, the open updates
    /// segment, the last RIB segment, and the replication counters. Only the
    /// queue's pending count can fail, so a service without a replication
    /// worker always reports.
    pub fn status(&self) -> (r: Result<ArchiveStatus, ArchiveError>)
        ensures
            r matches Err(e) ==> e.kind == ErrorKind::Queue,
            self.replicator is None ==> r is Ok,
            r matches Ok(st) ==> {
                &&& st.enabled == self.cfg.enabled
                &&& st.collector_id@ == self.cfg.collector_id@
                &&& st.updates_interval_secs == self.cfg.updates_interval_secs
                &&& st.ribs_interval_secs == self.cfg.ribs_interval_secs
                &&& (match self.updates_writer {
                    Some(w) => st.updates_open_path matches Some(p) && p@ == w.paths.final_path@
                        && st.updates_record_count == w.record_count,
                    None => st.updates_open_path is None && st.updates_record_count == 0,
                })
                &&& (match self.ribs_last {
                    Some(seg) => st.ribs_last_path matches Some(p) && p@ == seg.final_path@
                        && st.ribs_last_record_count == seg.record_count,
                    None => st.ribs_last_path is None && st.ribs_last_record_count == 0,
                })
                &&& st.replication_failures == (match self.replicator {
                    Some(rep) => rep.failures,
                    None => 0u64,
                })
            },
    {
        let queued = match &self.replicator {
            Some(rep) => {
                match rep.queue().pending_count() {
                    Ok(n) => n,
                    Err(e) => {
                        return Err(e);
                    },
                }
            },
            None => 0,
        };
        let failures = match &self.replicator {
            Some(rep) => rep.failures(),
            None => 0,
        };
        let (updates_open_path, updates_record_count) = match &self.updates_writer {
            Some(w) => (Some(w.path().clone()), w.record_count()),
            None => (None, 0),
        };
        let (ribs_last_path, ribs_last_record_count) = match &self.ribs_last {
            Some(seg) => (Some(seg.final_path.clone()), seg.record_count),
            None => (None, 0),
        };
        Ok(
            ArchiveStatus {
                enabled: self.cfg.enabled,
                collector_id: self.cfg.collector_id.clone(),
                updates_interval_secs: self.cfg.updates_interval_secs,
                ribs_interval_secs: self.cfg.ribs_interval_secs,
                updates_open_path,
                updates_record_count,
                ribs_last_path,
                ribs_last_record_count,
                queued_replication_jobs: queued,
                replication_failures: failures,
            },
        )
    }

    /// Lists the configured destinations as `(key, mode, type)` triples.
    pub fn destinations(&self) -> (r: Vec<(String, String, String)>)
        ensures
            r@.len() == self.cfg.destinations@.len(),
            forall|i: int|
                0 <= i < r@.len() ==> {
                    &&& (#[trigger] r@[i]).0@ == spec_destination_key(self.cfg.destinations@[i])
                    &&& r@[i].1@ == spec_mode_name(self.cfg.destinations@[i].mode)
                    &&& r@[i].2@ == spec_type_name(self.cfg.destinations@[i].destination_type)
                },
    {
        let n = self.cfg.destinations.len();
        let mut out: Vec<(String, String, String)> = Vec::new();
        let mut i: usize = 0;
        while i < n
            invariant
                i <= n,
                n == self.cfg.destinations@.len(),
                out@.len() == i,
                forall|j: int|
                    0 <= j < i ==> {
                        &&& (#[trigger] out@[j]).0@ == spec_destination_key(
                            self.cfg.destinations@[j],
                        )
                        &&& out@[j].1@ == spec_mode_name(self.cfg.destinations@[j].mode)
                        &&& out@[j].2@ == spec_type_name(
                            self.cfg.destinations@[j].destination_type,
                        )
                    },
            decreases n - i,
        {
            let d = &self.cfg.destinations[i];
            let key = d.destination_key();
            let mode = match d.mode {
                DestinationMode::Primary => "primary",
                DestinationMode::AsyncReplica => "async_replica",
            };
            let dtype = match d.destination_type {
                DestinationType::Local => "local",
                DestinationType::S3 => "s3",
            };
            out.push((key, mode.to_owned(), dtype.to_owned()));
            i = i + 1;
        }
        out
    }
}

/// The snapshot input after the collector-id fallback: an unspecified
/// collector BGP id is replaced by the service's.
pub open spec fn spec_effective_snapshot(s: RibSnapshotInput, default_id: Ipv4Address)
    -> RibSnapshotInput {
    RibSnapshotInput {
        timestamp: s.timestamp,
        collector_bgp_id: if s.collector_bgp_id.spec_is_unspecified() {
            default_id
        } else {
            s.collector_bgp_id
        },
        view_name: s.view_name,
        peers: s.peers,
        routes: s.routes,
    }
}

/// Everything a successful snapshot yields, taking service `s0` to `s1` with
/// finalized record `seg` and effects `e`: the segment covers the input's
/// bucket, holds one MRT record per route plus the peer-index table, its
/// compressed bytes are exactly the compression of those records, its paths
/// are the rendered ribs paths, the two events bracket it, its replication
/// requests follow the plan, and the service remembers it.
pub open spec fn spec_snapshot_outcome(
    s0: ArchiveService,
    input: RibSnapshotInput,
    s1: ArchiveService,
    seg: FinalizedSegment,
    e: Effects,
) -> bool {
    let eff = spec_effective_snapshot(input, s0.collector_bgp_id);
    let paths = spec_segment_paths(s0.cfg, ArchiveStream::Ribs, input.timestamp)->Ok_0;
    let bucket = spec_aligned(input.timestamp as int, s0.cfg.ribs_interval_secs as int);
    &&& spec_snapshot_encodable(eff)
    &&& seg.stream == ArchiveStream::Ribs
    &&& seg.start_ts == bucket
    &&& seg.end_ts == input.timestamp
    &&& seg.record_count == 1 + input.routes@.len()
    &&& (exists|w: SegmentWriter|
        {
            &&& #[trigger] spec_finalize_outcome(w, input.timestamp, seg, e.actions@)
            &&& w.stream == ArchiveStream::Ribs
            &&& w.start_ts == bucket
            &&& w.record_count == 1 + input.routes@.len()
            &&& w.buffer@ == spec_snapshot_segment_bytes(eff)
            &&& w.collector_id@ == s0.cfg.collector_id@
            &&& w.compression == s0.cfg.compression
            &&& w.layout_profile == s0.cfg.layout_profile
            &&& w.fsync_on_rotate == s0.cfg.fsync_on_rotate
            &&& w.paths.tmp_path@ == paths.0
            &&& w.paths.final_path@ == paths.1
            &&& w.paths.relative_path@ == paths.2
        })
    &&& e.events@.len() == 2
    &&& spec_opened_event(e.events@[0], ArchiveStream::Ribs, paths.1, bucket as i64)
    &&& spec_finalized_event(
        e.events@[1],
        ArchiveStream::Ribs,
        paths.1,
        input.timestamp,
        seg.record_count,
    )
    &&& spec_requests_for(s0, paths.1, paths.1 + ".json"@, e.enqueues@)
    &&& (s1.ribs_last matches Some(s2) && s2.stream == seg.stream && s2.start_ts == seg.start_ts
        && s2.end_ts == seg.end_ts && s2.record_count == seg.record_count && s2.bytes == seg.bytes
        && s2.compression == seg.compression && s2.final_path@ == seg.final_path@
        && s2.relative_path@ == seg.relative_path@ && s2.manifest_path@ == seg.manifest_path@)
}

} // verus!
