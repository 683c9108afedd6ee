//! Replication of finalized segments: the enqueue policy, the per-job
//! transfer plan, and the failure bookkeeping. The daemon's worker loop
//! executes the plans (file copies or object-store uploads) and reports each
//! outcome back to the queue.

use vstd::prelude::*;
use vstd::string::*;

use crate::archive::layout::spec_path_join;
use crate::archive::layout::path_join;
use crate::archive::manifest::sidecar_path;
use crate::archive::queue::{ReplicationJob, ReplicationQueue};
use crate::archive::types::FinalizedSegment;
use crate::config::{
    spec_destination_key, ArchiveDestinationConfig, DestinationMode, DestinationType,
};
use crate::errors::{ArchiveError, ErrorKind};
use crate::textfmt::{str_eq, trim_end_char, trim_start_char, trim_end_str, trim_start_str};

verus! {

/// The object key of a segment under a destination prefix: the prefix with
/// its surrounding slashes trimmed, a slash, and the relative path with its
/// leading slashes trimmed; with an empty prefix, just the trimmed relative
/// path.
pub open spec fn spec_object_key(prefix: Seq<char>, relative: Seq<char>) -> Seq<char> {
    if prefix.len() == 0 {
        trim_start_char(relative, '/')
    } else {
        trim_end_char(trim_start_char(prefix, '/'), '/') + seq!['/'] + trim_start_char(
            relative,
            '/',
        )
    }
}

/// Computes the object key for a relative path under a prefix.
pub fn object_key(prefix: &str, relative: &str) -> (r: String)
    ensures
        r@ == spec_object_key(prefix@, relative@),
{
    if prefix.unicode_len() == 0 {
        return trim_start_str(relative, '/');
    }
    let mut out = trim_end_str(trim_start_str(prefix, '/').as_str(), '/');
    proof {
        reveal_strlit("/");
    }
    out.append("/");
    out.append(trim_start_str(relative, '/').as_str());
    proof {
        assert(out@ =~= spec_object_key(prefix@, relative@));
    }
    out
}

/// The first destination whose key matches, if any.
pub open spec fn spec_find_destination(
    ds: Seq<ArchiveDestinationConfig>,
    key: Seq<char>,
) -> Option<ArchiveDestinationConfig>
    decreases ds.len(),
{
    if ds.len() == 0 {
        None
    } else if spec_destination_key(ds[0]) == key {
        Some(ds[0])
    } else {
        spec_find_destination(ds.skip(1), key)
    }
}

/// Option strings agree: both absent, or both present with the same text.
pub open spec fn opt_str_equiv(a: Option<String>, b: Option<String>) -> bool {
    match (a, b) {
        (Option::Some(x), Option::Some(y)) => x@ == y@,
        (Option::None, Option::None) => true,
        _ => false,
    }
}

fn clone_opt_string(o: &Option<String>) -> (r: Option<String>)
    ensures
        opt_str_equiv(r, *o),
{
    match o {
        Some(s) => Some(s.clone()),
        None => None,
    }
}

/// What the worker must do for one claimed job.
#[derive(Clone, Debug)]
pub enum JobPlan {
    /// The job's destination is no longer configured.
    MissingDestination,
    /// The destination is configured but lacks the fields its type needs.
    Unusable,
    /// Copy the segment and its manifest byte-for-byte to a local directory.
    CopyLocal {
        segment_src: String,
        manifest_src: String,
        segment_dst: String,
        manifest_dst: String,
    },
    /// Put the segment and its manifest as two objects.
    UploadS3 {
        endpoint: String,
        bucket: String,
        segment_key: String,
        manifest_key: String,
        region: Option<String>,
        access_key_id: Option<String>,
        secret_access_key: Option<String>,
        session_token: Option<String>,
        segment_src: String,
        manifest_src: String,
    },
}

/// Decides how one claimed job is transferred: the first configured
/// destination with the job's key determines the local target paths or the
/// object keys, derived from the manifest's relative path.
pub fn plan_job(
    destinations: &Vec<ArchiveDestinationConfig>,
    job: &ReplicationJob,
    relative_path: &str,
) -> (r: JobPlan)
    ensures
        match spec_find_destination(destinations@, job.destination_key@) {
            Option::None => r == JobPlan::MissingDestination,
            Option::Some(d) => match d.destination_type {
                DestinationType::Local => match d.path {
                    Option::Some(base) => r matches JobPlan::CopyLocal {
                        segment_src,
                        manifest_src,
                        segment_dst,
                        manifest_dst,
                    } && segment_src@ == job.segment_path@ && manifest_src@ == job.manifest_path@
                        && segment_dst@ == spec_path_join(base@, relative_path@) && manifest_dst@
                        == spec_path_join(base@, relative_path@) + ".json"@,
                    Option::None => r == JobPlan::Unusable,
                },
                DestinationType::S3 => match (d.endpoint, d.bucket) {
                    (Option::Some(endpoint), Option::Some(bucket)) => r matches JobPlan::UploadS3 {
                        endpoint: e,
                        bucket: b,
                        segment_key,
                        manifest_key,
                        region,
                        access_key_id,
                        secret_access_key,
                        session_token,
                        segment_src,
                        manifest_src,
                    } && e@ == endpoint@ && b@ == bucket@ && segment_key@ == spec_object_key(
                        match d.prefix {
                            Option::Some(p) => p@,
                            Option::None => Seq::empty(),
                        },
                        relative_path@,
                    ) && manifest_key@ == segment_key@ + ".json"@ && opt_str_equiv(
                        region,
                        d.region,
                    ) && opt_str_equiv(access_key_id, d.access_key_id) && opt_str_equiv(
                        secret_access_key,
                        d.secret_access_key,
                    ) && opt_str_equiv(session_token, d.session_token) && segment_src@
                        == job.segment_path@ && manifest_src@ == job.manifest_path@,
                    _ => r == JobPlan::Unusable,
                },
            },
        },
{
    let n = destinations.len();
    let mut i: usize = 0;
    proof {
        assert(destinations@.skip(0) =~= destinations@);
    }
    while i < n
        invariant
            i <= n,
            n == destinations@.len(),
            spec_find_destination(destinations@, job.destination_key@) == spec_find_destination(
                destinations@.skip(i as int),
                job.destination_key@,
            ),
        decreases n - i,
    {
        let d = &destinations[i];
        let key = d.destination_key();
        proof {
            assert(destinations@.skip(i as int)[0] == destinations@[i as int]);
            assert(destinations@.skip(i as int).skip(1) =~= destinations@.skip(i + 1));
        }
        if str_eq(key.as_str(), job.destination_key.as_str()) {
            match d.destination_type {
                DestinationType::Local => {
                    match &d.path {
                        Some(base) => {
                            let segment_dst = path_join(base.as_str(), relative_path);
                            let manifest_dst = sidecar_path(segment_dst.as_str());
                            return JobPlan::CopyLocal {
                                segment_src: job.segment_path.clone(),
                                manifest_src: job.manifest_path.clone(),
                                segment_dst,
                                manifest_dst,
                            };
                        },
                        None => {
                            return JobPlan::Unusable;
                        },
                    }
                },
                DestinationType::S3 => {
                    match (&d.endpoint, &d.bucket) {
                        (Some(endpoint), Some(bucket)) => {
                            let segment_key = match &d.prefix {
                                Some(p) => object_key(p.as_str(), relative_path),
                                None => object_key("", relative_path),
                            };
                            proof {
                                reveal_strlit("");
                                assert(""@ =~= Seq::<char>::empty());
                            }
                            let manifest_key = sidecar_path(segment_key.as_str());
                            return JobPlan::UploadS3 {
                                endpoint: endpoint.clone(),
                                bucket: bucket.clone(),
                                segment_key,
                                manifest_key,
                                region: clone_opt_string(&d.region),
                                access_key_id: clone_opt_string(&d.access_key_id),
                                secret_access_key: clone_opt_string(&d.secret_access_key),
                                session_token: clone_opt_string(&d.session_token),
                                segment_src: job.segment_path.clone(),
                                manifest_src: job.manifest_path.clone(),
                            };
                        },
                        _ => {
                            return JobPlan::Unusable;
                        },
                    }
                },
            }
        }
        i = i + 1;
    }
    proof {
        assert(destinations@.skip(n as int) =~= Seq::<ArchiveDestinationConfig>::empty());
    }
    JobPlan::MissingDestination
}

/// The retry budget a destination carries: its configured value or zero
/// (unlimited).
pub open spec fn spec_dest_max_retries(d: ArchiveDestinationConfig) -> u32 {
    match d.max_retries {
        Option::Some(v) => v,
        Option::None => 0u32,
    }
}

/// Whether a target list already carries a key.
pub open spec fn spec_has_target_key(ts: Seq<(Seq<char>, u32)>, key: Seq<char>) -> bool {
    exists|i: int| 0 <= i < ts.len() && (#[trigger] ts[i]).0 == key
}

/// The replication plan of a destination list: one `(key, max_retries)` pair
/// per distinct async-replica destination key, first occurrence winning.
/// Primary destinations get no job — the segment already lies under the
/// archive root.
pub open spec fn spec_replica_targets(ds: Seq<ArchiveDestinationConfig>) -> Seq<(Seq<char>, u32)>
    decreases ds.len(),
{
    if ds.len() == 0 {
        Seq::empty()
    } else {
        let front = spec_replica_targets(ds.drop_last());
        let d = ds.last();
        if d.mode == DestinationMode::AsyncReplica && !spec_has_target_key(
            front,
            spec_destination_key(d),
        ) {
            front.push((spec_destination_key(d), spec_dest_max_retries(d)))
        } else {
            front
        }
    }
}

/// Computes the replication plan of a destination list.
pub fn replica_targets(destinations: &Vec<ArchiveDestinationConfig>) -> (r: Vec<(String, u32)>)
    ensures
        r@.len() == spec_replica_targets(destinations@).len(),
        forall|i: int|
            0 <= i < r@.len() ==> (#[trigger] r@[i]).0@ == spec_replica_targets(destinations@)[i].0
                && r@[i].1 == spec_replica_targets(destinations@)[i].1,
{
    let n = destinations.len();
    let mut out: Vec<(String, u32)> = Vec::new();
    let mut i: usize = 0;
    while i < n
        invariant
            i <= n,
            n == destinations@.len(),
            out@.len() == spec_replica_targets(destinations@.take(i as int)).len(),
            forall|j: int|
                0 <= j < out@.len() ==> (#[trigger] out@[j]).0@ == spec_replica_targets(
                    destinations@.take(i as int),
                )[j].0 && out@[j].1 == spec_replica_targets(destinations@.take(i as int))[j].1,
        decreases n - i,
    {
        let ghost front = spec_replica_targets(destinations@.take(i as int));
        let d = &destinations[i];
        proof {
            assert(destinations@.take(i + 1).drop_last() =~= destinations@.take(i as int));
            assert(destinations@.take(i + 1).last() == destinations@[i as int]);
        }
        if matches!(d.mode, DestinationMode::AsyncReplica) {
            let key = d.destination_key();
            let m = out.len();
            let mut seen = false;
            let mut j: usize = 0;
            while j < m
                invariant
                    j <= m,
                    m == out@.len(),
                    m == front.len(),
                    key@ == spec_destination_key(destinations@[i as int]),
                    forall|k: int|
                        0 <= k < m ==> (#[trigger] out@[k]).0@ == front[k].0,
                    seen == exists|k: int| 0 <= k < j && (#[trigger] front[k]).0 == key@,
                decreases m - j,
            {
                if str_eq(key.as_str(), out[j].0.as_str()) {
                    seen = true;
                    proof {
                        assert((front[j as int]).0 == key@);
                    }
                }
                j = j + 1;
            }
            proof {
                assert(seen == spec_has_target_key(front, spec_destination_key(
                    destinations@[i as int],
                )));
            }
            if !seen {
                out.push((key, d.max_retries()));
            }
        }
        i = i + 1;
    }
    proof {
        assert(destinations@.take(n as int) =~= destinations@);
    }
    out
}

/// One replication job to insert once its segment stands at its final path:
/// the segment and manifest paths, the destination's key, and its retry
/// budget.
#[derive(Clone, Debug)]
pub struct ReplicationRequest {
    pub segment_path: String,
    pub manifest_path: String,
    pub destination_key: String,
    pub max_retries: u32,
}

/// Materializes the replication plan for one finalized segment: one request
/// per plan entry, each pointing at the segment's final path and manifest.
pub fn replication_requests(
    destinations: &Vec<ArchiveDestinationConfig>,
    segment: &FinalizedSegment,
) -> (r: Vec<ReplicationRequest>)
    ensures
        r@.len() == spec_replica_targets(destinations@).len(),
        forall|i: int|
            0 <= i < r@.len() ==> {
                &&& (#[trigger] r@[i]).segment_path@ == segment.final_path@
                &&& r@[i].manifest_path@ == segment.manifest_path@
                &&& r@[i].destination_key@ == spec_replica_targets(destinations@)[i].0
                &&& r@[i].max_retries == spec_replica_targets(destinations@)[i].1
            },
{
    let targets = replica_targets(destinations);
    let n = targets.len();
    let mut out: Vec<ReplicationRequest> = Vec::new();
    let mut i: usize = 0;
    while i < n
        invariant
            i <= n,
            n == targets@.len(),
            n == spec_replica_targets(destinations@).len(),
            forall|j: int|
                0 <= j < n ==> (#[trigger] targets@[j]).0@ == spec_replica_targets(
                    destinations@,
                )[j].0 && targets@[j].1 == spec_replica_targets(destinations@)[j].1,
            out@.len() == i,
            forall|j: int|
                0 <= j < i ==> {
                    &&& (#[trigger] out@[j]).segment_path@ == segment.final_path@
                    &&& out@[j].manifest_path@ == segment.manifest_path@
                    &&& out@[j].destination_key@ == spec_replica_targets(destinations@)[j].0
                    &&& out@[j].max_retries == spec_replica_targets(destinations@)[j].1
                },
        decreases n - i,
    {
        out.push(
            ReplicationRequest {
                segment_path: segment.final_path.clone(),
                manifest_path: segment.manifest_path.clone(),
                destination_key: targets[i].0.clone(),
                max_retries: targets[i].1,
            },
        );
        i = i + 1;
    }
    out
}

/// The replication worker's state: the durable queue and a failure counter.
#[derive(Clone, Debug)]
pub struct Replicator {
    pub queue: ReplicationQueue,
    pub failures: u64,
}

impl Replicator {
    pub fn new(queue: ReplicationQueue) -> (r: Replicator)
        ensures
            r.queue == queue,
            r.failures == 0,
    {
        Replicator { queue, failures: 0 }
    }

    pub fn queue(&self) -> (r: &ReplicationQueue)
        ensures
            r == &self.queue,
    {
        &self.queue
    }

    pub fn failures(&self) -> (r: u64)
        ensures
            r == self.failures,
    {
        self.failures
    }

    /// Counts one replication failure; the counter is monotonic and
    /// saturates at its maximum.
    pub fn record_failure(&mut self)
        ensures
            final(self).queue == old(self).queue,
            final(self).failures == (if old(self).failures < u64::MAX {
                old(self).failures + 1
            } else {
                u64::MAX as int
            }),
    {
        if self.failures < u64::MAX {
            self.failures = self.failures + 1;
        }
    }

    /// Inserts the pending jobs of a request list, in order. With an empty
    /// list nothing touches the queue, so the call succeeds.
    pub fn enqueue_requests(&self, requests: &Vec<ReplicationRequest>) -> (r: Result<
        (),
        ArchiveError,
    >)
        ensures
            r matches Err(e) ==> e.kind == ErrorKind::Queue,
            requests@.len() == 0 ==> r is Ok,
    {
        let n = requests.len();
        let mut i: usize = 0;
        while i < n
            invariant
                i <= n,
                n == requests@.len(),
            decreases n - i,
        {
            let req = &requests[i];
            let qr = self.queue.enqueue(
                req.segment_path.as_str(),
                req.manifest_path.as_str(),
                req.destination_key.as_str(),
                req.max_retries,
            );
            if let Err(e) = qr {
                return Err(e);
            }
            i = i + 1;
        }
        Ok(())
    }

    /// Inserts one job per entry of the verified replication plan — one per
    /// distinct async-replica destination key — for a finalized segment.
    /// With an empty plan nothing touches the queue, so the call succeeds.
    pub fn enqueue_segment(
        &self,
        destinations: &Vec<ArchiveDestinationConfig>,
        segment: &FinalizedSegment,
    ) -> (r: Result<(), ArchiveError>)
        ensures
            r matches Err(e) ==> e.kind == ErrorKind::Queue,
            spec_replica_targets(destinations@).len() == 0 ==> r is Ok,
    {
        let requests = replication_requests(destinations, segment);
        self.enqueue_requests(&requests)
    }

    /// Moves every failed job back to pending; returns how many.
    pub fn retry_failed(&self) -> (r: Result<usize, ArchiveError>)
        ensures
            r matches Err(e) ==> e.kind == ErrorKind::Queue,
    {
        self.queue.retry_failed()
    }
}

} // verus!
