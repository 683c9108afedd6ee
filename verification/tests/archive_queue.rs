use focl::archive::queue::ReplicationQueue;
use focl::errors::ErrorKind;

struct QueueDir {
    _root: tempfile::TempDir,
    _repl: tempfile::TempDir,
    queue: ReplicationQueue,
}

/// A queue under a fresh temporary archive root, its `.replication`
/// directory created and its table initialized.
fn fresh_queue() -> QueueDir {
    let root = tempfile::tempdir().unwrap();
    let repl = tempfile::Builder::new()
        .prefix(".replication")
        .rand_bytes(0)
        .tempdir_in(root.path())
        .unwrap();
    let queue = ReplicationQueue::new(root.path().to_str().unwrap());
    queue.init().unwrap();
    QueueDir {
        _root: root,
        _repl: repl,
        queue,
    }
}

#[test]
fn queue_persists_jobs() {
    let q = fresh_queue();
    let queue = &q.queue;

    queue
        .enqueue(
            "/tmp/segment.gz",
            "/tmp/segment.gz.json",
            "local:/tmp/archive",
            0,
        )
        .unwrap();

    assert_eq!(queue.pending_count().unwrap(), 1);

    let jobs = queue.claim_ready(10).unwrap();
    assert_eq!(jobs.len(), 1);

    queue.mark_success(jobs[0].id).unwrap();
    assert_eq!(queue.pending_count().unwrap(), 0);
}

#[test]
fn queue_survives_reopening() {
    let q = fresh_queue();
    q.queue
        .enqueue("/tmp/seg.gz", "/tmp/seg.gz.json", "local:/tmp/replica", 0)
        .unwrap();
    let claimed = q.queue.claim_ready(10).unwrap();
    assert_eq!(claimed.len(), 1);

    // a new handle over the same database: the claimed job is still owed work
    let reopened = ReplicationQueue::new(q._root.path().to_str().unwrap());
    reopened.init().unwrap();
    assert_eq!(reopened.pending_count().unwrap(), 1);

    // after the startup reset the job can be claimed again
    assert_eq!(reopened.reset_in_progress().unwrap(), 1);
    let jobs = reopened.claim_ready(10).unwrap();
    assert_eq!(jobs.len(), 1);
    assert_eq!(jobs[0].destination_key, "local:/tmp/replica");
}

#[test]
fn failed_attempt_goes_back_to_pending_with_backoff() {
    let q = fresh_queue();
    q.queue
        .enqueue("/tmp/seg.gz", "/tmp/seg.gz.json", "s3:http://unreachable:9000:bkt", 5)
        .unwrap();
    let jobs = q.queue.claim_ready(10).unwrap();
    assert_eq!(jobs.len(), 1);
    assert_eq!(jobs[0].attempts, 0);

    // destination unreachable: one failed attempt with a one-hour backoff
    q.queue
        .mark_failed(&jobs[0], "connection refused", 3600)
        .unwrap();
    assert_eq!(q.queue.pending_count().unwrap(), 1);
    assert_eq!(q.queue.failed_count().unwrap(), 0);

    // the retry lies in the future, so nothing is claimable yet
    let ready = q.queue.claim_ready(10).unwrap();
    assert!(ready.is_empty());
}

#[test]
fn failed_attempt_increments_attempts() {
    let q = fresh_queue();
    q.queue
        .enqueue("/tmp/seg.gz", "/tmp/seg.gz.json", "local:/tmp/replica", 5)
        .unwrap();
    let jobs = q.queue.claim_ready(10).unwrap();
    q.queue.mark_failed(&jobs[0], "transient", 0).unwrap();

    let again = q.queue.claim_ready(10).unwrap();
    assert_eq!(again.len(), 1);
    assert_eq!(again[0].attempts, 1);
}

#[test]
fn exhausted_retries_move_the_job_to_failed() {
    let q = fresh_queue();
    q.queue
        .enqueue("/tmp/seg.gz", "/tmp/seg.gz.json", "local:/tmp/replica", 1)
        .unwrap();
    let jobs = q.queue.claim_ready(10).unwrap();
    q.queue.mark_failed(&jobs[0], "permanent", 0).unwrap();

    assert_eq!(q.queue.pending_count().unwrap(), 0);
    assert_eq!(q.queue.failed_count().unwrap(), 1);

    // an operator retry moves it back to pending
    assert_eq!(q.queue.retry_failed().unwrap(), 1);
    assert_eq!(q.queue.pending_count().unwrap(), 1);
    assert_eq!(q.queue.failed_count().unwrap(), 0);
}

#[test]
fn enqueue_segment_inserts_one_job_per_async_replica() {
    let q = fresh_queue();
    let replicator = focl::archive::replicator::Replicator::new(q.queue.clone());

    let replica = |path: &str, mode: focl::config::DestinationMode| {
        focl::config::ArchiveDestinationConfig {
            destination_type: focl::config::DestinationType::Local,
            mode,
            path: Some(path.to_string()),
            required: None,
            endpoint: None,
            bucket: None,
            prefix: None,
            upload_concurrency: None,
            retry_backoff_secs: None,
            max_retries: None,
            region: None,
            access_key_id: None,
            secret_access_key: None,
            session_token: None,
        }
    };
    // a primary, one async replica, and a duplicate of that replica: one job
    let destinations = vec![
        replica("/primary", focl::config::DestinationMode::Primary),
        replica("/mirror", focl::config::DestinationMode::AsyncReplica),
        replica("/mirror", focl::config::DestinationMode::AsyncReplica),
    ];
    let segment = focl::archive::types::FinalizedSegment {
        stream: focl::archive::types::ArchiveStream::Updates,
        start_ts: 0,
        end_ts: 900,
        record_count: 1,
        bytes: 10,
        compression: focl::config::CompressionKind::Gzip,
        final_path: "/data/archive/x.gz".to_string(),
        relative_path: "x.gz".to_string(),
        manifest_path: "/data/archive/x.gz.json".to_string(),
    };
    replicator.enqueue_segment(&destinations, &segment).unwrap();
    assert_eq!(q.queue.pending_count().unwrap(), 1);
    let jobs = q.queue.claim_ready(10).unwrap();
    assert_eq!(jobs.len(), 1);
    assert_eq!(jobs[0].destination_key, "local:/mirror");
}

#[test]
fn plan_job_targets_the_destination_base() {
    let destinations = vec![focl::config::ArchiveDestinationConfig {
        destination_type: focl::config::DestinationType::Local,
        mode: focl::config::DestinationMode::AsyncReplica,
        path: Some("/mirror".to_string()),
        required: None,
        endpoint: None,
        bucket: None,
        prefix: None,
        upload_concurrency: None,
        retry_backoff_secs: None,
        max_retries: None,
        region: None,
        access_key_id: None,
        secret_access_key: None,
        session_token: None,
    }];
    let job = focl::archive::queue::ReplicationJob {
        id: 1,
        segment_path: "/data/archive/focl01/x.gz".to_string(),
        manifest_path: "/data/archive/focl01/x.gz.json".to_string(),
        destination_key: "local:/mirror".to_string(),
        attempts: 0,
        max_retries: 0,
    };
    match focl::archive::replicator::plan_job(&destinations, &job, "focl01/x.gz") {
        focl::archive::replicator::JobPlan::CopyLocal {
            segment_src,
            manifest_src,
            segment_dst,
            manifest_dst,
        } => {
            assert_eq!(segment_src, "/data/archive/focl01/x.gz");
            assert_eq!(manifest_src, "/data/archive/focl01/x.gz.json");
            assert_eq!(segment_dst, "/mirror/focl01/x.gz");
            assert_eq!(manifest_dst, "/mirror/focl01/x.gz.json");
        }
        other => panic!("unexpected plan {:?}", other),
    }

    let mut missing = job.clone();
    missing.destination_key = "local:/elsewhere".to_string();
    assert!(matches!(
        focl::archive::replicator::plan_job(&destinations, &missing, "focl01/x.gz"),
        focl::archive::replicator::JobPlan::MissingDestination
    ));
}

#[test]
fn rotation_requests_point_at_the_final_segment() {
    let q = fresh_queue();

    let mut cfg = focl::config::ArchiveConfig::default();
    cfg.enabled = true;
    cfg.root = "/data/archive".to_string();
    cfg.tmp_root = "/data/archive/.tmp".to_string();
    cfg.destinations.push(focl::config::ArchiveDestinationConfig {
        destination_type: focl::config::DestinationType::Local,
        mode: focl::config::DestinationMode::AsyncReplica,
        path: Some("/mirror".to_string()),
        required: None,
        endpoint: None,
        bucket: None,
        prefix: None,
        upload_concurrency: None,
        retry_backoff_secs: None,
        max_retries: Some(3),
        region: None,
        access_key_id: None,
        secret_access_key: None,
        session_token: None,
    });
    cfg.validate().unwrap();

    let mut service = focl::archive::ArchiveService::new(
        cfg,
        focl::archive::types::Ipv4Address(192, 0, 2, 1),
        Some(q.queue.clone()),
    );
    let eff = service.rotate_updates(1_700_000_000).unwrap();
    // opening the first bucket finalizes nothing, so nothing is owed yet
    assert!(eff.enqueues.is_empty());

    let eff = service.rotate_updates(1_700_000_900).unwrap();
    assert_eq!(eff.enqueues.len(), 1);
    let req = &eff.enqueues[0];
    assert_eq!(req.destination_key, "local:/mirror");
    assert_eq!(req.max_retries, 3);
    assert!(req.segment_path.ends_with(".gz"));
    assert_eq!(req.manifest_path, format!("{}.json", req.segment_path));

    // the daemon inserts the job only after the segment stands at its final
    // path; performing the request here makes it claimable
    q.queue
        .enqueue(
            &req.segment_path,
            &req.manifest_path,
            &req.destination_key,
            req.max_retries,
        )
        .unwrap();
    let jobs = q.queue.claim_ready(10).unwrap();
    assert_eq!(jobs.len(), 1);
    assert_eq!(jobs[0].segment_path, req.segment_path);
    assert_eq!(jobs[0].max_retries, 3);
}

#[test]
fn queue_init_fails_without_parent_directory() {
    let root = tempfile::tempdir().unwrap();
    // no .replication directory: opening the database must fail
    let queue = ReplicationQueue::new(root.path().to_str().unwrap());
    let err = queue.init().unwrap_err();
    assert_eq!(err.kind(), ErrorKind::Queue);
}

#[test]
fn db_path_lies_under_the_replication_directory() {
    let queue = ReplicationQueue::new("/var/lib/archive");
    assert_eq!(queue.db_path(), "/var/lib/archive/.replication/queue.sqlite");
}
