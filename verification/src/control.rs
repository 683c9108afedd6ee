//! Control-socket commands and their argument/result shapes.

use vstd::prelude::*;
use vstd::string::*;

use crate::textfmt::str_eq;
use crate::types::ControlRequest;

verus! {

/// Every command the control socket understands.
#[derive(Clone, Copy, Debug, PartialEq, Eq, Structural)]
pub enum CommandKind {
    Ping,
    DaemonStatus,
    Shutdown,
    Reload,
    ArchiveStatus,
    ArchiveRollover,
    ArchiveSnapshotNow,
    ArchiveDestinations,
    ArchiveReplicatorRetry,
    Unsupported,
}

/// The command that a request's `cmd` string names.
pub open spec fn spec_command_of(cmd: Seq<char>) -> CommandKind {
    if cmd == "ping"@ {
        CommandKind::Ping
    } else if cmd == "daemon_status"@ {
        CommandKind::DaemonStatus
    } else if cmd == "shutdown"@ {
        CommandKind::Shutdown
    } else if cmd == "reload"@ {
        CommandKind::Reload
    } else if cmd == "archive_status"@ {
        CommandKind::ArchiveStatus
    } else if cmd == "archive_rollover"@ {
        CommandKind::ArchiveRollover
    } else if cmd == "archive_snapshot_now"@ {
        CommandKind::ArchiveSnapshotNow
    } else if cmd == "archive_destinations"@ {
        CommandKind::ArchiveDestinations
    } else if cmd == "archive_replicator_retry"@ {
        CommandKind::ArchiveReplicatorRetry
    } else {
        CommandKind::Unsupported
    }
}

impl CommandKind {
    pub fn from_request(req: &ControlRequest) -> (r: CommandKind)
        ensures
            r == spec_command_of(req.cmd@),
    {
        let c = req.cmd.as_str();
        if str_eq(c, "ping") {
            CommandKind::Ping
        } else if str_eq(c, "daemon_status") {
            CommandKind::DaemonStatus
        } else if str_eq(c, "shutdown") {
            CommandKind::Shutdown
        } else if str_eq(c, "reload") {
            CommandKind::Reload
        } else if str_eq(c, "archive_status") {
            CommandKind::ArchiveStatus
        } else if str_eq(c, "archive_rollover") {
            CommandKind::ArchiveRollover
        } else if str_eq(c, "archive_snapshot_now") {
            CommandKind::ArchiveSnapshotNow
        } else if str_eq(c, "archive_destinations") {
            CommandKind::ArchiveDestinations
        } else if str_eq(c, "archive_replicator_retry") {
            CommandKind::ArchiveReplicatorRetry
        } else {
            CommandKind::Unsupported
        }
    }
}

/// The stream argument of a rollover command.
#[derive(Clone, Copy, Debug, PartialEq, Eq, Structural)]
pub enum ArchiveStream {
    Updates,
    Ribs,
}

/// Arguments of the `archive_rollover` command.
#[derive(Clone, Copy, Debug)]
pub struct ArchiveRolloverArgs {
    pub stream: ArchiveStream,
}

/// The result payload of the `archive_status` command.
#[derive(Clone, Debug)]
pub struct ArchiveStatusResult {
    pub enabled: bool,
    pub collector_id: String,
    pub updates_interval_secs: u32,
    pub ribs_interval_secs: u32,
    pub updates_open_path: Option<String>,
    pub updates_record_count: u64,
    pub ribs_last_path: Option<String>,
    pub ribs_last_record_count: u64,
    pub queued_replication_jobs: usize,
    pub replication_failures: u64,
}

/// One destination row of the `archive_destinations` result.
#[derive(Clone, Debug)]
pub struct ArchiveDestinationResult {
    pub key: String,
    pub mode: String,
    pub destination_type: String,
}

/// The result payload of the `archive_destinations` command.
#[derive(Clone, Debug)]
pub struct ArchiveDestinationsResult {
    pub destinations: Vec<ArchiveDestinationResult>,
}

} // verus!
