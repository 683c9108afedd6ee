//! Control-plane message shapes and the event envelope that the daemon
//! broadcasts.

use vstd::prelude::*;

verus! {

/// Free-form JSON carried opaquely through control requests and responses.
#[verifier::external_type_specification]
#[verifier::external_body]
pub struct ExValue(serde_json::Value);

/// One request on the control socket.
#[derive(Debug)]
pub struct ControlRequest {
    pub version: u16,
    pub id: String,
    pub cmd: String,
    pub args: serde_json::Value,
}

/// The error half of a control response.
#[derive(Clone, Debug)]
pub struct ControlError {
    pub code: String,
    pub message: String,
}

/// One response on the control socket.
#[derive(Debug)]
pub struct ControlResponse {
    pub version: u16,
    pub id: String,
    pub ok: bool,
    pub result: Option<serde_json::Value>,
    pub error: Option<ControlError>,
}

impl ControlResponse {
    /// A success response carrying a result value.
    pub fn ok(id: String, result: serde_json::Value) -> (r: ControlResponse)
        ensures
            r.version == 1,
            r.id == id,
            r.ok == true,
            r.result is Some,
            r.error is None,
    {
        ControlResponse { version: 1, id, ok: true, result: Some(result), error: None }
    }

    /// A failure response carrying an error code and message.
    pub fn err(id: String, code: String, message: String) -> (r: ControlResponse)
        ensures
            r.version == 1,
            r.id == id,
            r.ok == false,
            r.result is None,
            r.error matches Some(e) && e.code == code && e.message == message,
    {
        ControlResponse {
            version: 1,
            id,
            ok: false,
            result: None,
            error: Some(ControlError { code, message }),
        }
    }
}

/// The BGP finite-state-machine states that sessions report.
#[derive(Clone, Copy, Debug, PartialEq, Eq, Structural)]
pub enum PeerState {
    Idle,
    Connect,
    Active,
    OpenSent,
    OpenConfirm,
    Established,
}

/// One event on the daemon's broadcast channel.
#[derive(Clone, Debug)]
pub enum Event {
    PeerState { peer: String, state: PeerState },
    ArchiveSegmentOpened { stream: String, path: String, start_ts: i64 },
    ArchiveSegmentFinalized { stream: String, path: String, end_ts: i64, records: u64 },
    ArchiveReplicationSucceeded { destination: String, path: String },
    ArchiveReplicationFailed { destination: String, path: String, error: String },
}

/// The versioned wrapper around a broadcast event.
#[derive(Clone, Debug)]
pub struct EventEnvelope {
    pub version: u16,
    pub envelope_type: String,
    pub event: Event,
}

impl EventEnvelope {
    pub fn new(event: Event) -> (r: EventEnvelope)
        ensures
            r.version == 1,
            r.envelope_type@ == "event"@,
            r.event == event,
    {
        EventEnvelope { version: 1, envelope_type: "event".to_owned(), event }
    }
}

} // verus!
