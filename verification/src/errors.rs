//! Error taxonomy of the archive subsystem.

use vstd::prelude::*;

verus! {

/// The failure classes that archive operations report.
#[derive(Clone, Copy, Debug, PartialEq, Eq, Structural)]
pub enum ErrorKind {
    Config,
    Layout,
    Encode,
    Io,
    Compression,
    Hash,
    Queue,
    Destination,
    Cancelled,
}

/// An archive error: a failure class together with a human-readable detail.
#[derive(Clone, Debug)]
pub struct ArchiveError {
    pub kind: ErrorKind,
    pub message: String,
}

impl ArchiveError {
    pub fn new(kind: ErrorKind, message: String) -> (r: ArchiveError)
        ensures
            r.kind == kind,
            r.message == message,
    {
        ArchiveError { kind, message }
    }

    pub fn kind(&self) -> (k: ErrorKind)
        ensures
            k == self.kind,
    {
        self.kind
    }

    /// The human-readable detail of the error.
    pub fn message(&self) -> (m: &String)
        ensures
            m == &self.message,
    {
        &self.message
    }
}

} // verus!
