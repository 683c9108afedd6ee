//! Verified core of a BGP route-collector archive daemon.
//!
//! The library covers the archive subsystem: segment path layout, MRT record
//! encoding, segment buffering and finalization, manifest construction, the
//! durable replication queue, and the replication planning logic. File and
//! network transfer themselves are performed by the surrounding daemon, which
//! executes the actions that the verified core hands back.

pub mod archive;
pub mod bgp;
pub mod config;
pub mod control;
pub mod errors;
pub mod netparse;
pub mod textfmt;
pub mod types;
