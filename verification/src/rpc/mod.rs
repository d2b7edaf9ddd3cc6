//! Requests, responses and stream drivers of the watch and lease services.

use vstd::prelude::*;

pub mod key_range;
pub mod lease;
pub mod lease_driver;
pub mod watch;
pub mod watch_driver;
pub mod watch_laws;

verus! {

/// Metadata that every response carries about the cluster that sent it.
#[derive(Clone, Copy, Debug, Default, PartialEq, Eq, Structural)]
pub struct ResponseHeader {
    pub cluster_id: u64,
    pub member_id: u64,
    pub revision: i64,
    pub raft_term: u64,
}

impl ResponseHeader {
    /// The key-value store revision when the request was applied.
    pub fn revision(&self) -> (r: i64)
        ensures
            r == self.revision,
    {
        self.revision
    }
}

/// A key-value pair.
#[derive(Clone, Debug, Default)]
pub struct KeyValue {
    pub key: Vec<u8>,
    pub create_revision: i64,
    pub mod_revision: i64,
    pub version: i64,
    pub value: Vec<u8>,
    pub lease: i64,
}

impl KeyValue {
    /// The revision of the last modification on the key.
    pub fn mod_revision(&self) -> (r: i64)
        ensures
            r == self.mod_revision,
    {
        self.mod_revision
    }
}

} // verus!
