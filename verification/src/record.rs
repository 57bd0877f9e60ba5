//! The data shapes shared across the pipeline: the record a producer submits,
//! and the record the log store keeps once an identity has been assigned.

use vstd::prelude::*;

verus! {

/// One observation of a subject's status and activity, as handed to the
/// ingestion queue by a producer. The producer fills every field, including
/// the "Unknown" sentinel for missing activity information.
#[derive(Debug)]
pub struct WriteJob {
    pub user_id: u64,
    pub time: u64,
    pub status: String,
    pub activity: String,
    pub activity_description: String,
}

/// A persisted entry of the event log: a `WriteJob` plus the store-assigned
/// identity, unique and strictly increasing in insertion order.
#[derive(Debug)]
pub struct EventRecord {
    pub id: u64,
    pub user_id: u64,
    pub time: u64,
    pub status: String,
    pub activity: String,
    pub activity_description: String,
}

impl EventRecord {
    /// A field-for-field copy; `String` clones keep equality, so the copy
    /// equals the original.
    pub fn duplicate(&self) -> (r: EventRecord)
        ensures
            r == *self,
    {
        EventRecord {
            id: self.id,
            user_id: self.user_id,
            time: self.time,
            status: self.status.clone(),
            activity: self.activity.clone(),
            activity_description: self.activity_description.clone(),
        }
    }
}

} // verus!
