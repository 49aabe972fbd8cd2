//! The outcome of the most recent synchronization attempt on one channel.

use std::time::SystemTime;
use vstd::prelude::*;

verus! {

/// How the latest fetch on one sync channel ended. Exactly one variant is
/// active, and both carry the moment of the attempt.
#[derive(Debug, PartialEq, Eq)]
pub enum FetchResult {
    /// The attempt succeeded at `timestamp`.
    Fetched { timestamp: SystemTime },
    /// The attempt failed at `timestamp`; `error` describes why, verbatim.
    Error { timestamp: SystemTime, error: String },
}

impl FetchResult {
    /// The moment of the attempt, whichever way it ended.
    pub open spec fn attempted_at(self) -> SystemTime {
        match self {
            FetchResult::Fetched { timestamp } => timestamp,
            FetchResult::Error { timestamp, .. } => timestamp,
        }
    }

    /// Returns the moment of the attempt, for a success and for a failure alike.
    pub fn timestamp(&self) -> (ts: &SystemTime)
        ensures
            *ts == self.attempted_at(),
    {
        match self {
            FetchResult::Fetched { timestamp } => timestamp,
            FetchResult::Error { timestamp, .. } => timestamp,
        }
    }
}

impl Clone for FetchResult {
    /// A clone is the same outcome: same variant, same moment, same message.
    fn clone(&self) -> (copy: Self)
        ensures
            copy == *self,
    {
        match self {
            FetchResult::Fetched { timestamp } => FetchResult::Fetched { timestamp: *timestamp },
            FetchResult::Error { timestamp, error } => FetchResult::Error {
                timestamp: *timestamp,
                error: error.clone(),
            },
        }
    }
}

} // verus!
