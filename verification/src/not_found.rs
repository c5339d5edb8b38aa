//! How long a block has been missing from the ledger.

use crate::protocol::BlockIndex;
use crate::time::{Duration, Instant, NANOS_PER_SEC};
use vstd::prelude::*;

verus! {

/// A missing block is logged again after this many seconds.
pub const NOT_FOUND_LOG_SECS: u64 = 300;

/// Keeps track of when a block that was not found was last logged, or was
/// first missed.
#[derive(Clone, Copy, Debug, PartialEq, Eq, Structural)]
pub struct LastNotFound {
    pub block_index: BlockIndex,
    pub time: Instant,
}

impl LastNotFound {
    /// The record of a block that is missing, as of `time`.
    pub fn new(block_index: BlockIndex, time: Instant) -> (record: LastNotFound)
        ensures
            record == (LastNotFound { block_index, time }),
    {
        LastNotFound { block_index, time }
    }

    /// More than five minutes have passed since the time on record.
    pub open spec fn spec_overdue(&self, now: &Instant) -> bool {
        now.since_origin@ - self.time.since_origin@ > NOT_FOUND_LOG_SECS * NANOS_PER_SEC
    }

    /// Whether the missing block is due to be logged.
    #[verifier::when_used_as_spec(spec_overdue)]
    pub fn overdue(&self, now: &Instant) -> (due: bool)
        ensures
            due == self.spec_overdue(now),
    {
        self.time.elapsed(now).exceeds(&Duration::from_secs(NOT_FOUND_LOG_SECS))
    }
}

} // verus!
