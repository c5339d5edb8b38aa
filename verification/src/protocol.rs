//! How a worker and the thread that drives it talk to each other.
//!
//! A worker makes decisions and performs nothing. It names a [`Request`]; the
//! driver carries it out and hands the [`Reply`] back; the worker says what to
//! log and how long to sleep before its next request.

use crate::log::LogRecord;
use crate::time::{Duration, Instant};
use vstd::prelude::*;

verus! {

/// The index of a block in the ledger.
pub type BlockIndex = u64;

/// What the ingest worker wants done. `D` is how it hands over the data of a
/// block.
#[derive(Debug, PartialEq, Eq)]
pub enum Request<D> {
    /// Ask the controller which block comes next, and whether it is idle.
    NextBlockIndex,
    /// Look whether the worker was asked to stop.
    StopRequested,
    /// Look the block up in the ledger.
    BlockData { block_index: BlockIndex },
    /// Read the clock.
    Clock,
    /// Have the ledger update its metrics.
    UpdateMetrics,
    /// Ask the watcher for the timestamp of the block.
    BlockTimestamp { block_index: BlockIndex },
    /// Have the controller process the block, which has this data.
    ProcessNextBlock { block_index: BlockIndex, data: D, timestamp: u64 },
    /// End the thread.
    Exit,
}

/// What the ledger says of a block. `B` is the type of a block's data.
#[derive(Debug, PartialEq, Eq)]
pub enum BlockLookup<B> {
    Found { data: B },
    NotFound,
    Failed { error: String },
}

/// What the watcher says of its answer to a timestamp query.
#[derive(Clone, Copy, Debug, PartialEq, Eq, Structural)]
pub enum TimestampResultCode {
    TimestampFound,
    WatcherBehind,
    Unavailable,
    WatcherDatabaseError,
    BlockIndexOutOfBounds,
}

/// What the watcher answers to a timestamp query.
pub type TimestampAnswer = Result<(u64, TimestampResultCode), String>;

/// What came of a request.
#[derive(Debug, PartialEq, Eq)]
pub enum Reply<B> {
    NextBlockIndex { next_block_index: BlockIndex, is_idle: bool },
    StopRequested { stop: bool },
    BlockData { lookup: BlockLookup<B> },
    Clock { now: Instant },
    MetricsUpdated { outcome: Result<(), String> },
    BlockTimestamp { result: TimestampAnswer },
    BlockProcessed,
}

impl<D> Request<D> {
    /// Whether `reply` is of the kind that this request calls for.
    pub open spec fn answered_by<B>(self, reply: Reply<B>) -> bool {
        match self {
            Request::NextBlockIndex => reply is NextBlockIndex,
            Request::StopRequested => reply is StopRequested,
            Request::BlockData { .. } => reply is BlockData,
            Request::Clock => reply is Clock,
            Request::UpdateMetrics => reply is MetricsUpdated,
            Request::BlockTimestamp { .. } => reply is BlockTimestamp,
            Request::ProcessNextBlock { .. } => reply is BlockProcessed,
            Request::Exit => false,
        }
    }
}

/// A reply that does not answer the request that the worker made. The worker
/// is left as it was.
#[derive(Clone, Copy, Debug, PartialEq, Eq, Structural)]
pub struct UnexpectedReply;

/// What to do before the next request: write the line to the log, then sleep.
#[derive(Debug, PartialEq, Eq)]
pub struct Pause {
    pub log: Option<LogRecord>,
    pub sleep: Option<Duration>,
}

impl Pause {
    /// Nothing to do: the next request follows at once.
    pub open spec fn none() -> Pause {
        Pause { log: None, sleep: None }
    }

    pub open spec fn logging(record: LogRecord) -> Pause {
        Pause { log: Some(record), sleep: None }
    }

    pub open spec fn sleeping(span: Duration) -> Pause {
        Pause { log: None, sleep: Some(span) }
    }

    pub open spec fn logging_then_sleeping(record: LogRecord, span: Duration) -> Pause {
        Pause { log: Some(record), sleep: Some(span) }
    }
}

/// The next request follows at once.
pub open spec fn is_quiet(pause: Pause) -> bool {
    pause.log is None && pause.sleep is None
}

/// The next request follows as soon as the line is logged.
pub open spec fn only_logs(pause: Pause, record: LogRecord) -> bool {
    pause.log == Some(record) && pause.sleep is None
}

/// The next request follows after a sleep of `nanos` nanoseconds.
pub open spec fn only_sleeps(pause: Pause, nanos: nat) -> bool {
    &&& pause.log is None
    &&& pause.sleep matches Some(span) && span@ == nanos
}

/// The next request follows after the line is logged and a sleep of `nanos`
/// nanoseconds.
pub open spec fn logs_and_sleeps(pause: Pause, record: LogRecord, nanos: nat) -> bool {
    &&& pause.log == Some(record)
    &&& pause.sleep matches Some(span) && span@ == nanos
}

/// Poll for new data every 10 ms.
pub const POLLING_FREQUENCY_MILLIS: u64 = 10;

/// If a database invariant is violated, e.g. there is a block without its
/// contents, it typically will not be fixed and no progress is possible. But
/// bringing the server down is costly to its operators, because all the users'
/// rngs would be lost. So the error is logged, and the attempt repeated after
/// 1 s, which keeps the error from being logged more often than that.
pub const ERROR_RETRY_FREQUENCY_MILLIS: u64 = 1000;

pub open spec fn polling_frequency() -> Duration {
    Duration::of_millis(POLLING_FREQUENCY_MILLIS as nat)
}

pub open spec fn error_retry_frequency() -> Duration {
    Duration::of_millis(ERROR_RETRY_FREQUENCY_MILLIS as nat)
}

} // verus!
