//! What the workers write to the log.

use crate::decimal::{decimal, u64_to_decimal};
use vstd::prelude::*;
use vstd::string::*;

verus! {

#[derive(Clone, Copy, Debug, PartialEq, Eq, Structural)]
pub enum LogLevel {
    Debug,
    Info,
    Warning,
    Error,
    Critical,
}

/// A line for the log. An `error` field holds the text of the error that a
/// service reported: its debug form in `BlockDataError`, its display form in
/// the others.
#[derive(Debug, PartialEq, Eq)]
pub enum LogRecord {
    /// The polling loop of the ingest worker ended.
    IngestStopped { block_index: u64, is_idle: bool },
    /// The ledger has lacked the block for five minutes more.
    WaitedForBlock { block_index: u64 },
    /// The ledger failed to look the block up.
    BlockDataError { block_index: u64, error: String },
    /// The ledger failed to update its metrics.
    MetricsError { error: String },
    /// The watcher has not reached the block for longer than the timeout.
    WatcherBehind { block_index: u64, timeout_secs: u64 },
    /// The watcher says that there is no such block.
    BlockOutOfBounds { block_index: u64 },
    /// The watcher is configured so that it has no timestamps.
    TimestampsUnavailable { block_index: u64 },
    /// The watcher's database is broken.
    WatcherDatabaseError { block_index: u64 },
    /// The watcher failed to answer.
    TimestampError { block_index: u64, error: String },
    /// The polling loop of the peer checkup worker ended.
    PeerCheckupStopped,
}

pub open spec fn bool_text(b: bool) -> Seq<char> {
    if b {
        "true"@
    } else {
        "false"@
    }
}

impl LogRecord {
    pub open spec fn spec_level(&self) -> LogLevel {
        match self {
            LogRecord::WaitedForBlock { .. } => LogLevel::Debug,
            LogRecord::IngestStopped { .. } | LogRecord::PeerCheckupStopped => LogLevel::Info,
            LogRecord::MetricsError { .. }
            | LogRecord::WatcherBehind { .. }
            | LogRecord::BlockOutOfBounds { .. } => LogLevel::Warning,
            LogRecord::BlockDataError { .. } | LogRecord::TimestampError { .. } => LogLevel::Error,
            LogRecord::TimestampsUnavailable { .. }
            | LogRecord::WatcherDatabaseError { .. } => LogLevel::Critical,
        }
    }

    /// The level at which the line is logged.
    #[verifier::when_used_as_spec(spec_level)]
    pub fn level(&self) -> (level: LogLevel)
        ensures
            level == self.spec_level(),
    {
        match self {
            LogRecord::WaitedForBlock { .. } => LogLevel::Debug,
            LogRecord::IngestStopped { .. } | LogRecord::PeerCheckupStopped => LogLevel::Info,
            LogRecord::MetricsError { .. }
            | LogRecord::WatcherBehind { .. }
            | LogRecord::BlockOutOfBounds { .. } => LogLevel::Warning,
            LogRecord::BlockDataError { .. } | LogRecord::TimestampError { .. } => LogLevel::Error,
            LogRecord::TimestampsUnavailable { .. }
            | LogRecord::WatcherDatabaseError { .. } => LogLevel::Critical,
        }
    }

    /// The text of the line.
    pub open spec fn text(&self) -> Seq<char> {
        match *self {
            LogRecord::IngestStopped { block_index, is_idle } =>
                "Stop Requested: Polling loop stopped at block number "@ + decimal(
                    block_index as nat,
                ) + ", is_idle "@ + bool_text(is_idle),
            LogRecord::WaitedForBlock { block_index } => "Waited 5 min for block "@ + decimal(
                block_index as nat,
            ),
            LogRecord::BlockDataError { block_index, error } =>
                "Unexpected error when checking for block data "@ + decimal(block_index as nat)
                    + ": "@ + error@,
            LogRecord::MetricsError { error } => "Failed updating ledger db metrics: "@ + error@,
            LogRecord::WatcherBehind { block_index, timeout_secs } =>
                "watcher is still behind on block index = "@ + decimal(block_index as nat)
                    + " after waiting "@ + decimal(timeout_secs as nat)
                    + " seconds, ingest will be blocked"@,
            LogRecord::BlockOutOfBounds { block_index } => "block index "@ + decimal(
                block_index as nat,
            )
                + " was out of bounds, we should not be scanning it, we will have junk timestamps for it"@,
            LogRecord::TimestampsUnavailable { block_index } =>
                "watcher configuration is wrong and timestamps will not be available with this configuration. Ingest is blocked at block index "@
                    + decimal(block_index as nat),
            LogRecord::WatcherDatabaseError { block_index } =>
                "The watcher database has an error which prevents us from getting timestamps. Ingest is blocked at block index "@
                    + decimal(block_index as nat),
            LogRecord::TimestampError { block_index, error } =>
                "Could not obtain timestamp for block "@ + decimal(block_index as nat)
                    + " due to error "@ + error@
                    + ", this may mean the watcher is not correctly configured. will retry"@,
            LogRecord::PeerCheckupStopped => "Stop Requested: Polling loop stopped"@,
        }
    }

    /// Writes the text of the line.
    pub fn message(&self) -> (message: String)
        ensures
            message@ == self.text(),
    {
        match self {
            LogRecord::IngestStopped { block_index, is_idle } => {
                "Stop Requested: Polling loop stopped at block number ".to_owned().concat(
                    u64_to_decimal(*block_index).as_str(),
                ).concat(", is_idle ").concat(
                    if *is_idle {
                        "true"
                    } else {
                        "false"
                    },
                )
            },
            LogRecord::WaitedForBlock { block_index } => {
                "Waited 5 min for block ".to_owned().concat(u64_to_decimal(*block_index).as_str())
            },
            LogRecord::BlockDataError { block_index, error } => {
                "Unexpected error when checking for block data ".to_owned().concat(
                    u64_to_decimal(*block_index).as_str(),
                ).concat(": ").concat(error.as_str())
            },
            LogRecord::MetricsError { error } => {
                "Failed updating ledger db metrics: ".to_owned().concat(error.as_str())
            },
            LogRecord::WatcherBehind { block_index, timeout_secs } => {
                "watcher is still behind on block index = ".to_owned().concat(
                    u64_to_decimal(*block_index).as_str(),
                ).concat(" after waiting ").concat(u64_to_decimal(*timeout_secs).as_str()).concat(
                    " seconds, ingest will be blocked",
                )
            },
            LogRecord::BlockOutOfBounds { block_index } => {
                "block index ".to_owned().concat(u64_to_decimal(*block_index).as_str()).concat(
                    " was out of bounds, we should not be scanning it, we will have junk timestamps for it",
                )
            },
            LogRecord::TimestampsUnavailable { block_index } => {
                "watcher configuration is wrong and timestamps will not be available with this configuration. Ingest is blocked at block index ".to_owned().concat(
                    u64_to_decimal(*block_index).as_str(),
                )
            },
            LogRecord::WatcherDatabaseError { block_index } => {
                "The watcher database has an error which prevents us from getting timestamps. Ingest is blocked at block index ".to_owned().concat(
                    u64_to_decimal(*block_index).as_str(),
                )
            },
            LogRecord::TimestampError { block_index, error } => {
                "Could not obtain timestamp for block ".to_owned().concat(
                    u64_to_decimal(*block_index).as_str(),
                ).concat(" due to error ").concat(error.as_str()).concat(
                    ", this may mean the watcher is not correctly configured. will retry",
                )
            },
            LogRecord::PeerCheckupStopped => "Stop Requested: Polling loop stopped".to_owned(),
        }
    }
}

/// Failures of the ledger and of the watcher to answer are errors, a watcher
/// that cannot work is critical, what ingest gets over is a warning, the end
/// of a worker is information, and waiting is for debugging only.
pub proof fn law_levels(record: LogRecord)
    ensures
        record.level() == LogLevel::Debug <==> record is WaitedForBlock,
        record.level() == LogLevel::Info <==> record is IngestStopped || record
            is PeerCheckupStopped,
        record.level() == LogLevel::Warning <==> record is MetricsError || record is WatcherBehind
            || record is BlockOutOfBounds,
        record.level() == LogLevel::Error <==> record is BlockDataError || record is TimestampError,
        record.level() == LogLevel::Critical <==> record is TimestampsUnavailable || record
            is WatcherDatabaseError,
{
}

/// Each line reads as its wording says, with the block index and the seconds
/// in decimal notation and the error as it was reported, whatever they are.
pub proof fn law_wording(block_index: u64, is_idle: bool, timeout_secs: u64, error: String)
    ensures
        (LogRecord::IngestStopped { block_index, is_idle }).text()
            == "Stop Requested: Polling loop stopped at block number "@ + decimal(
            block_index as nat,
        ) + ", is_idle "@ + (if is_idle {
            "true"@
        } else {
            "false"@
        }),
        (LogRecord::WaitedForBlock { block_index }).text() == "Waited 5 min for block "@ + decimal(
            block_index as nat,
        ),
        (LogRecord::BlockDataError { block_index, error }).text()
            == "Unexpected error when checking for block data "@ + decimal(block_index as nat)
            + ": "@ + error@,
        (LogRecord::MetricsError { error }).text() == "Failed updating ledger db metrics: "@
            + error@,
        (LogRecord::WatcherBehind { block_index, timeout_secs }).text()
            == "watcher is still behind on block index = "@ + decimal(block_index as nat)
            + " after waiting "@ + decimal(timeout_secs as nat)
            + " seconds, ingest will be blocked"@,
        (LogRecord::BlockOutOfBounds { block_index }).text() == "block index "@ + decimal(
            block_index as nat,
        )
            + " was out of bounds, we should not be scanning it, we will have junk timestamps for it"@,
        (LogRecord::TimestampsUnavailable { block_index }).text()
            == "watcher configuration is wrong and timestamps will not be available with this configuration. Ingest is blocked at block index "@
            + decimal(block_index as nat),
        (LogRecord::WatcherDatabaseError { block_index }).text()
            == "The watcher database has an error which prevents us from getting timestamps. Ingest is blocked at block index "@
            + decimal(block_index as nat),
        (LogRecord::TimestampError { block_index, error }).text()
            == "Could not obtain timestamp for block "@ + decimal(block_index as nat)
            + " due to error "@ + error@
            + ", this may mean the watcher is not correctly configured. will retry"@,
        LogRecord::PeerCheckupStopped.text() == "Stop Requested: Polling loop stopped"@,
{
}

} // verus!
