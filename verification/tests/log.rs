use fog_ingest::log::{LogLevel, LogRecord};

fn assert_line(record: LogRecord, level: LogLevel, message: &str) {
    assert_eq!(record.level(), level);
    assert_eq!(record.message(), message);
}

#[test]
fn stop_lines() {
    assert_line(
        LogRecord::IngestStopped { block_index: 12, is_idle: true },
        LogLevel::Info,
        "Stop Requested: Polling loop stopped at block number 12, is_idle true",
    );
    assert_line(
        LogRecord::IngestStopped { block_index: 0, is_idle: false },
        LogLevel::Info,
        "Stop Requested: Polling loop stopped at block number 0, is_idle false",
    );
    assert_line(
        LogRecord::PeerCheckupStopped,
        LogLevel::Info,
        "Stop Requested: Polling loop stopped",
    );
}

#[test]
fn ledger_lines() {
    assert_line(
        LogRecord::WaitedForBlock { block_index: u64::MAX },
        LogLevel::Debug,
        "Waited 5 min for block 18446744073709551615",
    );
    assert_line(
        LogRecord::BlockDataError { block_index: 3, error: "Lmdb(Corrupted)".to_string() },
        LogLevel::Error,
        "Unexpected error when checking for block data 3: Lmdb(Corrupted)",
    );
    assert_line(
        LogRecord::MetricsError { error: "no metrics".to_string() },
        LogLevel::Warning,
        "Failed updating ledger db metrics: no metrics",
    );
}

#[test]
fn watcher_lines() {
    assert_line(
        LogRecord::WatcherBehind { block_index: 7, timeout_secs: 5 },
        LogLevel::Warning,
        "watcher is still behind on block index = 7 after waiting 5 seconds, ingest will be blocked",
    );
    assert_line(
        LogRecord::BlockOutOfBounds { block_index: 7 },
        LogLevel::Warning,
        "block index 7 was out of bounds, we should not be scanning it, we will have junk timestamps for it",
    );
    assert_line(
        LogRecord::TimestampsUnavailable { block_index: 7 },
        LogLevel::Critical,
        "watcher configuration is wrong and timestamps will not be available with this configuration. Ingest is blocked at block index 7",
    );
    assert_line(
        LogRecord::WatcherDatabaseError { block_index: 7 },
        LogLevel::Critical,
        "The watcher database has an error which prevents us from getting timestamps. Ingest is blocked at block index 7",
    );
    assert_line(
        LogRecord::TimestampError { block_index: 7, error: "gone".to_string() },
        LogLevel::Error,
        "Could not obtain timestamp for block 7 due to error gone, this may mean the watcher is not correctly configured. will retry",
    );
}
