use fog_ingest::ingest_worker::{IngestPhase, IngestWorker};
use fog_ingest::log::LogRecord;
use fog_ingest::not_found::LastNotFound;
use fog_ingest::peer_checkup::{CheckupReply, CheckupRequest, PeerCheckupWorker};
use fog_ingest::protocol::{
    BlockLookup, Pause, Reply, Request, TimestampResultCode, UnexpectedReply,
};
use fog_ingest::thread_handle::{ShutdownAction, ThreadHandle};
use fog_ingest::time::{Duration, Instant};
use fog_ingest::timestamp::TimestampStep;

/// The data of a block.
type Data = &'static str;

fn secs(secs: u64) -> Instant {
    Instant { since_origin: Duration::from_secs(secs) }
}

fn quiet() -> Pause {
    Pause { log: None, sleep: None }
}

fn sleep_10_ms() -> Pause {
    Pause { log: None, sleep: Some(Duration::from_millis(10)) }
}

fn log(record: LogRecord) -> Pause {
    Pause { log: Some(record), sleep: None }
}

fn log_and_retry_in_1_s(record: LogRecord) -> Pause {
    Pause { log: Some(record), sleep: Some(Duration::from_millis(1000)) }
}

fn next_block(next_block_index: u64, is_idle: bool) -> Reply<Data> {
    Reply::NextBlockIndex { next_block_index, is_idle }
}

fn stop(stop: bool) -> Reply<Data> {
    Reply::StopRequested { stop }
}

fn lookup(lookup: BlockLookup<Data>) -> Reply<Data> {
    Reply::BlockData { lookup }
}

fn clock(now: Instant) -> Reply<Data> {
    Reply::Clock { now }
}

fn timestamp(timestamp: u64, code: TimestampResultCode) -> Reply<Data> {
    Reply::BlockTimestamp { result: Ok((timestamp, code)) }
}

fn new_worker() -> IngestWorker<Data> {
    IngestWorker::new(Duration::from_secs(5))
}

/// Takes the worker to the lookup of the block.
fn look_up(worker: &mut IngestWorker<Data>, block_index: u64) {
    assert_eq!(worker.request(), Request::NextBlockIndex);
    assert_eq!(worker.resume(next_block(block_index, false)), Ok(quiet()));
    assert_eq!(worker.request(), Request::StopRequested);
    assert_eq!(worker.resume(stop(false)), Ok(quiet()));
    assert_eq!(worker.request(), Request::BlockData { block_index });
}

/// Takes the worker to the first timestamp query for the block, with the timer
/// started at 100 s.
fn query_timestamp(worker: &mut IngestWorker<Data>, block_index: u64) {
    look_up(worker, block_index);
    assert_eq!(worker.resume(lookup(BlockLookup::Found { data: "block 7" })), Ok(quiet()));
    assert_eq!(worker.request(), Request::UpdateMetrics);
    assert_eq!(worker.resume(Reply::MetricsUpdated { outcome: Ok(()) }), Ok(quiet()));
    assert_eq!(worker.request(), Request::Clock);
    assert_eq!(worker.resume(clock(secs(100))), Ok(quiet()));
    assert_eq!(worker.request(), Request::BlockTimestamp { block_index });
}

#[test]
fn found_block_is_processed_with_its_timestamp() {
    let mut worker = new_worker();
    query_timestamp(&mut worker, 7);
    assert_eq!(
        worker.resume(timestamp(1_600_000_000, TimestampResultCode::TimestampFound)),
        Ok(quiet())
    );
    assert_eq!(
        worker.request(),
        Request::ProcessNextBlock { block_index: 7, data: &"block 7", timestamp: 1_600_000_000 }
    );
    assert_eq!(worker.resume(Reply::BlockProcessed), Ok(quiet()));
    assert_eq!(worker.request(), Request::NextBlockIndex);
}

#[test]
fn block_out_of_bounds_is_processed_with_the_largest_timestamp() {
    let mut worker = new_worker();
    query_timestamp(&mut worker, 7);
    assert_eq!(
        worker.resume(timestamp(3, TimestampResultCode::BlockIndexOutOfBounds)),
        Ok(log(LogRecord::BlockOutOfBounds { block_index: 7 }))
    );
    assert_eq!(
        worker.request(),
        Request::ProcessNextBlock { block_index: 7, data: &"block 7", timestamp: u64::MAX }
    );
}

#[test]
fn metrics_failure_is_logged_and_ignored() {
    let mut worker = new_worker();
    look_up(&mut worker, 7);
    assert_eq!(worker.resume(lookup(BlockLookup::Found { data: "block 7" })), Ok(quiet()));
    assert_eq!(
        worker.resume(Reply::MetricsUpdated { outcome: Err("full".to_string()) }),
        Ok(log(LogRecord::MetricsError { error: "full".to_string() }))
    );
    assert_eq!(worker.request(), Request::Clock);
}

#[test]
fn watcher_errors_are_retried_in_one_second() {
    let mut worker = new_worker();
    query_timestamp(&mut worker, 7);
    assert_eq!(
        worker.resume(timestamp(0, TimestampResultCode::Unavailable)),
        Ok(log_and_retry_in_1_s(LogRecord::TimestampsUnavailable { block_index: 7 }))
    );
    assert_eq!(worker.request(), Request::BlockTimestamp { block_index: 7 });
    assert_eq!(
        worker.resume(timestamp(0, TimestampResultCode::WatcherDatabaseError)),
        Ok(log_and_retry_in_1_s(LogRecord::WatcherDatabaseError { block_index: 7 }))
    );
    assert_eq!(worker.request(), Request::BlockTimestamp { block_index: 7 });
    assert_eq!(
        worker.resume(Reply::BlockTimestamp { result: Err("io".to_string()) }),
        Ok(log_and_retry_in_1_s(LogRecord::TimestampError {
            block_index: 7,
            error: "io".to_string()
        }))
    );
    assert_eq!(worker.request(), Request::BlockTimestamp { block_index: 7 });
}

#[test]
fn watcher_that_stays_behind_is_warned_about_after_the_timeout() {
    let mut worker = new_worker();
    query_timestamp(&mut worker, 7);

    // The timeout of 5 s is reached, not exceeded.
    assert_eq!(worker.resume(timestamp(0, TimestampResultCode::WatcherBehind)), Ok(quiet()));
    assert_eq!(worker.request(), Request::Clock);
    assert_eq!(worker.resume(clock(secs(105))), Ok(sleep_10_ms()));
    assert_eq!(worker.request(), Request::BlockTimestamp { block_index: 7 });

    // It is exceeded.
    assert_eq!(worker.resume(timestamp(0, TimestampResultCode::WatcherBehind)), Ok(quiet()));
    assert_eq!(
        worker.resume(clock(secs(106))),
        Ok(log(LogRecord::WatcherBehind { block_index: 7, timeout_secs: 5 }))
    );
    assert_eq!(worker.request(), Request::Clock);
    assert_eq!(worker.resume(clock(secs(107))), Ok(sleep_10_ms()));

    // The timer started again at 107 s.
    assert_eq!(worker.resume(timestamp(0, TimestampResultCode::WatcherBehind)), Ok(quiet()));
    assert_eq!(worker.resume(clock(secs(112))), Ok(sleep_10_ms()));
    assert_eq!(worker.resume(timestamp(0, TimestampResultCode::WatcherBehind)), Ok(quiet()));
    assert_eq!(
        worker.resume(clock(secs(113))),
        Ok(log(LogRecord::WatcherBehind { block_index: 7, timeout_secs: 5 }))
    );
}

#[test]
fn timestamp_poll_stands_alone() {
    let poll = IngestWorker::<Data>::get_watcher_timestamp(9, Duration::from_secs(1));
    assert_eq!(poll.request(), Request::<Data>::Clock);
    let poll = match poll.resume(clock(secs(0))) {
        Ok(TimestampStep::Continue { poll, .. }) => poll,
        other => panic!("{:?}", other),
    };
    assert_eq!(poll.request(), Request::<Data>::BlockTimestamp { block_index: 9 });
    assert_eq!(poll.resume(clock(secs(1))), Err(UnexpectedReply));
    assert_eq!(
        poll.resume(timestamp(5, TimestampResultCode::TimestampFound)),
        Ok(TimestampStep::Finish { timestamp: 5, log: None })
    );
    assert_eq!(
        poll.answer(secs(0), Ok((5, TimestampResultCode::BlockIndexOutOfBounds))),
        TimestampStep::Finish {
            timestamp: u64::MAX,
            log: Some(LogRecord::BlockOutOfBounds { block_index: 9 })
        }
    );
}

#[test]
fn missing_block_is_logged_every_five_minutes() {
    let mut worker = new_worker();

    look_up(&mut worker, 7);
    assert_eq!(worker.resume(lookup(BlockLookup::NotFound)), Ok(quiet()));
    assert_eq!(worker.request(), Request::Clock);
    assert_eq!(worker.resume(clock(secs(1000))), Ok(sleep_10_ms()));
    assert_eq!(worker.last_not_found, Some(LastNotFound::new(7, secs(1000))));

    // Five minutes are reached, not exceeded.
    look_up(&mut worker, 7);
    assert_eq!(worker.resume(lookup(BlockLookup::NotFound)), Ok(quiet()));
    assert_eq!(worker.resume(clock(secs(1300))), Ok(sleep_10_ms()));

    // They are exceeded.
    look_up(&mut worker, 7);
    assert_eq!(worker.resume(lookup(BlockLookup::NotFound)), Ok(quiet()));
    assert_eq!(
        worker.resume(clock(secs(1301))),
        Ok(log(LogRecord::WaitedForBlock { block_index: 7 }))
    );
    assert_eq!(worker.request(), Request::Clock);
    assert_eq!(worker.resume(clock(secs(1302))), Ok(sleep_10_ms()));
    assert_eq!(worker.last_not_found, Some(LastNotFound::new(7, secs(1302))));

    // The wait started again.
    look_up(&mut worker, 7);
    assert_eq!(worker.resume(lookup(BlockLookup::NotFound)), Ok(quiet()));
    assert_eq!(worker.resume(clock(secs(1602))), Ok(sleep_10_ms()));
}

#[test]
fn another_missing_block_starts_a_new_wait() {
    let mut worker = new_worker();
    look_up(&mut worker, 7);
    assert_eq!(worker.resume(lookup(BlockLookup::NotFound)), Ok(quiet()));
    assert_eq!(worker.resume(clock(secs(0))), Ok(sleep_10_ms()));
    look_up(&mut worker, 8);
    assert_eq!(worker.resume(lookup(BlockLookup::NotFound)), Ok(quiet()));
    assert_eq!(worker.resume(clock(secs(1000))), Ok(sleep_10_ms()));
    assert_eq!(worker.last_not_found, Some(LastNotFound::new(8, secs(1000))));
}

#[test]
fn found_block_ends_the_wait() {
    let mut worker = new_worker();
    look_up(&mut worker, 7);
    assert_eq!(worker.resume(lookup(BlockLookup::NotFound)), Ok(quiet()));
    assert_eq!(worker.resume(clock(secs(0))), Ok(sleep_10_ms()));
    look_up(&mut worker, 7);
    assert_eq!(worker.resume(lookup(BlockLookup::Found { data: "block 7" })), Ok(quiet()));
    assert_eq!(worker.last_not_found, None);
}

#[test]
fn record_is_overdue_after_five_minutes() {
    let record = LastNotFound::new(7, secs(10));
    assert!(!record.overdue(&secs(5)));
    assert!(!record.overdue(&secs(310)));
    assert!(record.overdue(&Instant { since_origin: Duration::new(310, 1) }));
}

#[test]
fn ledger_failure_is_retried_in_one_second() {
    let mut worker = new_worker();
    look_up(&mut worker, 7);
    assert_eq!(worker.resume(lookup(BlockLookup::NotFound)), Ok(quiet()));
    assert_eq!(worker.resume(clock(secs(3))), Ok(sleep_10_ms()));
    look_up(&mut worker, 7);
    assert_eq!(
        worker.resume(lookup(BlockLookup::Failed { error: "Lmdb".to_string() })),
        Ok(log_and_retry_in_1_s(LogRecord::BlockDataError {
            block_index: 7,
            error: "Lmdb".to_string()
        }))
    );
    assert_eq!(worker.request(), Request::NextBlockIndex);
    assert_eq!(worker.last_not_found, Some(LastNotFound::new(7, secs(3))));
}

#[test]
fn idle_worker_only_polls() {
    let mut worker = new_worker();
    assert_eq!(worker.resume(next_block(7, true)), Ok(quiet()));
    assert_eq!(worker.resume(stop(false)), Ok(sleep_10_ms()));
    assert_eq!(worker.request(), Request::NextBlockIndex);
}

#[test]
fn ingest_worker_stops_on_request() {
    for is_idle in [false, true] {
        let mut worker = new_worker();
        assert_eq!(worker.resume(next_block(7, is_idle)), Ok(quiet()));
        assert_eq!(
            worker.resume(stop(true)),
            Ok(log(LogRecord::IngestStopped { block_index: 7, is_idle }))
        );
        assert_eq!(worker.request(), Request::Exit);
        assert_eq!(worker.resume(next_block(7, is_idle)), Err(UnexpectedReply));
        assert_eq!(worker.phase, IngestPhase::Stopped);
    }
}

#[test]
fn unexpected_reply_changes_nothing() {
    let mut worker = new_worker();
    assert_eq!(worker.resume(clock(secs(1))), Err(UnexpectedReply));
    assert_eq!(worker.resume(stop(true)), Err(UnexpectedReply));
    assert_eq!(worker, new_worker());

    let mut undisturbed = new_worker();
    query_timestamp(&mut undisturbed, 7);
    query_timestamp(&mut worker, 7);
    assert_eq!(worker.resume(Reply::BlockProcessed), Err(UnexpectedReply));
    assert_eq!(worker, undisturbed);

    let found = TimestampResultCode::TimestampFound;
    assert_eq!(undisturbed.resume(timestamp(1, found)), Ok(quiet()));
    assert_eq!(worker.resume(timestamp(1, found)), Ok(quiet()));
    assert_eq!(worker.resume(timestamp(2, found)), Err(UnexpectedReply));
    assert_eq!(worker, undisturbed);
}

#[test]
fn each_block_is_processed_with_its_own_data_in_order() {
    let mut worker = IngestWorker::new(Duration::from_secs(5));
    for (n, text) in ["first", "second", "third"].iter().enumerate() {
        let block_index = 40 + n as u64;
        let data = text.to_string();
        for reply in [
            Reply::NextBlockIndex { next_block_index: block_index, is_idle: false },
            Reply::StopRequested { stop: false },
            Reply::BlockData { lookup: BlockLookup::Found { data: data.clone() } },
            Reply::MetricsUpdated { outcome: Ok(()) },
            Reply::Clock { now: secs(1) },
            Reply::BlockTimestamp { result: Ok((5, TimestampResultCode::TimestampFound)) },
        ] {
            assert_eq!(worker.resume(reply), Ok(quiet()));
        }
        assert_eq!(
            worker.request(),
            Request::ProcessNextBlock { block_index, data: &data, timestamp: 5 }
        );
        assert_eq!(worker.resume(Reply::BlockProcessed), Ok(quiet()));
    }
}

#[test]
fn failed_lookup_does_not_break_a_run_of_misses() {
    let mut worker = new_worker();
    look_up(&mut worker, 7);
    assert_eq!(worker.resume(lookup(BlockLookup::NotFound)), Ok(quiet()));
    assert_eq!(worker.resume(clock(secs(0))), Ok(sleep_10_ms()));
    look_up(&mut worker, 7);
    assert!(worker.resume(lookup(BlockLookup::Failed { error: "Lmdb".to_string() })).is_ok());
    look_up(&mut worker, 7);
    assert_eq!(worker.resume(lookup(BlockLookup::NotFound)), Ok(quiet()));
    assert_eq!(
        worker.resume(clock(secs(301))),
        Ok(log(LogRecord::WaitedForBlock { block_index: 7 }))
    );
}

#[test]
fn timestamp_does_not_depend_on_the_timeout() {
    for timeout in [0u64, 5, 1000] {
        let mut worker: IngestWorker<Data> = IngestWorker::new(Duration::from_secs(timeout));
        query_timestamp(&mut worker, 7);
        assert_eq!(worker.resume(timestamp(3, TimestampResultCode::WatcherBehind)), Ok(quiet()));
        while worker.request() == Request::Clock {
            assert!(worker.resume(clock(secs(110))).is_ok());
        }
        assert_eq!(worker.request(), Request::BlockTimestamp { block_index: 7 });
        assert!(worker.resume(timestamp(4, TimestampResultCode::Unavailable)).is_ok());
        assert_eq!(worker.request(), Request::BlockTimestamp { block_index: 7 });
        assert_eq!(worker.resume(timestamp(9, TimestampResultCode::TimestampFound)), Ok(quiet()));
        assert_eq!(
            worker.request(),
            Request::ProcessNextBlock { block_index: 7, data: &"block 7", timestamp: 9 }
        );
    }
}

#[test]
fn peers_are_checked_periodically() {
    let period = Duration::from_secs(60);
    let mut worker = PeerCheckupWorker::new(period);
    for _ in 0..3 {
        assert_eq!(worker.request(), CheckupRequest::StopRequested);
        assert_eq!(worker.resume(CheckupReply::StopRequested { stop: false }), Ok(quiet()));
        assert_eq!(worker.request(), CheckupRequest::PeerCheckup);
        assert_eq!(
            worker.resume(CheckupReply::PeersChecked),
            Ok(Pause { log: None, sleep: Some(period) })
        );
    }
    assert_eq!(worker.resume(CheckupReply::PeersChecked), Err(UnexpectedReply));
    assert_eq!(worker.resume(CheckupReply::StopRequested { stop: true }), Ok(log(LogRecord::PeerCheckupStopped)));
    assert_eq!(worker.request(), CheckupRequest::Exit);
    assert_eq!(worker.resume(CheckupReply::StopRequested { stop: true }), Err(UnexpectedReply));
}

#[test]
fn shutdown_requests_the_stop_and_then_joins_once() {
    let handle = ThreadHandle::new("thread");
    let (handle, action) = handle.shutdown();
    assert!(matches!(action, ShutdownAction::RequestStop));
    let (handle, action) = handle.shutdown();
    assert!(matches!(action, ShutdownAction::Join { thread: "thread" }));
    let (handle, action) = handle.shutdown();
    assert!(matches!(action, ShutdownAction::Finished));
    let (_, action) = handle.shutdown();
    assert!(matches!(action, ShutdownAction::Finished));
}
