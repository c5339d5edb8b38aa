//! What the ingest worker does next, in every run, told from the requests,
//! replies and pauses of the run alone.

use crate::ingest_laws::{
    found_in_this_round, is_ingest_run, law_ingest_run_is_well_formed,
    law_processed_block, law_record_follows_misses, missed_last, pause_after,
};
use crate::ingest_worker::{IngestPhase, IngestWorker};
use crate::log::LogRecord;
use crate::protocol::{
    is_quiet, logs_and_sleeps, only_logs, only_sleeps, BlockIndex, BlockLookup, Reply, Request,
    TimestampResultCode,
};
use crate::time::Duration;
use crate::timestamp::TimestampPhase;
use vstd::prelude::*;

verus! {

/// Any reply of the kind that the worker asked for is taken, and no other: a
/// worker that has not exited goes on.
pub proof fn law_ingest_worker_is_never_stuck<B>(worker: IngestWorker<B>, reply: Reply<B>)
    ensures
        worker.next(reply) is Some <==> {
            ||| worker.request() is NextBlockIndex && reply is NextBlockIndex
            ||| worker.request() is StopRequested && reply is StopRequested
            ||| worker.request() is BlockData && reply is BlockData
            ||| worker.request() is Clock && reply is Clock
            ||| worker.request() is UpdateMetrics && reply is MetricsUpdated
            ||| worker.request() is BlockTimestamp && reply is BlockTimestamp
            ||| worker.request() is ProcessNextBlock && reply is BlockProcessed
        },
{
}

/// In every run, the worker first asks for the next block, and whenever it has
/// asked for that it looks at the stop flag at once.
pub proof fn law_round_starts<B>(
    watcher_timeout: Duration,
    workers: Seq<IngestWorker<B>>,
    replies: Seq<Reply<B>>,
    i: int,
)
    requires
        is_ingest_run(watcher_timeout, workers, replies),
        0 <= i < replies.len(),
    ensures
        workers[0].request() is NextBlockIndex,
        workers[i].request() is NextBlockIndex ==> {
            &&& replies[i] is NextBlockIndex
            &&& is_quiet(pause_after(workers, replies, i))
            &&& workers[i + 1].request() is StopRequested
        },
{
    assert(workers[i].next(replies[i]) is Some);
}

/// In every run, what follows a look at the stop flag: if it is set, the worker
/// logs where it stops and exits; if not, and the controller said that it is
/// idle, it is asked again in 10 ms; else the ledger is asked at once for the
/// block that the controller named.
pub proof fn law_after_stop_flag<B>(
    watcher_timeout: Duration,
    workers: Seq<IngestWorker<B>>,
    replies: Seq<Reply<B>>,
    i: int,
)
    requires
        is_ingest_run(watcher_timeout, workers, replies),
        0 <= i < replies.len(),
        workers[i].request() is StopRequested,
    ensures
        i >= 1,
        replies[i - 1] is NextBlockIndex,
        replies[i] is StopRequested,
        ({
            let block_index = replies[i - 1]->next_block_index;
            let is_idle = replies[i - 1]->is_idle;
            let pause = pause_after(workers, replies, i);
            if replies[i]->stop {
                &&& only_logs(pause, LogRecord::IngestStopped { block_index, is_idle })
                &&& workers[i + 1].request() is Exit
            } else if is_idle {
                &&& only_sleeps(pause, 10_000_000)
                &&& workers[i + 1].request() is NextBlockIndex
            } else {
                &&& is_quiet(pause)
                &&& workers[i + 1].request() == (Request::<&B>::BlockData { block_index })
            }
        }),
{
    broadcast use Duration::lemma_of_nanos;

    assert(workers[i].next(replies[i]) is Some);
    assert(workers[i - 1].next(replies[i - 1]) is Some);
}

/// In every run, what follows the ledger's answer: if it has the block, its
/// metrics are updated at once; if not, the clock is read at once; if it
/// failed, that is logged and the controller is asked for the next block again
/// in one second.
pub proof fn law_after_lookup<B>(
    watcher_timeout: Duration,
    workers: Seq<IngestWorker<B>>,
    replies: Seq<Reply<B>>,
    i: int,
    block_index: BlockIndex,
)
    requires
        is_ingest_run(watcher_timeout, workers, replies),
        0 <= i < replies.len(),
        workers[i].request() == (Request::<&B>::BlockData { block_index }),
    ensures
        replies[i] is BlockData,
        match replies[i]->lookup {
            BlockLookup::Found { .. } => {
                &&& is_quiet(pause_after(workers, replies, i))
                &&& workers[i + 1].request() is UpdateMetrics
            },
            BlockLookup::NotFound => {
                &&& is_quiet(pause_after(workers, replies, i))
                &&& workers[i + 1].request() is Clock
            },
            BlockLookup::Failed { error } => {
                &&& logs_and_sleeps(
                    pause_after(workers, replies, i),
                    LogRecord::BlockDataError { block_index, error },
                    1_000_000_000,
                )
                &&& workers[i + 1].request() is NextBlockIndex
            },
        },
{
    broadcast use Duration::lemma_of_nanos;

    assert(workers[i].next(replies[i]) is Some);
}

/// In every run, when a block is missed that was not missed at the lookup
/// before, nothing is logged: the clock is read and the controller is asked
/// for the next block again in 10 ms.
pub proof fn law_after_first_miss<B>(
    watcher_timeout: Duration,
    workers: Seq<IngestWorker<B>>,
    replies: Seq<Reply<B>>,
    i: int,
    block_index: BlockIndex,
)
    requires
        is_ingest_run(watcher_timeout, workers, replies),
        1 <= i < replies.len(),
        workers[i - 1].request() == (Request::<&B>::BlockData { block_index }),
        replies[i - 1]->lookup is NotFound,
        missed_last(workers, replies, i - 1) != Some(block_index),
    ensures
        replies[i] is Clock,
        only_sleeps(pause_after(workers, replies, i), 10_000_000),
        workers[i + 1].request() is NextBlockIndex,
{
    broadcast use Duration::lemma_of_nanos;

    law_record_follows_misses(watcher_timeout, workers, replies, i - 1);
    assert(workers[i - 1].next(replies[i - 1]) is Some);
    assert(workers[i].next(replies[i]) is Some);
}

/// The `m`-th reply of a run is the clock reading from which the wait for a
/// missing block counts: the one right after its first miss, or right after a
/// line that the block was waited for.
pub open spec fn starts_wait<B>(
    workers: Seq<IngestWorker<B>>,
    replies: Seq<Reply<B>>,
    m: int,
) -> bool {
    &&& 1 <= m < replies.len()
    &&& replies[m] is Clock
    &&& {
        ||| {
            &&& workers[m - 1].request() is BlockData
            &&& replies[m - 1]->lookup is NotFound
            &&& missed_last(workers, replies, m - 1) != Some(
                workers[m - 1].request()->BlockData_block_index,
            )
        }
        ||| {
            &&& pause_after(workers, replies, m - 1).log is Some
            &&& pause_after(workers, replies, m - 1).log->0 is WaitedForBlock
        }
    }
}

/// The wait counts from the `m`-th reply of a run, and did not start again
/// before the `i`-th.
pub open spec fn waits_since<B>(
    workers: Seq<IngestWorker<B>>,
    replies: Seq<Reply<B>>,
    m: int,
    i: int,
) -> bool {
    &&& m < i
    &&& starts_wait(workers, replies, m)
    &&& forall|k: int| m < k < i ==> !#[trigger] starts_wait(workers, replies, k)
}

spec fn record_is_of_wait<B>(
    workers: Seq<IngestWorker<B>>,
    replies: Seq<Reply<B>>,
    i: int,
) -> bool {
    &&& workers[i].last_not_found matches Some(record) ==> exists|m: int| #[trigger]
        waits_since(workers, replies, m, i) && replies[m]->now == record.time
    &&& match workers[i].phase {
        IngestPhase::StillMissing { record } => {
            &&& i >= 1
            &&& workers[i - 1].request() == (Request::<&B>::BlockData {
                block_index: record.block_index,
            })
            &&& missed_last(workers, replies, i - 1) == Some(record.block_index)
            &&& pause_after(workers, replies, i - 1).log is None
        },
        IngestPhase::MarkMissing { block_index } => {
            &&& i >= 1
            &&& {
                ||| {
                    &&& workers[i - 1].request() == (Request::<&B>::BlockData { block_index })
                    &&& replies[i - 1]->lookup is NotFound
                    &&& missed_last(workers, replies, i - 1) != Some(block_index)
                }
                ||| {
                    &&& workers[i - 1].request() is Clock
                    &&& pause_after(workers, replies, i - 1).log is Some
                    &&& pause_after(workers, replies, i - 1).log->0 is WaitedForBlock
                }
            }
        },
        _ => i >= 1 ==> {
            &&& pause_after(workers, replies, i - 1).log is Some
                ==> !(pause_after(workers, replies, i - 1).log->0 is WaitedForBlock)
            &&& workers[i - 1].request() is BlockData ==> !(replies[i - 1]->lookup is NotFound)
        },
    }
}

proof fn lemma_record_is_of_wait<B>(
    watcher_timeout: Duration,
    workers: Seq<IngestWorker<B>>,
    replies: Seq<Reply<B>>,
    i: int,
)
    requires
        is_ingest_run(watcher_timeout, workers, replies),
        0 <= i <= replies.len(),
    ensures
        record_is_of_wait(workers, replies, i),
    decreases i,
{
    if i > 0 {
        let before = i - 1;
        lemma_record_is_of_wait(watcher_timeout, workers, replies, before);
        law_record_follows_misses(watcher_timeout, workers, replies, before);
        law_ingest_run_is_well_formed(watcher_timeout, workers, replies, before);
        assert(workers[before].next(replies[before]) is Some);
        if workers[i].last_not_found is Some {
            if workers[before].phase is MarkMissing {
                assert(waits_since(workers, replies, before, i));
            } else {
                let record = workers[before].last_not_found->0;
                let m = choose|m: int| #[trigger]
                    waits_since(workers, replies, m, before) && replies[m]->now == record.time;
                assert(!starts_wait(workers, replies, before));
                assert(waits_since(workers, replies, m, i));
            }
        }
    }
}

/// In every run, when a block is missed again that was missed at the lookup
/// before, the line that it was waited for is logged if and only if more than
/// five minutes have passed since the wait started; then the clock is read
/// again. Otherwise the controller is asked for the next block in 10 ms.
pub proof fn law_after_repeated_miss<B>(
    watcher_timeout: Duration,
    workers: Seq<IngestWorker<B>>,
    replies: Seq<Reply<B>>,
    i: int,
    block_index: BlockIndex,
)
    requires
        is_ingest_run(watcher_timeout, workers, replies),
        1 <= i < replies.len(),
        workers[i - 1].request() == (Request::<&B>::BlockData { block_index }),
        replies[i - 1]->lookup is NotFound,
        missed_last(workers, replies, i - 1) == Some(block_index),
    ensures
        replies[i] is Clock,
        exists|m: int|
            {
                &&& #[trigger] waits_since(workers, replies, m, i)
                &&& if replies[i]->now.since_origin@ - replies[m]->now.since_origin@
                    > 300_000_000_000 {
                    &&& only_logs(
                        pause_after(workers, replies, i),
                        LogRecord::WaitedForBlock { block_index },
                    )
                    &&& workers[i + 1].request() is Clock
                } else {
                    &&& only_sleeps(pause_after(workers, replies, i), 10_000_000)
                    &&& workers[i + 1].request() is NextBlockIndex
                }
            },
{
    broadcast use Duration::lemma_of_nanos;

    lemma_record_is_of_wait(watcher_timeout, workers, replies, i);
    law_ingest_run_is_well_formed(watcher_timeout, workers, replies, i);
    law_record_follows_misses(watcher_timeout, workers, replies, i - 1);
    assert(workers[i - 1].next(replies[i - 1]) is Some);
    assert(workers[i].next(replies[i]) is Some);
    let record = workers[i].last_not_found->0;
    let m = choose|m: int| #[trigger]
        waits_since(workers, replies, m, i) && replies[m]->now == record.time;
    assert(waits_since(workers, replies, m, i));
}

/// In every run, once the line that a block was waited for is logged the clock
/// is read, and the controller is asked for the next block in 10 ms.
pub proof fn law_after_waited_line<B>(
    watcher_timeout: Duration,
    workers: Seq<IngestWorker<B>>,
    replies: Seq<Reply<B>>,
    i: int,
)
    requires
        is_ingest_run(watcher_timeout, workers, replies),
        1 <= i < replies.len(),
        pause_after(workers, replies, i - 1).log is Some,
        pause_after(workers, replies, i - 1).log->0 is WaitedForBlock,
    ensures
        replies[i] is Clock,
        only_sleeps(pause_after(workers, replies, i), 10_000_000),
        workers[i + 1].request() is NextBlockIndex,
{
    broadcast use Duration::lemma_of_nanos;

    assert(workers[i - 1].next(replies[i - 1]) is Some);
    assert(workers[i].next(replies[i]) is Some);
}

/// In every run, a miss costs one polling interval: of all the pauses from the
/// ledger's answer to the next question to the controller only the last
/// sleeps, for 10 ms, and only the clock is read in between, twice if the line
/// that the block was waited for was logged and else once.
pub proof fn law_miss_costs_one_polling_interval<B>(
    watcher_timeout: Duration,
    workers: Seq<IngestWorker<B>>,
    replies: Seq<Reply<B>>,
    i: int,
)
    requires
        is_ingest_run(watcher_timeout, workers, replies),
        0 <= i < replies.len(),
        replies[i] is BlockData,
        replies[i]->lookup is NotFound,
    ensures
        ({
            let again = if pause_after(workers, replies, i + 1).log is Some {
                i + 3
            } else {
                i + 2
            };
            &&& is_quiet(pause_after(workers, replies, i))
            &&& forall|k: int|
                i < k < again && k <= replies.len() ==> (#[trigger] workers[k]).request() is Clock
            &&& forall|k: int|
                i <= k < again - 1 && k < replies.len() ==> (#[trigger] pause_after(
                    workers,
                    replies,
                    k,
                )).sleep is None
            &&& again <= replies.len() ==> {
                &&& only_sleeps(pause_after(workers, replies, again - 1), 10_000_000)
                &&& workers[again].request() is NextBlockIndex
            }
        }),
{
    broadcast use Duration::lemma_of_nanos;

    assert(workers[i].next(replies[i]) is Some);
    if i + 1 < replies.len() {
        assert(workers[i + 1].next(replies[i + 1]) is Some);
    }
    if i + 2 < replies.len() {
        assert(workers[i + 2].next(replies[i + 2]) is Some);
    }
}

/// In every run, what follows the update of the metrics for a block that was
/// found: a failure is logged and otherwise ignored, the clock is read, and the
/// watcher is asked for the timestamp of the block, all without a sleep.
pub proof fn law_after_metrics<B>(
    watcher_timeout: Duration,
    workers: Seq<IngestWorker<B>>,
    replies: Seq<Reply<B>>,
    i: int,
)
    requires
        is_ingest_run(watcher_timeout, workers, replies),
        0 <= i < replies.len(),
        workers[i].request() is UpdateMetrics,
    ensures
        i >= 1,
        workers[i - 1].request() is BlockData,
        replies[i - 1]->lookup is Found,
        replies[i] is MetricsUpdated,
        match replies[i]->outcome {
            Ok(_) => is_quiet(pause_after(workers, replies, i)),
            Err(error) => only_logs(
                pause_after(workers, replies, i),
                LogRecord::MetricsError { error },
            ),
        },
        workers[i + 1].request() is Clock,
        i + 1 < replies.len() ==> {
            &&& is_quiet(pause_after(workers, replies, i + 1))
            &&& workers[i + 2].request() == (Request::<&B>::BlockTimestamp {
                block_index: workers[i - 1].request()->BlockData_block_index,
            })
        },
{
    assert(workers[i].next(replies[i]) is Some);
    assert(workers[i - 1].next(replies[i - 1]) is Some);
    if i + 1 < replies.len() {
        assert(workers[i + 1].next(replies[i + 1]) is Some);
    }
}

/// In every run, what follows the watcher's answer for a block. With a
/// timestamp that was found the block is processed at once, with the data that
/// the ledger returned for it in this round and with that timestamp; so it is,
/// with the largest timestamp, if the block is out of bounds, once that is
/// logged. While the watcher is behind the clock is read. After an error,
/// which is logged, the watcher is asked for the same block again in one
/// second.
pub proof fn law_after_timestamp_answer<B>(
    watcher_timeout: Duration,
    workers: Seq<IngestWorker<B>>,
    replies: Seq<Reply<B>>,
    i: int,
    block_index: BlockIndex,
)
    requires
        is_ingest_run(watcher_timeout, workers, replies),
        0 <= i < replies.len(),
        workers[i].request() == (Request::<&B>::BlockTimestamp { block_index }),
    ensures
        replies[i] is BlockTimestamp,
        ({
            let pause = pause_after(workers, replies, i);
            let request = workers[i + 1].request();
            let is_processed_with = |timestamp: u64|
                exists|n: int, data: B|
                    {
                        &&& #[trigger] found_in_this_round(
                            workers,
                            replies,
                            n,
                            i + 1,
                            block_index,
                            data,
                        )
                        &&& request == (Request::ProcessNextBlock {
                            block_index,
                            data: &data,
                            timestamp,
                        })
                    };
            let is_asked_again_in_one_second = |record: LogRecord|
                {
                    &&& logs_and_sleeps(pause, record, 1_000_000_000)
                    &&& request == (Request::<&B>::BlockTimestamp { block_index })
                };
            match replies[i]->result {
                Ok((timestamp, code)) => match code {
                    TimestampResultCode::TimestampFound => {
                        is_quiet(pause) && is_processed_with(timestamp)
                    },
                    TimestampResultCode::BlockIndexOutOfBounds => {
                        &&& only_logs(pause, LogRecord::BlockOutOfBounds { block_index })
                        &&& is_processed_with(0xffff_ffff_ffff_ffff)
                    },
                    TimestampResultCode::WatcherBehind => is_quiet(pause) && request is Clock,
                    TimestampResultCode::Unavailable => is_asked_again_in_one_second(
                        LogRecord::TimestampsUnavailable { block_index },
                    ),
                    TimestampResultCode::WatcherDatabaseError => is_asked_again_in_one_second(
                        LogRecord::WatcherDatabaseError { block_index },
                    ),
                },
                Err(error) => is_asked_again_in_one_second(
                    LogRecord::TimestampError { block_index, error },
                ),
            }
        }),
{
    broadcast use Duration::lemma_of_nanos;

    assert(workers[i].next(replies[i]) is Some);
    let after = i + 1;
    if workers[after].phase is Processing {
        let data = workers[after].phase->Processing_data;
        let timestamp = workers[after].phase->Processing_timestamp;
        law_processed_block(
            watcher_timeout,
            workers,
            replies,
            after,
            block_index,
            data,
            timestamp,
        );
        let n = choose|n: int|
            found_in_this_round(workers, replies, n, after, block_index, data);
        assert(found_in_this_round(workers, replies, n, i + 1, block_index, data));
    }
}

/// In every run, once a block was processed the controller is asked for the
/// next one at once.
pub proof fn law_after_processing<B>(
    watcher_timeout: Duration,
    workers: Seq<IngestWorker<B>>,
    replies: Seq<Reply<B>>,
    i: int,
)
    requires
        is_ingest_run(watcher_timeout, workers, replies),
        0 <= i < replies.len(),
        workers[i].request() is ProcessNextBlock,
    ensures
        replies[i] is BlockProcessed,
        is_quiet(pause_after(workers, replies, i)),
        workers[i + 1].request() is NextBlockIndex,
{
    assert(workers[i].next(replies[i]) is Some);
}

/// The `m`-th reply of a run is the clock reading that the timer of a
/// timestamp query is started with: the one right after the metrics of a block
/// were updated, or right after a warning that the watcher is behind.
pub open spec fn starts_timer<B>(
    workers: Seq<IngestWorker<B>>,
    replies: Seq<Reply<B>>,
    m: int,
) -> bool {
    &&& 1 <= m < replies.len()
    &&& replies[m] is Clock
    &&& {
        ||| workers[m - 1].request() is UpdateMetrics
        ||| {
            &&& pause_after(workers, replies, m - 1).log is Some
            &&& pause_after(workers, replies, m - 1).log->0 is WatcherBehind
        }
    }
}

/// The timer was started at the `m`-th reply of a run, and not again before
/// the `i`-th.
pub open spec fn timer_runs_since<B>(
    workers: Seq<IngestWorker<B>>,
    replies: Seq<Reply<B>>,
    m: int,
    i: int,
) -> bool {
    &&& m < i
    &&& starts_timer(workers, replies, m)
    &&& forall|k: int| m < k < i ==> !#[trigger] starts_timer(workers, replies, k)
}

spec fn timer_is_of_query<B>(
    workers: Seq<IngestWorker<B>>,
    replies: Seq<Reply<B>>,
    i: int,
) -> bool {
    match workers[i].phase {
        IngestPhase::Timestamp { poll, .. } => match poll.phase {
            TimestampPhase::StartTimer => i >= 1 && workers[i - 1].request() is UpdateMetrics,
            TimestampPhase::Query { timer } => exists|m: int| #[trigger]
                timer_runs_since(workers, replies, m, i) && replies[m]->now == timer,
            TimestampPhase::Measure { timer } => {
                &&& exists|m: int| #[trigger]
                    timer_runs_since(workers, replies, m, i) && replies[m]->now == timer
                &&& i >= 1
                &&& workers[i - 1].request() == (Request::<&B>::BlockTimestamp {
                    block_index: poll.block_index,
                })
                &&& pause_after(workers, replies, i - 1).log is None
            },
            TimestampPhase::RestartTimer => {
                &&& i >= 1
                &&& workers[i - 1].request() is Clock
                &&& pause_after(workers, replies, i - 1).log is Some
                &&& pause_after(workers, replies, i - 1).log->0 is WatcherBehind
            },
        },
        _ => true,
    }
}

proof fn lemma_timer_is_of_query<B>(
    watcher_timeout: Duration,
    workers: Seq<IngestWorker<B>>,
    replies: Seq<Reply<B>>,
    i: int,
)
    requires
        is_ingest_run(watcher_timeout, workers, replies),
        0 <= i <= replies.len(),
    ensures
        timer_is_of_query(workers, replies, i),
    decreases i,
{
    if i > 0 {
        let before = i - 1;
        lemma_timer_is_of_query(watcher_timeout, workers, replies, before);
        assert(workers[before].next(replies[before]) is Some);
        if workers[before].phase is Timestamp && workers[i].phase is Timestamp {
            match workers[before].phase->poll.phase {
                TimestampPhase::StartTimer | TimestampPhase::RestartTimer => {
                    assert(timer_runs_since(workers, replies, before, i));
                },
                TimestampPhase::Query { timer } | TimestampPhase::Measure { timer } => {
                    let m = choose|m: int| #[trigger]
                        timer_runs_since(workers, replies, m, before) && replies[m]->now == timer;
                    assert(!starts_timer(workers, replies, before));
                    assert(timer_runs_since(workers, replies, m, i));
                },
            }
        }
    }
}

/// In every run, when the watcher was behind and the clock is then read, the
/// warning is logged if and only if more time than the timeout has passed
/// since the timer was started; then the clock is read again. Otherwise the
/// watcher is asked for the same block again in 10 ms.
pub proof fn law_warning_is_logged_when_due<B>(
    watcher_timeout: Duration,
    workers: Seq<IngestWorker<B>>,
    replies: Seq<Reply<B>>,
    i: int,
    block_index: BlockIndex,
)
    requires
        is_ingest_run(watcher_timeout, workers, replies),
        1 <= i < replies.len(),
        workers[i - 1].request() == (Request::<&B>::BlockTimestamp { block_index }),
        workers[i].request() is Clock,
    ensures
        replies[i] is Clock,
        exists|m: int|
            {
                &&& #[trigger] timer_runs_since(workers, replies, m, i)
                &&& if replies[i]->now.since_origin@ - replies[m]->now.since_origin@
                    > watcher_timeout@ {
                    &&& only_logs(
                        pause_after(workers, replies, i),
                        LogRecord::WatcherBehind {
                            block_index,
                            timeout_secs: (watcher_timeout@ / 1_000_000_000) as u64,
                        },
                    )
                    &&& workers[i + 1].request() is Clock
                } else {
                    &&& only_sleeps(pause_after(workers, replies, i), 10_000_000)
                    &&& workers[i + 1].request() == (Request::<&B>::BlockTimestamp { block_index })
                }
            },
{
    broadcast use Duration::lemma_of_nanos;

    lemma_timer_is_of_query(watcher_timeout, workers, replies, i);
    law_ingest_run_is_well_formed(watcher_timeout, workers, replies, i);
    assert(workers[i - 1].next(replies[i - 1]) is Some);
    assert(workers[i].next(replies[i]) is Some);
    let timer = workers[i].phase->poll.phase->Measure_timer;
    let m = choose|m: int| #[trigger]
        timer_runs_since(workers, replies, m, i) && replies[m]->now == timer;
    assert(timer_runs_since(workers, replies, m, i));
}

/// In every run, when the watcher is behind it is asked for the same block
/// again. In between nothing but the clock is read, once, or twice if a
/// warning was logged, and all the sleeps add up to 10 ms: only the last pause
/// sleeps.
pub proof fn law_watcher_is_asked_again_when_behind<B>(
    watcher_timeout: Duration,
    workers: Seq<IngestWorker<B>>,
    replies: Seq<Reply<B>>,
    i: int,
    block_index: BlockIndex,
)
    requires
        is_ingest_run(watcher_timeout, workers, replies),
        0 <= i < replies.len(),
        workers[i].request() == (Request::<&B>::BlockTimestamp { block_index }),
        replies[i] matches Reply::BlockTimestamp { result: Ok((_, code)) } && code
            == TimestampResultCode::WatcherBehind,
    ensures
        ({
            let again = if pause_after(workers, replies, i + 1).log is Some {
                i + 3
            } else {
                i + 2
            };
            &&& forall|k: int|
                i < k < again && k <= replies.len() ==> (#[trigger] workers[k]).request() is Clock
            &&& forall|k: int|
                i <= k < again - 1 && k < replies.len() ==> (#[trigger] pause_after(
                    workers,
                    replies,
                    k,
                )).sleep is None
            &&& again <= replies.len() ==> {
                &&& only_sleeps(pause_after(workers, replies, again - 1), 10_000_000)
                &&& workers[again].request() == (Request::<&B>::BlockTimestamp { block_index })
            }
        }),
{
    broadcast use Duration::lemma_of_nanos;

    assert(workers[i].next(replies[i]) is Some);
    if i + 1 < replies.len() {
        assert(workers[i + 1].next(replies[i + 1]) is Some);
    }
    if i + 2 < replies.len() {
        assert(workers[i + 2].next(replies[i + 2]) is Some);
    }
}

} // verus!
