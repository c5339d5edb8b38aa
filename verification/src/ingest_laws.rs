//! What holds of every run of the ingest worker.

use crate::ingest_worker::{IngestPhase, IngestWorker};
use crate::log::{LogLevel, LogRecord};
use crate::not_found::{LastNotFound, NOT_FOUND_LOG_SECS};
use crate::protocol::{
    error_retry_frequency, polling_frequency, BlockIndex, BlockLookup, Pause, Reply, Request,
};
use crate::time::{Duration, NANOS_PER_SEC};
use crate::timestamp::{timestamp_of_answer, TimestampPhase};
use vstd::prelude::*;

verus! {

/// Whether `workers` are the states that a worker goes through from its start
/// while it takes `replies`, one after the other.
pub open spec fn is_ingest_run<B>(
    watcher_timeout: Duration,
    workers: Seq<IngestWorker<B>>,
    replies: Seq<Reply<B>>,
) -> bool {
    &&& workers.len() == replies.len() + 1
    &&& workers[0] == IngestWorker::<B>::initial(watcher_timeout)
    &&& forall|i: int|
        0 <= i < replies.len() ==> {
            &&& (#[trigger] workers[i].next(replies[i])) is Some
            &&& workers[i].next(replies[i]).unwrap().0 == workers[i + 1]
        }
}

/// What is done between the `i`-th reply of a run and the request after it.
pub open spec fn pause_after<B>(workers: Seq<IngestWorker<B>>, replies: Seq<Reply<B>>, i: int) -> Pause {
    workers[i].next(replies[i]).unwrap().1
}

/// The readings of the clock in a run never go back.
pub open spec fn clock_is_monotonic<B>(replies: Seq<Reply<B>>) -> bool {
    forall|i: int, j: int|
        0 <= i < j < replies.len() && #[trigger] replies[i] is Clock && #[trigger] replies[j] is Clock
            ==> replies[i]->now.since_origin@ <= replies[j]->now.since_origin@
}

/// From the `n`-th request of a run on, the controller named the block as the
/// next and was not idle, nobody asked the worker to stop, and the ledger was
/// asked for the block.
pub open spec fn looked_up<B>(
    workers: Seq<IngestWorker<B>>,
    replies: Seq<Reply<B>>,
    n: int,
    block_index: BlockIndex,
) -> bool {
    &&& 0 <= n
    &&& n + 2 < workers.len()
    &&& workers[n].request() is NextBlockIndex
    &&& replies[n] == (Reply::<B>::NextBlockIndex { next_block_index: block_index, is_idle: false })
    &&& workers[n + 1].request() is StopRequested
    &&& replies[n + 1] == (Reply::<B>::StopRequested { stop: false })
    &&& workers[n + 2].request() == (Request::<&B>::BlockData { block_index })
}

/// The block was looked up from the `n`-th request on, and was found with this
/// data.
pub open spec fn found<B>(
    workers: Seq<IngestWorker<B>>,
    replies: Seq<Reply<B>>,
    n: int,
    block_index: BlockIndex,
    data: B,
) -> bool {
    &&& looked_up(workers, replies, n, block_index)
    &&& n + 2 < replies.len()
    &&& replies[n + 2] == (Reply::BlockData { lookup: BlockLookup::Found { data } })
}

/// The block was found from the `n`-th request on with this data, the ledger
/// was asked to update its metrics, and the next block was not asked for
/// since, up to the `i`-th request.
pub open spec fn found_in_this_round<B>(
    workers: Seq<IngestWorker<B>>,
    replies: Seq<Reply<B>>,
    n: int,
    i: int,
    block_index: BlockIndex,
    data: B,
) -> bool {
    &&& n + 2 < i
    &&& found(workers, replies, n, block_index, data)
    &&& workers[n + 3].request() is UpdateMetrics
    &&& forall|k: int| n < k <= i ==> (#[trigger] workers[k]).request() !is NextBlockIndex
}

spec fn provenance<B>(workers: Seq<IngestWorker<B>>, replies: Seq<Reply<B>>, i: int) -> bool {
    match workers[i].phase {
        IngestPhase::StopFlag { block_index, is_idle } => {
            &&& i >= 1
            &&& workers[i - 1].request() is NextBlockIndex
            &&& replies[i - 1] == (Reply::<B>::NextBlockIndex { next_block_index: block_index, is_idle })
        },
        IngestPhase::Lookup { block_index } => looked_up(workers, replies, i - 2, block_index),
        IngestPhase::Metrics { block_index, data } => {
            found_in_this_round(workers, replies, i - 3, i, block_index, data)
        },
        IngestPhase::Timestamp { poll, data } => exists|n: int|
            found_in_this_round(workers, replies, n, i, poll.block_index, data),
        IngestPhase::Processing { block_index, data, timestamp } => {
            &&& exists|n: int| found_in_this_round(workers, replies, n, i, block_index, data)
            &&& i >= 1
            &&& workers[i - 1].request() == (Request::<&B>::BlockTimestamp { block_index })
            &&& replies[i - 1] is BlockTimestamp
            &&& timestamp_of_answer(replies[i - 1]->result) == Some(timestamp)
        },
        _ => true,
    }
}

proof fn lemma_provenance<B>(
    watcher_timeout: Duration,
    workers: Seq<IngestWorker<B>>,
    replies: Seq<Reply<B>>,
    i: int,
)
    requires
        is_ingest_run(watcher_timeout, workers, replies),
        0 <= i <= replies.len(),
    ensures
        provenance(workers, replies, i),
    decreases i,
{
    if i > 0 {
        lemma_provenance(watcher_timeout, workers, replies, i - 1);
        assert(workers[i - 1].next(replies[i - 1]) is Some);
        match workers[i - 1].phase {
            IngestPhase::Metrics { block_index, data } => {
                assert(workers[i].phase->poll.block_index == block_index);
                assert(workers[i].phase->Timestamp_data == data);
                let n = i - 4;
                assert(found_in_this_round(workers, replies, n, i, block_index, data));
            },
            IngestPhase::Timestamp { poll, data } => {
                let before = i - 1;
                let n = choose|n: int|
                    found_in_this_round(workers, replies, n, before, poll.block_index, data);
                assert(found_in_this_round(workers, replies, n, i, poll.block_index, data));
                if workers[i].phase is Timestamp {
                    assert(workers[i].phase->poll.block_index == poll.block_index);
                    assert(workers[i].phase->Timestamp_data == data);
                }
            },
            _ => {},
        }
    }
}

/// In every run, the ledger is asked for a block only if the controller just
/// named it as the next and was not idle, and nobody had asked the worker to
/// stop.
pub proof fn law_lookup_follows_checks<B>(
    watcher_timeout: Duration,
    workers: Seq<IngestWorker<B>>,
    replies: Seq<Reply<B>>,
    i: int,
    block_index: BlockIndex,
)
    requires
        is_ingest_run(watcher_timeout, workers, replies),
        0 <= i <= replies.len(),
        workers[i].request() == (Request::<&B>::BlockData { block_index }),
    ensures
        looked_up(workers, replies, i - 2, block_index),
{
    lemma_provenance(watcher_timeout, workers, replies, i);
}

/// In every run, a block is processed only if the ledger had it in this round
/// of the loop, with the data that the ledger returned for it, and only with
/// the timestamp that the watcher just found for it, or with `u64::MAX` if the
/// watcher just said that the block is out of bounds.
pub proof fn law_processed_block<B>(
    watcher_timeout: Duration,
    workers: Seq<IngestWorker<B>>,
    replies: Seq<Reply<B>>,
    i: int,
    block_index: BlockIndex,
    data: B,
    timestamp: u64,
)
    requires
        is_ingest_run(watcher_timeout, workers, replies),
        0 <= i <= replies.len(),
        workers[i].request() == (Request::ProcessNextBlock { block_index, data: &data, timestamp }),
    ensures
        exists|n: int| found_in_this_round(workers, replies, n, i, block_index, data),
        i >= 1,
        workers[i - 1].request() == (Request::<&B>::BlockTimestamp { block_index }),
        replies[i - 1] is BlockTimestamp,
        timestamp_of_answer(replies[i - 1]->result) == Some(timestamp),
{
    lemma_provenance(watcher_timeout, workers, replies, i);
}

/// In every run, once a block was found nothing else happens until it is
/// processed: the worker asks for metrics, the time and the block's timestamp
/// only, and neither moves on to another block nor stops. It is processed with
/// the data that was found.
pub proof fn law_found_block_is_not_dropped<B>(
    watcher_timeout: Duration,
    workers: Seq<IngestWorker<B>>,
    replies: Seq<Reply<B>>,
    n: int,
    block_index: BlockIndex,
    data: B,
    j: int,
)
    requires
        is_ingest_run(watcher_timeout, workers, replies),
        found(workers, replies, n, block_index, data),
        n + 2 < j <= replies.len(),
        forall|k: int|
            n + 2 < k < j ==> !((#[trigger] workers[k]).request() is ProcessNextBlock),
    ensures
        match workers[j].request() {
            Request::UpdateMetrics | Request::Clock => true,
            Request::BlockTimestamp { block_index: b } => b == block_index,
            Request::ProcessNextBlock { block_index: b, data: d, .. } => b == block_index && *d
                == data,
            _ => false,
        },
{
    lemma_found_block_is_held(watcher_timeout, workers, replies, n, block_index, data, j);
}

spec fn holds_block<B>(worker: IngestWorker<B>, block_index: BlockIndex, data: B) -> bool {
    match worker.phase {
        IngestPhase::Metrics { block_index: b, data: d } => b == block_index && d == data,
        IngestPhase::Timestamp { poll, data: d } => poll.block_index == block_index && d == data,
        IngestPhase::Processing { block_index: b, data: d, .. } => b == block_index && d == data,
        _ => false,
    }
}

proof fn lemma_found_block_is_held<B>(
    watcher_timeout: Duration,
    workers: Seq<IngestWorker<B>>,
    replies: Seq<Reply<B>>,
    n: int,
    block_index: BlockIndex,
    data: B,
    j: int,
)
    requires
        is_ingest_run(watcher_timeout, workers, replies),
        found(workers, replies, n, block_index, data),
        n + 2 < j <= replies.len(),
        forall|k: int|
            n + 2 < k < j ==> !((#[trigger] workers[k]).request() is ProcessNextBlock),
    ensures
        holds_block(workers[j], block_index, data),
    decreases j,
{
    assert(workers[j - 1].next(replies[j - 1]) is Some);
    if j > n + 3 {
        lemma_found_block_is_held(watcher_timeout, workers, replies, n, block_index, data, j - 1);
        assert(!(workers[j - 1].request() is ProcessNextBlock));
    }
}

/// In every run, the worker exits when it sees the stop flag set, then and
/// only then, after a line that names the block it stopped at; and it takes no
/// reply after that.
pub proof fn law_ingest_stops_on_request<B>(
    watcher_timeout: Duration,
    workers: Seq<IngestWorker<B>>,
    replies: Seq<Reply<B>>,
    i: int,
)
    requires
        is_ingest_run(watcher_timeout, workers, replies),
        0 <= i < replies.len(),
    ensures
        workers[i].request() !is Exit,
        workers[i + 1].request() is Exit <==> replies[i] == (Reply::<B>::StopRequested {
            stop: true,
        }),
        workers[i + 1].request() is Exit ==> {
            &&& i >= 1
            &&& replies[i - 1] is NextBlockIndex
            &&& pause_after(workers, replies, i) == Pause::logging(
                LogRecord::IngestStopped {
                    block_index: replies[i - 1]->next_block_index,
                    is_idle: replies[i - 1]->is_idle,
                },
            )
        },
{
    lemma_provenance(watcher_timeout, workers, replies, i);
    assert(workers[i].next(replies[i]) is Some);
}

/// In every run, while the controller is idle and nobody asks the worker to
/// stop, the worker sleeps for the polling interval and asks the controller
/// again.
pub proof fn law_idle_worker_only_polls<B>(
    watcher_timeout: Duration,
    workers: Seq<IngestWorker<B>>,
    replies: Seq<Reply<B>>,
    i: int,
)
    requires
        is_ingest_run(watcher_timeout, workers, replies),
        0 <= i,
        i + 1 < replies.len(),
        replies[i] is NextBlockIndex,
        replies[i]->is_idle,
        replies[i + 1] == (Reply::<B>::StopRequested { stop: false }),
    ensures
        pause_after(workers, replies, i + 1) == Pause::sleeping(polling_frequency()),
        workers[i + 2].request() is NextBlockIndex,
{
    assert(workers[i].next(replies[i]) is Some);
    assert(workers[i + 1].next(replies[i + 1]) is Some);
}

/// The worker polls every 10 ms, and after an error it tries again in 1 s.
pub proof fn law_sleep_lengths()
    ensures
        polling_frequency()@ == 10_000_000,
        error_retry_frequency()@ == 1_000_000_000,
{
    broadcast use Duration::lemma_of_nanos;

}

/// In every run, the worker asks for the next block again only after it has
/// processed one, or after a sleep: of the polling interval when it was idle
/// or a block was missing, of the error interval when the ledger failed.
pub proof fn law_polling_is_paced<B>(
    watcher_timeout: Duration,
    workers: Seq<IngestWorker<B>>,
    replies: Seq<Reply<B>>,
    i: int,
)
    requires
        is_ingest_run(watcher_timeout, workers, replies),
        0 <= i < replies.len(),
        workers[i + 1].request() is NextBlockIndex,
    ensures
        match workers[i].request() {
            Request::ProcessNextBlock { .. } => pause_after(workers, replies, i) == Pause::none(),
            Request::StopRequested | Request::Clock => pause_after(workers, replies, i)
                == Pause::sleeping(polling_frequency()),
            Request::BlockData { .. } => pause_after(workers, replies, i).sleep == Some(
                error_retry_frequency(),
            ),
            _ => false,
        },
{
    assert(workers[i].next(replies[i]) is Some);
}

/// In every run, the worker asks the watcher for a timestamp for the first
/// time right after it has started the timer, and again only after a sleep: of
/// the polling interval when the watcher was behind, of the error interval
/// when it gave an error.
pub proof fn law_timestamp_queries_are_paced<B>(
    watcher_timeout: Duration,
    workers: Seq<IngestWorker<B>>,
    replies: Seq<Reply<B>>,
    i: int,
)
    requires
        is_ingest_run(watcher_timeout, workers, replies),
        0 <= i < replies.len(),
        workers[i + 1].request() is BlockTimestamp,
    ensures
        match workers[i].request() {
            Request::Clock => {
                ||| i >= 1 && workers[i - 1].request() is UpdateMetrics && pause_after(
                    workers,
                    replies,
                    i,
                ) == Pause::none()
                ||| pause_after(workers, replies, i) == Pause::sleeping(polling_frequency())
            },
            Request::BlockTimestamp { .. } => pause_after(workers, replies, i).sleep == Some(
                error_retry_frequency(),
            ),
            _ => false,
        },
{
    assert(workers[i].next(replies[i]) is Some);
    if i >= 1 {
        assert(workers[i - 1].next(replies[i - 1]) is Some);
    }
}

/// In every run, where the controller names a block as the next and is not
/// idle, and the stop flag then reads clear, the ledger is asked for the block.
pub proof fn law_named_block_is_looked_up<B>(
    watcher_timeout: Duration,
    workers: Seq<IngestWorker<B>>,
    replies: Seq<Reply<B>>,
    i: int,
    block_index: BlockIndex,
)
    requires
        is_ingest_run(watcher_timeout, workers, replies),
        0 <= i,
        i + 1 < replies.len(),
        replies[i] == (Reply::<B>::NextBlockIndex {
            next_block_index: block_index,
            is_idle: false,
        }),
        replies[i + 1] == (Reply::<B>::StopRequested { stop: false }),
    ensures
        looked_up(workers, replies, i, block_index),
{
    assert(workers[i].next(replies[i]) is Some);
    assert(workers[i + 1].next(replies[i + 1]) is Some);
}

/// Where the controller is asked for the next block again, after the `i`-th
/// reply of a run was that the ledger did not deliver a block: right after a
/// failure, and after a miss once the clock has been read, twice if a line was
/// logged.
pub open spec fn next_round<B>(
    workers: Seq<IngestWorker<B>>,
    replies: Seq<Reply<B>>,
    i: int,
) -> int {
    if replies[i]->lookup is Failed {
        i + 1
    } else if pause_after(workers, replies, i + 1).log is Some {
        i + 3
    } else {
        i + 2
    }
}

/// In every run, when the ledger did not deliver a block nothing but the time
/// is asked for before the controller is asked for the next block again, and
/// that only after a sleep: of the error interval if the ledger failed, of the
/// polling interval if the block was missing. Where the controller then names
/// the same block, is not idle and the stop flag reads clear, the ledger is
/// asked for that block again.
pub proof fn law_undelivered_block_is_asked_for_again<B>(
    watcher_timeout: Duration,
    workers: Seq<IngestWorker<B>>,
    replies: Seq<Reply<B>>,
    i: int,
    block_index: BlockIndex,
)
    requires
        is_ingest_run(watcher_timeout, workers, replies),
        0 <= i < replies.len(),
        workers[i].request() == (Request::<&B>::BlockData { block_index }),
        !(replies[i]->lookup is Found),
    ensures
        ({
            let again = next_round(workers, replies, i);
            &&& forall|k: int|
                i < k < again && k <= replies.len() ==> (#[trigger] workers[k]).request() is Clock
            &&& again <= replies.len() ==> {
                &&& workers[again].request() is NextBlockIndex
                &&& pause_after(workers, replies, again - 1).sleep == Some(
                    if replies[i]->lookup is Failed {
                        error_retry_frequency()
                    } else {
                        polling_frequency()
                    },
                )
            }
            &&& again + 1 < replies.len() && replies[again] == (Reply::<B>::NextBlockIndex {
                next_block_index: block_index,
                is_idle: false,
            }) && replies[again + 1] == (Reply::<B>::StopRequested { stop: false })
                ==> workers[again + 2].request() == (Request::<&B>::BlockData { block_index })
        }),
{
    assert(workers[i].next(replies[i]) is Some);
    if i + 1 < replies.len() {
        assert(workers[i + 1].next(replies[i + 1]) is Some);
    }
    if i + 2 < replies.len() {
        assert(workers[i + 2].next(replies[i + 2]) is Some);
    }
    let again = next_round(workers, replies, i);
    if again + 1 < replies.len() && replies[again] == (Reply::<B>::NextBlockIndex {
        next_block_index: block_index,
        is_idle: false,
    }) && replies[again + 1] == (Reply::<B>::StopRequested { stop: false }) {
        law_named_block_is_looked_up(watcher_timeout, workers, replies, again, block_index);
    }
}

/// In every run, a line at error level or above is followed by a sleep of 1 s,
/// so such lines are not written more often than that.
pub proof fn law_errors_are_logged_at_most_once_a_second<B>(
    watcher_timeout: Duration,
    workers: Seq<IngestWorker<B>>,
    replies: Seq<Reply<B>>,
    i: int,
)
    requires
        is_ingest_run(watcher_timeout, workers, replies),
        0 <= i < replies.len(),
        pause_after(workers, replies, i).log matches Some(record) && (record.level()
            == LogLevel::Error || record.level() == LogLevel::Critical),
    ensures
        pause_after(workers, replies, i).sleep matches Some(span) && span@ == NANOS_PER_SEC,
{
    broadcast use Duration::lemma_of_nanos;

    assert(workers[i].next(replies[i]) is Some);
}

/// In every run, the worker stays well formed and keeps its timeout.
pub proof fn law_ingest_run_is_well_formed<B>(
    watcher_timeout: Duration,
    workers: Seq<IngestWorker<B>>,
    replies: Seq<Reply<B>>,
    i: int,
)
    requires
        is_ingest_run(watcher_timeout, workers, replies),
        0 <= i <= replies.len(),
    ensures
        workers[i].well_formed(),
        workers[i].watcher_timeout == watcher_timeout,
    decreases i,
{
    if i > 0 {
        law_ingest_run_is_well_formed(watcher_timeout, workers, replies, i - 1);
        assert(workers[i - 1].next(replies[i - 1]) is Some);
    }
}

/// The clock was read at the `m`-th request to put the block on record as
/// missing, and the record has stood from there to the `i`-th request.
pub open spec fn missing_since<B>(
    workers: Seq<IngestWorker<B>>,
    replies: Seq<Reply<B>>,
    m: int,
    i: int,
    record: LastNotFound,
) -> bool {
    &&& 0 <= m < i
    &&& workers[m].phase == (IngestPhase::<B>::MarkMissing { block_index: record.block_index })
    &&& replies[m] == (Reply::<B>::Clock { now: record.time })
    &&& forall|k: int| m < k <= i ==> (#[trigger] workers[k]).last_not_found == Some(record)
}

proof fn lemma_record<B>(
    watcher_timeout: Duration,
    workers: Seq<IngestWorker<B>>,
    replies: Seq<Reply<B>>,
    i: int,
    record: LastNotFound,
)
    requires
        is_ingest_run(watcher_timeout, workers, replies),
        0 <= i <= replies.len(),
        workers[i].last_not_found == Some(record),
    ensures
        exists|m: int| missing_since(workers, replies, m, i, record),
    decreases i,
{
    assert(i > 0);
    let before = i - 1;
    assert(workers[before].next(replies[before]) is Some);
    match workers[before].phase {
        IngestPhase::MarkMissing { .. } => {
            assert(missing_since(workers, replies, before, i, record));
        },
        _ => {
            lemma_record(watcher_timeout, workers, replies, before, record);
            let m = choose|m: int| missing_since(workers, replies, m, before, record);
            assert(missing_since(workers, replies, m, i, record));
        },
    }
}

/// In every run, a line that a block was waited for is written only for a
/// block that has been on record as missing for more than five minutes.
pub proof fn law_missing_block_is_logged_late<B>(
    watcher_timeout: Duration,
    workers: Seq<IngestWorker<B>>,
    replies: Seq<Reply<B>>,
    i: int,
    block_index: BlockIndex,
)
    requires
        is_ingest_run(watcher_timeout, workers, replies),
        0 <= i < replies.len(),
        pause_after(workers, replies, i).log == Some(LogRecord::WaitedForBlock { block_index }),
    ensures
        replies[i] is Clock,
        exists|m: int, record: LastNotFound|
            {
                &&& #[trigger] missing_since(workers, replies, m, i, record)
                &&& record.block_index == block_index
                &&& replies[i]->now.since_origin@ - record.time.since_origin@ > NOT_FOUND_LOG_SECS
                    * NANOS_PER_SEC
            },
{
    assert(workers[i].next(replies[i]) is Some);
    law_ingest_run_is_well_formed(watcher_timeout, workers, replies, i);
    let record = workers[i].phase->record;
    lemma_record(watcher_timeout, workers, replies, i, record);
}

/// In every run, when a block on record is missed again, the line that it was
/// waited for is written if more than five minutes have passed since the time
/// on record, and nothing is written otherwise.
pub proof fn law_missing_block_is_logged_when_due<B>(
    watcher_timeout: Duration,
    workers: Seq<IngestWorker<B>>,
    replies: Seq<Reply<B>>,
    i: int,
    record: LastNotFound,
)
    requires
        is_ingest_run(watcher_timeout, workers, replies),
        0 <= i,
        i + 1 < replies.len(),
        workers[i].request() == (Request::<&B>::BlockData { block_index: record.block_index }),
        replies[i]->lookup is NotFound,
        workers[i].last_not_found == Some(record),
    ensures
        replies[i + 1] is Clock,
        pause_after(workers, replies, i + 1) == if replies[i + 1]->now.since_origin@
            - record.time.since_origin@ > NOT_FOUND_LOG_SECS * NANOS_PER_SEC {
            Pause::logging(LogRecord::WaitedForBlock { block_index: record.block_index })
        } else {
            Pause::sleeping(polling_frequency())
        },
{
    assert(workers[i].next(replies[i]) is Some);
    assert(workers[i + 1].next(replies[i + 1]) is Some);
}

/// The block that the ledger lacked at its latest lookup before the `i`-th
/// request, if that lookup was a miss. A lookup that failed tells nothing, and
/// does not count.
pub open spec fn missed_last<B>(
    workers: Seq<IngestWorker<B>>,
    replies: Seq<Reply<B>>,
    i: int,
) -> Option<BlockIndex>
    decreases i,
{
    if i <= 0 {
        None
    } else {
        match (workers[i - 1].request(), replies[i - 1]) {
            (
                Request::BlockData { block_index },
                Reply::BlockData { lookup: BlockLookup::NotFound },
            ) => Some(block_index),
            (
                Request::BlockData { .. },
                Reply::BlockData { lookup: BlockLookup::Found { .. } },
            ) => None,
            _ => missed_last(workers, replies, i - 1),
        }
    }
}

/// The block that a worker has on record as missing.
pub open spec fn on_record<B>(worker: IngestWorker<B>) -> Option<BlockIndex> {
    match worker.last_not_found {
        Some(record) => Some(record.block_index),
        None => None,
    }
}

/// In every run, a block is on record exactly while its misses follow each
/// other unbroken: from its first miss on, once the clock has been read for
/// the record, until another block is missed or a block is found.
pub proof fn law_record_follows_misses<B>(
    watcher_timeout: Duration,
    workers: Seq<IngestWorker<B>>,
    replies: Seq<Reply<B>>,
    i: int,
)
    requires
        is_ingest_run(watcher_timeout, workers, replies),
        0 <= i <= replies.len(),
    ensures
        match workers[i].phase {
            IngestPhase::MarkMissing { block_index } => missed_last(workers, replies, i) == Some(
                block_index,
            ),
            _ => missed_last(workers, replies, i) == on_record(workers[i]),
        },
    decreases i,
{
    if i > 0 {
        law_record_follows_misses(watcher_timeout, workers, replies, i - 1);
        law_ingest_run_is_well_formed(watcher_timeout, workers, replies, i - 1);
        assert(workers[i - 1].next(replies[i - 1]) is Some);
    }
}

/// In every run, the time on record is that of the first of an unbroken run of
/// misses, or that of the latest line that the block was waited for.
pub proof fn law_record_starts_at_first_miss_or_line<B>(
    watcher_timeout: Duration,
    workers: Seq<IngestWorker<B>>,
    replies: Seq<Reply<B>>,
    i: int,
    record: LastNotFound,
)
    requires
        is_ingest_run(watcher_timeout, workers, replies),
        0 <= i <= replies.len(),
        workers[i].last_not_found == Some(record),
    ensures
        exists|m: int|
            {
                &&& #[trigger] missing_since(workers, replies, m, i, record)
                &&& m >= 1
                &&& {
                    ||| {
                        &&& replies[m - 1] is BlockData
                        &&& replies[m - 1]->lookup is NotFound
                        &&& missed_last(workers, replies, m - 1) != Some(record.block_index)
                    }
                    ||| pause_after(workers, replies, m - 1) == Pause::logging(
                        LogRecord::WaitedForBlock { block_index: record.block_index },
                    )
                }
            },
{
    lemma_record(watcher_timeout, workers, replies, i, record);
    let m = choose|m: int| missing_since(workers, replies, m, i, record);
    assert(missing_since(workers, replies, m, i, record));
    assert(m >= 1);
    law_record_follows_misses(watcher_timeout, workers, replies, m - 1);
    assert(workers[m - 1].next(replies[m - 1]) is Some);
}

/// How many blocks the controller has processed before the `i`-th request.
pub open spec fn processed<B>(replies: Seq<Reply<B>>, i: int) -> nat
    decreases i,
{
    if i <= 0 {
        0
    } else {
        processed(replies, i - 1) + if replies[i - 1] is BlockProcessed {
            1nat
        } else {
            0
        }
    }
}

/// The index that the controller names starts at `start` and grows by one with
/// each block that it has processed.
pub open spec fn controller_counts<B>(replies: Seq<Reply<B>>, start: nat) -> bool {
    forall|i: int|
        0 <= i < replies.len() && #[trigger] replies[i] is NextBlockIndex
            ==> replies[i]->next_block_index == start + processed(replies, i)
}

spec fn concerns_block<B>(worker: IngestWorker<B>, block_index: nat) -> bool {
    match worker.phase {
        IngestPhase::StopFlag { block_index: b, .. }
        | IngestPhase::Lookup { block_index: b }
        | IngestPhase::Metrics { block_index: b, .. }
        | IngestPhase::Processing { block_index: b, .. } => b == block_index,
        IngestPhase::Timestamp { poll, .. } => poll.block_index == block_index,
        _ => true,
    }
}

proof fn lemma_current_block<B>(
    watcher_timeout: Duration,
    workers: Seq<IngestWorker<B>>,
    replies: Seq<Reply<B>>,
    start: nat,
    i: int,
)
    requires
        is_ingest_run(watcher_timeout, workers, replies),
        controller_counts(replies, start),
        0 <= i <= replies.len(),
    ensures
        concerns_block(workers[i], start + processed(replies, i)),
    decreases i,
{
    if i > 0 {
        lemma_current_block(watcher_timeout, workers, replies, start, i - 1);
        assert(workers[i - 1].next(replies[i - 1]) is Some);
    }
}

/// In every run in which the controller's index starts at `start` and grows by
/// one with each block processed, the blocks are processed in order and none
/// is left out: after `n` blocks the one that is looked up, and whose timestamp
/// is asked for, and that is processed next, is block `start + n`.
pub proof fn law_blocks_are_processed_in_order<B>(
    watcher_timeout: Duration,
    workers: Seq<IngestWorker<B>>,
    replies: Seq<Reply<B>>,
    start: nat,
    i: int,
)
    requires
        is_ingest_run(watcher_timeout, workers, replies),
        controller_counts(replies, start),
        0 <= i <= replies.len(),
    ensures
        match workers[i].request() {
            Request::BlockData { block_index }
            | Request::BlockTimestamp { block_index }
            | Request::ProcessNextBlock { block_index, .. } => block_index == start + processed(
                replies,
                i,
            ),
            _ => true,
        },
        i < replies.len() && replies[i] is BlockProcessed
            ==> workers[i].request() is ProcessNextBlock,
{
    lemma_current_block(watcher_timeout, workers, replies, start, i);
    if i < replies.len() {
        assert(workers[i].next(replies[i]) is Some);
    }
}

proof fn lemma_record_is_new<B>(
    watcher_timeout: Duration,
    workers: Seq<IngestWorker<B>>,
    replies: Seq<Reply<B>>,
    i: int,
    k: int,
)
    requires
        is_ingest_run(watcher_timeout, workers, replies),
        clock_is_monotonic(replies),
        0 <= i,
        i + 1 < k <= replies.len(),
        pause_after(workers, replies, i).log is Some,
        pause_after(workers, replies, i).log->0 is WaitedForBlock,
    ensures
        replies[i] is Clock,
        workers[k].last_not_found matches Some(record) ==> record.time.since_origin@
            >= replies[i]->now.since_origin@,
    decreases k,
{
    assert(workers[i].next(replies[i]) is Some);
    assert(workers[k - 1].next(replies[k - 1]) is Some);
    if k > i + 2 {
        lemma_record_is_new(watcher_timeout, workers, replies, i, k - 1);
    }
}

/// In every run whose clock never goes back, two lines that a block was waited
/// for are more than five minutes apart, whichever blocks they name.
pub proof fn law_waited_lines_are_apart<B>(
    watcher_timeout: Duration,
    workers: Seq<IngestWorker<B>>,
    replies: Seq<Reply<B>>,
    i: int,
    j: int,
)
    requires
        is_ingest_run(watcher_timeout, workers, replies),
        clock_is_monotonic(replies),
        0 <= i < j < replies.len(),
        pause_after(workers, replies, i).log is Some,
        pause_after(workers, replies, i).log->0 is WaitedForBlock,
        pause_after(workers, replies, j).log is Some,
        pause_after(workers, replies, j).log->0 is WaitedForBlock,
    ensures
        replies[i] is Clock,
        replies[j] is Clock,
        replies[j]->now.since_origin@ - replies[i]->now.since_origin@ > NOT_FOUND_LOG_SECS
            * NANOS_PER_SEC,
{
    assert(workers[i].next(replies[i]) is Some);
    assert(workers[j].next(replies[j]) is Some);
    law_ingest_run_is_well_formed(watcher_timeout, workers, replies, j);
    assert(j > i + 1);
    lemma_record_is_new(watcher_timeout, workers, replies, i, j);
}

proof fn lemma_timer_is_new<B>(
    watcher_timeout: Duration,
    workers: Seq<IngestWorker<B>>,
    replies: Seq<Reply<B>>,
    i: int,
    k: int,
)
    requires
        is_ingest_run(watcher_timeout, workers, replies),
        clock_is_monotonic(replies),
        0 <= i,
        i + 1 < k <= replies.len(),
        pause_after(workers, replies, i).log is Some,
        pause_after(workers, replies, i).log->0 is WatcherBehind,
    ensures
        replies[i] is Clock,
        workers[k].phase matches IngestPhase::Timestamp { poll, .. } ==> match poll.phase {
            TimestampPhase::Query { timer } | TimestampPhase::Measure { timer } =>
                timer.since_origin@ >= replies[i]->now.since_origin@,
            _ => true,
        },
    decreases k,
{
    assert(workers[i].next(replies[i]) is Some);
    assert(workers[k - 1].next(replies[k - 1]) is Some);
    if k > i + 2 {
        lemma_timer_is_new(watcher_timeout, workers, replies, i, k - 1);
    }
}

/// In every run whose clock never goes back, two warnings that the watcher is
/// behind are further apart than the watcher timeout.
pub proof fn law_behind_warnings_are_apart<B>(
    watcher_timeout: Duration,
    workers: Seq<IngestWorker<B>>,
    replies: Seq<Reply<B>>,
    i: int,
    j: int,
)
    requires
        is_ingest_run(watcher_timeout, workers, replies),
        clock_is_monotonic(replies),
        0 <= i < j < replies.len(),
        pause_after(workers, replies, i).log is Some,
        pause_after(workers, replies, i).log->0 is WatcherBehind,
        pause_after(workers, replies, j).log is Some,
        pause_after(workers, replies, j).log->0 is WatcherBehind,
    ensures
        replies[i] is Clock,
        replies[j] is Clock,
        replies[j]->now.since_origin@ - replies[i]->now.since_origin@ > watcher_timeout@,
{
    assert(workers[i].next(replies[i]) is Some);
    assert(workers[j].next(replies[j]) is Some);
    law_ingest_run_is_well_formed(watcher_timeout, workers, replies, j);
    assert(j > i + 1);
    lemma_timer_is_new(watcher_timeout, workers, replies, i, j);
}

} // verus!
