//! Getting the timestamp of a block from the watcher.

use crate::log::LogRecord;
use crate::protocol::{
    error_retry_frequency, is_quiet, logs_and_sleeps, only_logs, only_sleeps, polling_frequency,
    BlockIndex, Pause, Reply, Request, TimestampAnswer,
    TimestampResultCode, UnexpectedReply, ERROR_RETRY_FREQUENCY_MILLIS, POLLING_FREQUENCY_MILLIS,
};
use crate::time::{Duration, Instant, NANOS_PER_SEC};
use vstd::prelude::*;

verus! {

/// What the poll waits for.
#[derive(Clone, Copy, Debug, PartialEq, Eq, Structural)]
pub enum TimestampPhase {
    /// A clock reading, to start the timer with.
    StartTimer,
    /// The watcher's answer.
    Query { timer: Instant },
    /// The watcher is behind: a clock reading, to compare the timer with.
    Measure { timer: Instant },
    /// A warning was logged: a clock reading, to start the timer again.
    RestartTimer,
}

/// A query for the timestamp of a block, repeated until the watcher knows it.
///
/// The timer tracks how long the watcher has been behind; when it exceeds
/// `watcher_timeout`, a warning is logged and the timer starts again.
#[derive(Clone, Copy, Debug, PartialEq, Eq, Structural)]
pub struct TimestampPoll {
    pub block_index: BlockIndex,
    pub watcher_timeout: Duration,
    pub phase: TimestampPhase,
}

/// What a reply leads to.
#[derive(Debug, PartialEq, Eq)]
pub enum TimestampStep {
    /// The poll goes on.
    Continue { poll: TimestampPoll, pause: Pause },
    /// The poll ends with this timestamp, once the line is logged.
    Finish { timestamp: u64, log: Option<LogRecord> },
}

impl TimestampPoll {
    pub open spec fn spec_request<D>(&self) -> Request<D> {
        match self.phase {
            TimestampPhase::Query { .. } => Request::BlockTimestamp {
                block_index: self.block_index,
            },
            _ => Request::Clock,
        }
    }

    /// What the poll wants done.
    #[verifier::when_used_as_spec(spec_request)]
    pub fn request<D>(&self) -> (request: Request<D>)
        ensures
            request == self.spec_request::<D>(),
    {
        match self.phase {
            TimestampPhase::Query { .. } => Request::BlockTimestamp {
                block_index: self.block_index,
            },
            _ => Request::Clock,
        }
    }

    /// The poll about to query the watcher, with its timer started at `timer`.
    pub open spec fn querying(self, timer: Instant) -> TimestampPoll {
        TimestampPoll { phase: TimestampPhase::Query { timer }, ..self }
    }

    /// The watcher has been behind for longer than the timeout, by the clock
    /// reading `now`.
    pub open spec fn timed_out(self, timer: Instant, now: Instant) -> bool {
        timer.elapsed_nanos(now) > self.watcher_timeout@
    }

    /// What follows from the watcher's answer: only a timestamp that was found
    /// and a block index that is out of bounds end the poll.
    pub open spec fn after_answer(
        self,
        timer: Instant,
        result: TimestampAnswer,
    ) -> TimestampStep {
        let block_index = self.block_index;
        let retry_after_error = |record: LogRecord|
            TimestampStep::Continue {
                poll: self.querying(timer),
                pause: Pause::logging_then_sleeping(record, error_retry_frequency()),
            };
        match result {
            Ok((timestamp, TimestampResultCode::TimestampFound)) => TimestampStep::Finish {
                timestamp,
                log: None,
            },
            Ok((_, TimestampResultCode::BlockIndexOutOfBounds)) => TimestampStep::Finish {
                timestamp: u64::MAX,
                log: Some(LogRecord::BlockOutOfBounds { block_index }),
            },
            Ok((_, TimestampResultCode::WatcherBehind)) => TimestampStep::Continue {
                poll: TimestampPoll { phase: TimestampPhase::Measure { timer }, ..self },
                pause: Pause::none(),
            },
            Ok((_, TimestampResultCode::Unavailable)) => retry_after_error(
                LogRecord::TimestampsUnavailable { block_index },
            ),
            Ok((_, TimestampResultCode::WatcherDatabaseError)) => retry_after_error(
                LogRecord::WatcherDatabaseError { block_index },
            ),
            Err(error) => retry_after_error(LogRecord::TimestampError { block_index, error }),
        }
    }

    /// What `reply` leads to; nothing if it does not answer the request.
    pub open spec fn next<B>(self, reply: Reply<B>) -> Option<TimestampStep> {
        match (self.phase, reply) {
            (TimestampPhase::StartTimer, Reply::Clock { now }) => Some(
                TimestampStep::Continue { poll: self.querying(now), pause: Pause::none() },
            ),
            (TimestampPhase::Query { timer }, Reply::BlockTimestamp { result }) => Some(
                self.after_answer(timer, result),
            ),
            (TimestampPhase::Measure { timer }, Reply::Clock { now }) => Some(
                if self.timed_out(timer, now) {
                    TimestampStep::Continue {
                        poll: TimestampPoll { phase: TimestampPhase::RestartTimer, ..self },
                        pause: Pause::logging(
                            LogRecord::WatcherBehind {
                                block_index: self.block_index,
                                timeout_secs: (self.watcher_timeout@ / NANOS_PER_SEC as nat) as u64,
                            },
                        ),
                    }
                } else {
                    TimestampStep::Continue {
                        poll: self.querying(timer),
                        pause: Pause::sleeping(polling_frequency()),
                    }
                },
            ),
            (TimestampPhase::RestartTimer, Reply::Clock { now }) => Some(
                TimestampStep::Continue {
                    poll: self.querying(now),
                    pause: Pause::sleeping(polling_frequency()),
                },
            ),
            _ => None,
        }
    }

    /// The poll in another phase.
    fn at(&self, phase: TimestampPhase) -> (poll: TimestampPoll)
        ensures
            poll == (TimestampPoll { phase, ..*self }),
    {
        TimestampPoll {
            block_index: self.block_index,
            watcher_timeout: self.watcher_timeout,
            phase,
        }
    }

    /// Another query after an error, once the error is logged.
    fn retry_after_error(&self, timer: Instant, record: LogRecord) -> (step: TimestampStep)
        ensures
            step == (TimestampStep::Continue {
                poll: self.querying(timer),
                pause: Pause::logging_then_sleeping(record, error_retry_frequency()),
            }),
    {
        TimestampStep::Continue {
            poll: self.at(TimestampPhase::Query { timer }),
            pause: Pause {
                log: Some(record),
                sleep: Some(Duration::from_millis(ERROR_RETRY_FREQUENCY_MILLIS)),
            },
        }
    }

    /// Decides what the watcher's answer leads to.
    pub fn answer(
        &self,
        timer: Instant,
        result: TimestampAnswer,
    ) -> (step: TimestampStep)
        ensures
            step == self.after_answer(timer, result),
    {
        let block_index = self.block_index;
        match result {
            Ok((timestamp, code)) => match code {
                TimestampResultCode::WatcherBehind => TimestampStep::Continue {
                    poll: self.at(TimestampPhase::Measure { timer }),
                    pause: Pause { log: None, sleep: None },
                },
                TimestampResultCode::BlockIndexOutOfBounds => TimestampStep::Finish {
                    timestamp: u64::MAX,
                    log: Some(LogRecord::BlockOutOfBounds { block_index }),
                },
                TimestampResultCode::Unavailable => {
                    self.retry_after_error(timer, LogRecord::TimestampsUnavailable { block_index })
                },
                TimestampResultCode::WatcherDatabaseError => {
                    self.retry_after_error(timer, LogRecord::WatcherDatabaseError { block_index })
                },
                TimestampResultCode::TimestampFound => TimestampStep::Finish {
                    timestamp,
                    log: None,
                },
            },
            Err(error) => {
                self.retry_after_error(timer, LogRecord::TimestampError { block_index, error })
            },
        }
    }

    /// Decides what `reply` leads to.
    pub fn resume<B>(&self, reply: Reply<B>) -> (res: Result<TimestampStep, UnexpectedReply>)
        ensures
            res == (match self.next(reply) {
                Some(step) => Ok::<TimestampStep, UnexpectedReply>(step),
                None => Err(UnexpectedReply),
            }),
            res is Ok <==> self.request::<B>().answered_by(reply),
    {
        match (self.phase, reply) {
            (TimestampPhase::StartTimer, Reply::Clock { now }) => {
                Ok(
                    TimestampStep::Continue {
                        poll: self.at(TimestampPhase::Query { timer: now }),
                        pause: Pause { log: None, sleep: None },
                    },
                )
            },
            (TimestampPhase::Query { timer }, Reply::BlockTimestamp { result }) => {
                Ok(self.answer(timer, result))
            },
            (TimestampPhase::Measure { timer }, Reply::Clock { now }) => {
                if timer.elapsed(&now).exceeds(&self.watcher_timeout) {
                    let record = LogRecord::WatcherBehind {
                        block_index: self.block_index,
                        timeout_secs: self.watcher_timeout.as_secs(),
                    };
                    Ok(
                        TimestampStep::Continue {
                            poll: self.at(TimestampPhase::RestartTimer),
                            pause: Pause { log: Some(record), sleep: None },
                        },
                    )
                } else {
                    Ok(
                        TimestampStep::Continue {
                            poll: self.at(TimestampPhase::Query { timer }),
                            pause: Pause {
                                log: None,
                                sleep: Some(Duration::from_millis(POLLING_FREQUENCY_MILLIS)),
                            },
                        },
                    )
                }
            },
            (TimestampPhase::RestartTimer, Reply::Clock { now }) => {
                Ok(
                    TimestampStep::Continue {
                        poll: self.at(TimestampPhase::Query { timer: now }),
                        pause: Pause {
                            log: None,
                            sleep: Some(Duration::from_millis(POLLING_FREQUENCY_MILLIS)),
                        },
                    },
                )
            },
            _ => Err(UnexpectedReply),
        }
    }
}

/// The timestamp that a poll ends with on this answer, if it ends.
pub open spec fn timestamp_of_answer(answer: TimestampAnswer) -> Option<u64> {
    match answer {
        Ok((timestamp, TimestampResultCode::TimestampFound)) => Some(timestamp),
        Ok((_, TimestampResultCode::BlockIndexOutOfBounds)) => Some(u64::MAX),
        _ => None,
    }
}

/// Whether `polls` are the states that a poll goes through from its start
/// while it takes `replies`, one after the other, and does not end.
pub open spec fn is_poll_run<B>(
    block_index: BlockIndex,
    watcher_timeout: Duration,
    polls: Seq<TimestampPoll>,
    replies: Seq<Reply<B>>,
) -> bool {
    &&& polls.len() == replies.len() + 1
    &&& polls[0] == TimestampPoll {
        block_index,
        watcher_timeout,
        phase: TimestampPhase::StartTimer,
    }
    &&& forall|i: int|
        0 <= i < replies.len() ==> {
            &&& (#[trigger] polls[i].next(replies[i])) is Some
            &&& polls[i].next(replies[i]).unwrap() is Continue
            &&& polls[i].next(replies[i]).unwrap()->poll == polls[i + 1]
        }
}

/// Whether a poll goes through `polls` while it takes all of `replies` but the
/// last, and ends with `timestamp` on the last.
pub open spec fn is_finished_poll_run<B>(
    block_index: BlockIndex,
    watcher_timeout: Duration,
    polls: Seq<TimestampPoll>,
    replies: Seq<Reply<B>>,
    timestamp: u64,
) -> bool {
    &&& replies.len() > 0
    &&& is_poll_run(block_index, watcher_timeout, polls, replies.drop_last())
    &&& polls.last().next(replies.last()) is Some
    &&& polls.last().next(replies.last()).unwrap() is Finish
    &&& polls.last().next(replies.last()).unwrap()->timestamp == timestamp
}

/// The watcher's answers among `replies`, in their order.
pub open spec fn answers<B>(replies: Seq<Reply<B>>) -> Seq<TimestampAnswer>
    decreases replies.len(),
{
    if replies.len() == 0 {
        Seq::empty()
    } else {
        match replies.last() {
            Reply::BlockTimestamp { result } => answers(replies.drop_last()).push(result),
            _ => answers(replies.drop_last()),
        }
    }
}

/// The first of `given` that ends a poll is its last, and the poll ends with
/// `timestamp` on it.
pub open spec fn first_ends_with(given: Seq<TimestampAnswer>, timestamp: u64) -> bool {
    &&& given.len() > 0
    &&& timestamp_of_answer(given.last()) == Some(timestamp)
    &&& forall|i: int| 0 <= i < given.len() - 1 ==> timestamp_of_answer(#[trigger] given[i]) is None
}

/// In every run, a poll asks the watcher for its own block only, and otherwise
/// for the time.
pub proof fn law_poll_queries_its_block<B>(
    block_index: BlockIndex,
    watcher_timeout: Duration,
    polls: Seq<TimestampPoll>,
    replies: Seq<Reply<B>>,
    i: int,
)
    requires
        is_poll_run(block_index, watcher_timeout, polls, replies),
        0 <= i <= replies.len(),
    ensures
        polls[i].request::<B>() == Request::<B>::Clock || polls[i].request::<B>() == (Request::<
            B,
        >::BlockTimestamp { block_index }),
        polls[i].block_index == block_index,
    decreases i,
{
    if i > 0 {
        law_poll_queries_its_block(block_index, watcher_timeout, polls, replies, i - 1);
        assert(polls[i - 1].next(replies[i - 1]) is Some);
    }
}

/// A poll that has not ended has had no answer that ends it.
pub proof fn law_unfinished_poll_has_no_timestamp<B>(
    block_index: BlockIndex,
    watcher_timeout: Duration,
    polls: Seq<TimestampPoll>,
    replies: Seq<Reply<B>>,
)
    requires
        is_poll_run(block_index, watcher_timeout, polls, replies),
    ensures
        forall|i: int|
            0 <= i < answers(replies).len() ==> timestamp_of_answer(
                #[trigger] answers(replies)[i],
            ) is None,
    decreases replies.len(),
{
    if replies.len() > 0 {
        let last = replies.len() - 1;
        let earlier_polls = polls.drop_last();
        let earlier = replies.drop_last();
        assert(is_poll_run(block_index, watcher_timeout, earlier_polls, earlier)) by {
            assert forall|i: int| 0 <= i < earlier.len() implies {
                &&& (#[trigger] earlier_polls[i].next(earlier[i])) is Some
                &&& earlier_polls[i].next(earlier[i]).unwrap() is Continue
                &&& earlier_polls[i].next(earlier[i]).unwrap()->poll == earlier_polls[i + 1]
            } by {
                assert(polls[i].next(replies[i]) is Some);
            }
        }
        law_unfinished_poll_has_no_timestamp(block_index, watcher_timeout, earlier_polls, earlier);
        assert(polls[last].next(replies[last]) is Some);
    }
}

/// A poll ends with the timestamp of the first answer that ends it.
pub proof fn law_poll_result<B>(
    block_index: BlockIndex,
    watcher_timeout: Duration,
    polls: Seq<TimestampPoll>,
    replies: Seq<Reply<B>>,
    timestamp: u64,
)
    requires
        is_finished_poll_run(block_index, watcher_timeout, polls, replies, timestamp),
    ensures
        first_ends_with(answers(replies), timestamp),
{
    let earlier = replies.drop_last();
    law_unfinished_poll_has_no_timestamp(block_index, watcher_timeout, polls, earlier);
    assert(answers(replies).drop_last() == answers(earlier));
    assert forall|i: int| 0 <= i < answers(replies).len() - 1 implies timestamp_of_answer(
        #[trigger] answers(replies)[i],
    ) is None by {
        assert(answers(replies)[i] == answers(earlier)[i]);
    }
}

/// Which answers end a poll, and with which timestamp, does not depend on the
/// timeout: two polls that get the same answers both end, or neither does, and
/// they end with the same timestamp.
pub proof fn law_poll_result_is_independent_of_timeout<B>(
    block_index: BlockIndex,
    watcher_timeout: Duration,
    polls: Seq<TimestampPoll>,
    replies: Seq<Reply<B>>,
    timestamp: u64,
    other_timeout: Duration,
    other_polls: Seq<TimestampPoll>,
    other_replies: Seq<Reply<B>>,
)
    requires
        is_finished_poll_run(block_index, watcher_timeout, polls, replies, timestamp),
        answers(other_replies) == answers(replies),
    ensures
        !is_poll_run(block_index, other_timeout, other_polls, other_replies),
        forall|other: u64| #[trigger]
            is_finished_poll_run(block_index, other_timeout, other_polls, other_replies, other)
                ==> other == timestamp,
{
    law_poll_result(block_index, watcher_timeout, polls, replies, timestamp);
    if is_poll_run(block_index, other_timeout, other_polls, other_replies) {
        law_unfinished_poll_has_no_timestamp(
            block_index,
            other_timeout,
            other_polls,
            other_replies,
        );
        assert(timestamp_of_answer(answers(other_replies)[answers(replies).len() - 1]) is None);
    }
    assert forall|other: u64| #[trigger]
        is_finished_poll_run(
            block_index,
            other_timeout,
            other_polls,
            other_replies,
            other,
        ) implies other == timestamp by {
        law_poll_result(block_index, other_timeout, other_polls, other_replies, other);
    }
}

/// Any reply of the kind that the poll asked for is taken, and no other.
pub proof fn law_poll_is_never_stuck<B>(poll: TimestampPoll, reply: Reply<B>)
    ensures
        poll.next(reply) is Some <==> {
            ||| poll.request::<B>() is Clock && reply is Clock
            ||| poll.request::<B>() is BlockTimestamp && reply is BlockTimestamp
        },
{
}

/// What each answer of the watcher leads to, in whatever state the query was
/// made: a timestamp that was found is the result; a block that is out of
/// bounds has the largest timestamp, and that is logged; while the watcher is
/// behind the clock is read; and after an error, which is logged, the watcher
/// is asked for the same block again in one second.
pub proof fn law_poll_takes_answer<B>(
    poll: TimestampPoll,
    block_index: BlockIndex,
    answer: TimestampAnswer,
)
    requires
        poll.request::<B>() == (Request::<B>::BlockTimestamp { block_index }),
    ensures
        ({
            let step = poll.next(Reply::<B>::BlockTimestamp { result: answer }).unwrap();
            let asks_again_in_one_second = |record: LogRecord|
                {
                    &&& step is Continue
                    &&& logs_and_sleeps(step->pause, record, 1_000_000_000)
                    &&& step->poll.request::<B>() == (Request::<B>::BlockTimestamp { block_index })
                };
            match answer {
                Ok((timestamp, code)) => match code {
                    TimestampResultCode::TimestampFound => step == (TimestampStep::Finish {
                        timestamp,
                        log: None,
                    }),
                    TimestampResultCode::BlockIndexOutOfBounds => step == (TimestampStep::Finish {
                        timestamp: 0xffff_ffff_ffff_ffff,
                        log: Some(LogRecord::BlockOutOfBounds { block_index }),
                    }),
                    TimestampResultCode::WatcherBehind => {
                        &&& step is Continue
                        &&& is_quiet(step->pause)
                        &&& step->poll.request::<B>() is Clock
                    },
                    TimestampResultCode::Unavailable => asks_again_in_one_second(
                        LogRecord::TimestampsUnavailable { block_index },
                    ),
                    TimestampResultCode::WatcherDatabaseError => asks_again_in_one_second(
                        LogRecord::WatcherDatabaseError { block_index },
                    ),
                },
                Err(error) => asks_again_in_one_second(
                    LogRecord::TimestampError { block_index, error },
                ),
            }
        }),
{
    broadcast use Duration::lemma_of_nanos;

}

/// An answer that is handed over with the timer leads to what it leads to as
/// the reply to a query, whatever the poll was waiting for.
pub proof fn law_answer_is_reply_to_query<B>(
    poll: TimestampPoll,
    timer: Instant,
    answer: TimestampAnswer,
)
    ensures
        ({
            let query = TimestampPoll { phase: TimestampPhase::Query { timer }, ..poll };
            &&& query.request::<B>() == (Request::<B>::BlockTimestamp {
                block_index: poll.block_index,
            })
            &&& query.next(Reply::<B>::BlockTimestamp { result: answer }) == Some(
                poll.after_answer(timer, answer),
            )
        }),
{
}

/// What is done between the `i`-th reply of a run and the request after it.
pub open spec fn poll_pause<B>(polls: Seq<TimestampPoll>, replies: Seq<Reply<B>>, i: int) -> Pause {
    polls[i].next(replies[i]).unwrap()->pause
}

/// In every run, the poll first reads the clock, and then asks the watcher for
/// the block at once.
pub proof fn law_poll_starts<B>(
    block_index: BlockIndex,
    watcher_timeout: Duration,
    polls: Seq<TimestampPoll>,
    replies: Seq<Reply<B>>,
)
    requires
        is_poll_run(block_index, watcher_timeout, polls, replies),
    ensures
        polls[0].request::<B>() is Clock,
        replies.len() > 0 ==> is_quiet(poll_pause(polls, replies, 0)) && polls[1].request::<B>()
            == (Request::<B>::BlockTimestamp { block_index }),
{
    if replies.len() > 0 {
        assert(polls[0].next(replies[0]) is Some);
    }
}

/// The `m`-th reply of a run is the clock reading that the timer is started
/// with: the first of the poll, or the one right after a warning that the
/// watcher is behind.
pub open spec fn starts_poll_timer<B>(
    polls: Seq<TimestampPoll>,
    replies: Seq<Reply<B>>,
    m: int,
) -> bool {
    &&& 0 <= m < replies.len()
    &&& replies[m] is Clock
    &&& m == 0 || (poll_pause(polls, replies, m - 1).log is Some && poll_pause(
        polls,
        replies,
        m - 1,
    ).log->0 is WatcherBehind)
}

/// The timer was started at the `m`-th reply of a run, and not again before
/// the `i`-th.
pub open spec fn poll_timer_runs_since<B>(
    polls: Seq<TimestampPoll>,
    replies: Seq<Reply<B>>,
    m: int,
    i: int,
) -> bool {
    &&& m < i
    &&& starts_poll_timer(polls, replies, m)
    &&& forall|k: int| m < k < i ==> !#[trigger] starts_poll_timer(polls, replies, k)
}

spec fn poll_state<B>(
    block_index: BlockIndex,
    watcher_timeout: Duration,
    polls: Seq<TimestampPoll>,
    replies: Seq<Reply<B>>,
    i: int,
) -> bool {
    &&& polls[i].block_index == block_index
    &&& polls[i].watcher_timeout == watcher_timeout
    &&& match polls[i].phase {
        TimestampPhase::StartTimer => i == 0,
        TimestampPhase::Query { timer } => exists|m: int| #[trigger]
            poll_timer_runs_since(polls, replies, m, i) && replies[m]->now == timer,
        TimestampPhase::Measure { timer } => {
            &&& exists|m: int| #[trigger]
                poll_timer_runs_since(polls, replies, m, i) && replies[m]->now == timer
            &&& i >= 1
            &&& polls[i - 1].phase is Query
            &&& poll_pause(polls, replies, i - 1).log is None
        },
        TimestampPhase::RestartTimer => {
            &&& i >= 1
            &&& polls[i - 1].phase is Measure
            &&& poll_pause(polls, replies, i - 1).log matches Some(record) && record
                is WatcherBehind
        },
    }
}

proof fn lemma_poll_state<B>(
    block_index: BlockIndex,
    watcher_timeout: Duration,
    polls: Seq<TimestampPoll>,
    replies: Seq<Reply<B>>,
    i: int,
)
    requires
        is_poll_run(block_index, watcher_timeout, polls, replies),
        0 <= i <= replies.len(),
    ensures
        poll_state(block_index, watcher_timeout, polls, replies, i),
    decreases i,
{
    if i > 0 {
        let before = i - 1;
        lemma_poll_state(block_index, watcher_timeout, polls, replies, before);
        assert(polls[before].next(replies[before]) is Some);
        match polls[before].phase {
            TimestampPhase::StartTimer | TimestampPhase::RestartTimer => {
                assert(poll_timer_runs_since(polls, replies, before, i));
            },
            TimestampPhase::Query { timer } | TimestampPhase::Measure { timer } => {
                let m = choose|m: int| #[trigger]
                    poll_timer_runs_since(polls, replies, m, before) && replies[m]->now == timer;
                assert(!starts_poll_timer(polls, replies, before));
                assert(poll_timer_runs_since(polls, replies, m, i));
            },
        }
    }
}

/// In every run, when the watcher was behind and the clock is then read, the
/// warning is logged if and only if more time than the timeout has passed
/// since the timer was started; then the clock is read again. Otherwise the
/// watcher is asked for the block again in 10 ms.
pub proof fn law_poll_warns_when_due<B>(
    block_index: BlockIndex,
    watcher_timeout: Duration,
    polls: Seq<TimestampPoll>,
    replies: Seq<Reply<B>>,
    i: int,
)
    requires
        is_poll_run(block_index, watcher_timeout, polls, replies),
        1 <= i < replies.len(),
        polls[i - 1].request::<B>() is BlockTimestamp,
        polls[i].request::<B>() is Clock,
    ensures
        replies[i] is Clock,
        exists|m: int|
            {
                &&& #[trigger] poll_timer_runs_since(polls, replies, m, i)
                &&& if replies[i]->now.since_origin@ - replies[m]->now.since_origin@
                    > watcher_timeout@ {
                    &&& only_logs(
                        poll_pause(polls, replies, i),
                        LogRecord::WatcherBehind {
                            block_index,
                            timeout_secs: (watcher_timeout@ / 1_000_000_000) as u64,
                        },
                    )
                    &&& polls[i + 1].request::<B>() is Clock
                } else {
                    &&& only_sleeps(poll_pause(polls, replies, i), 10_000_000)
                    &&& polls[i + 1].request::<B>() == (Request::<B>::BlockTimestamp { block_index })
                }
            },
{
    broadcast use Duration::lemma_of_nanos;

    lemma_poll_state(block_index, watcher_timeout, polls, replies, i);
    assert(polls[i].next(replies[i]) is Some);
    let timer = polls[i].phase->Measure_timer;
    let m = choose|m: int| #[trigger]
        poll_timer_runs_since(polls, replies, m, i) && replies[m]->now == timer;
    assert(poll_timer_runs_since(polls, replies, m, i));
}

/// Where the watcher is asked again, after the `i`-th reply of a run was that
/// it is behind: once the clock has been read, twice if a warning was logged.
pub open spec fn next_query<B>(polls: Seq<TimestampPoll>, replies: Seq<Reply<B>>, i: int) -> int {
    if poll_pause(polls, replies, i + 1).log is Some {
        i + 3
    } else {
        i + 2
    }
}

/// In every run, when the watcher is behind it is asked for the same block
/// again. In between nothing but the clock is read, and all the sleeps add up
/// to 10 ms: only the last pause sleeps.
pub proof fn law_poll_asks_again_when_behind<B>(
    block_index: BlockIndex,
    watcher_timeout: Duration,
    polls: Seq<TimestampPoll>,
    replies: Seq<Reply<B>>,
    i: int,
)
    requires
        is_poll_run(block_index, watcher_timeout, polls, replies),
        0 <= i < replies.len(),
        replies[i] matches Reply::BlockTimestamp { result: Ok((_, code)) } && code
            == TimestampResultCode::WatcherBehind,
    ensures
        ({
            let again = next_query(polls, replies, i);
            &&& forall|k: int|
                i < k < again && k <= replies.len() ==> (#[trigger] polls[k]).request::<B>()
                    is Clock
            &&& forall|k: int|
                i <= k < again - 1 && k < replies.len() ==> (#[trigger] poll_pause(
                    polls,
                    replies,
                    k,
                )).sleep is None
            &&& again <= replies.len() ==> {
                &&& only_sleeps(poll_pause(polls, replies, again - 1), 10_000_000)
                &&& polls[again].request::<B>() == (Request::<B>::BlockTimestamp { block_index })
            }
        }),
{
    broadcast use Duration::lemma_of_nanos;

    lemma_poll_state(block_index, watcher_timeout, polls, replies, i);
    assert(polls[i].next(replies[i]) is Some);
    if i + 1 < replies.len() {
        assert(polls[i + 1].next(replies[i + 1]) is Some);
    }
    if i + 2 < replies.len() {
        assert(polls[i + 2].next(replies[i + 2]) is Some);
    }
}

} // verus!
