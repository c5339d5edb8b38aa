//! The ingest worker.

use crate::log::LogRecord;
use crate::not_found::LastNotFound;
use crate::protocol::{
    error_retry_frequency, polling_frequency, BlockIndex, BlockLookup, Pause, Reply, Request,
    UnexpectedReply, ERROR_RETRY_FREQUENCY_MILLIS, POLLING_FREQUENCY_MILLIS,
};
use crate::time::{Duration, Instant};
use crate::timestamp::{TimestampPhase, TimestampPoll, TimestampStep};
use vstd::prelude::*;

verus! {

/// What the ingest worker waits for. From the time that a block is found the
/// worker holds the block's data.
#[derive(Debug, PartialEq, Eq)]
pub enum IngestPhase<B> {
    /// The index of the next block.
    NextBlock,
    /// Whether to stop.
    StopFlag { block_index: BlockIndex, is_idle: bool },
    /// The ledger's answer.
    Lookup { block_index: BlockIndex },
    /// The block is missing, as it was at the last lookup: a clock reading, to
    /// compare with the record.
    StillMissing { record: LastNotFound },
    /// The block is missing: a clock reading, to make a new record with.
    MarkMissing { block_index: BlockIndex },
    /// The block is there: the ledger's metrics.
    Metrics { block_index: BlockIndex, data: B },
    /// The timestamp of the block.
    Timestamp { poll: TimestampPoll, data: B },
    /// The controller, which processes the block.
    Processing { block_index: BlockIndex, data: B, timestamp: u64 },
    /// Nothing: the worker has stopped.
    Stopped,
}

/// The ingest worker drives the polling loop which checks if there are new
/// blocks in the ledger to be processed. `B` is the type of a block's data.
#[derive(Debug, PartialEq, Eq)]
pub struct IngestWorker<B> {
    /// How long the watcher may be behind before a warning is logged.
    pub watcher_timeout: Duration,
    /// The block that the last lookup missed.
    pub last_not_found: Option<LastNotFound>,
    pub phase: IngestPhase<B>,
}

impl<B> IngestWorker<B> {
    /// A worker whose block is missing again has that block on record, one
    /// that has found its block has none on record, and the timestamp poll
    /// runs with the worker's timeout.
    pub open spec fn well_formed(self) -> bool {
        match self.phase {
            IngestPhase::StillMissing { record } => self.last_not_found == Some(record),
            IngestPhase::Metrics { .. } | IngestPhase::Processing { .. } =>
                self.last_not_found is None,
            IngestPhase::Timestamp { poll, .. } => {
                &&& self.last_not_found is None
                &&& poll.watcher_timeout == self.watcher_timeout
            },
            _ => true,
        }
    }

    /// A worker that is about to poll for the first time.
    pub open spec fn initial(watcher_timeout: Duration) -> IngestWorker<B> {
        IngestWorker { watcher_timeout, last_not_found: None, phase: IngestPhase::NextBlock }
    }

    /// Makes a worker that is about to poll for the first time.
    pub fn new(watcher_timeout: Duration) -> (worker: IngestWorker<B>)
        ensures
            worker == Self::initial(watcher_timeout),
            worker.well_formed(),
    {
        IngestWorker { watcher_timeout, last_not_found: None, phase: IngestPhase::NextBlock }
    }

    pub open spec fn spec_request(&self) -> Request<&B> {
        match self.phase {
            IngestPhase::NextBlock => Request::NextBlockIndex,
            IngestPhase::StopFlag { .. } => Request::StopRequested,
            IngestPhase::Lookup { block_index } => Request::BlockData { block_index },
            IngestPhase::StillMissing { .. } | IngestPhase::MarkMissing { .. } => Request::Clock,
            IngestPhase::Metrics { .. } => Request::UpdateMetrics,
            IngestPhase::Timestamp { poll, .. } => poll.spec_request(),
            IngestPhase::Processing { block_index, data, timestamp } => Request::ProcessNextBlock {
                block_index,
                data: &data,
                timestamp,
            },
            IngestPhase::Stopped => Request::Exit,
        }
    }

    /// What the worker wants done.
    #[verifier::when_used_as_spec(spec_request)]
    pub fn request(&self) -> (request: Request<&B>)
        ensures
            request == self.spec_request(),
    {
        match &self.phase {
            IngestPhase::NextBlock => Request::NextBlockIndex,
            IngestPhase::StopFlag { .. } => Request::StopRequested,
            IngestPhase::Lookup { block_index } => Request::BlockData {
                block_index: *block_index,
            },
            IngestPhase::StillMissing { .. } | IngestPhase::MarkMissing { .. } => Request::Clock,
            IngestPhase::Metrics { .. } => Request::UpdateMetrics,
            IngestPhase::Timestamp { poll, .. } => poll.request(),
            IngestPhase::Processing { block_index, data, timestamp } => Request::ProcessNextBlock {
                block_index: *block_index,
                data,
                timestamp: *timestamp,
            },
            IngestPhase::Stopped => Request::Exit,
        }
    }

    /// Gets the timestamp of a block from the watcher, using retries if the
    /// watcher fell behind.
    pub fn get_watcher_timestamp(block_index: BlockIndex, watcher_timeout: Duration) -> (poll:
        TimestampPoll)
        ensures
            poll == (TimestampPoll {
                block_index,
                watcher_timeout,
                phase: TimestampPhase::StartTimer,
            }),
    {
        TimestampPoll { block_index, watcher_timeout, phase: TimestampPhase::StartTimer }
    }

    /// The worker in another phase.
    pub open spec fn at(self, phase: IngestPhase<B>) -> IngestWorker<B> {
        IngestWorker { phase, ..self }
    }

    /// What follows once it is known whether to stop: stopping comes first,
    /// and an idle server leaves the ledger alone.
    pub open spec fn after_stop_flag(
        self,
        block_index: BlockIndex,
        is_idle: bool,
        stop: bool,
    ) -> (IngestWorker<B>, Pause) {
        if stop {
            (
                self.at(IngestPhase::Stopped),
                Pause::logging(LogRecord::IngestStopped { block_index, is_idle }),
            )
        } else if is_idle {
            (self.at(IngestPhase::NextBlock), Pause::sleeping(polling_frequency()))
        } else {
            (self.at(IngestPhase::Lookup { block_index }), Pause::none())
        }
    }

    /// What follows from the ledger's answer.
    pub open spec fn after_lookup(self, block_index: BlockIndex, lookup: BlockLookup<B>) -> (
        IngestWorker<B>,
        Pause,
    ) {
        match lookup {
            BlockLookup::Found { data } => (
                IngestWorker {
                    last_not_found: None,
                    phase: IngestPhase::Metrics { block_index, data },
                    ..self
                },
                Pause::none(),
            ),
            BlockLookup::NotFound => match self.last_not_found {
                Some(record) if record.block_index == block_index => (
                    self.at(IngestPhase::StillMissing { record }),
                    Pause::none(),
                ),
                _ => (self.at(IngestPhase::MarkMissing { block_index }), Pause::none()),
            },
            BlockLookup::Failed { error } => (
                self.at(IngestPhase::NextBlock),
                Pause::logging_then_sleeping(
                    LogRecord::BlockDataError { block_index, error },
                    error_retry_frequency(),
                ),
            ),
        }
    }

    /// What follows from a clock reading while the block on record is missing.
    pub open spec fn after_missing_again(self, record: LastNotFound, now: Instant) -> (
        IngestWorker<B>,
        Pause,
    ) {
        let block_index = record.block_index;
        if record.overdue(&now) {
            (
                self.at(IngestPhase::MarkMissing { block_index }),
                Pause::logging(LogRecord::WaitedForBlock { block_index }),
            )
        } else {
            (self.at(IngestPhase::NextBlock), Pause::sleeping(polling_frequency()))
        }
    }

    /// What follows from a clock reading when a record is to be made.
    pub open spec fn after_marking(self, block_index: BlockIndex, now: Instant) -> (
        IngestWorker<B>,
        Pause,
    ) {
        (
            IngestWorker {
                last_not_found: Some(LastNotFound { block_index, time: now }),
                phase: IngestPhase::NextBlock,
                ..self
            },
            Pause::sleeping(polling_frequency()),
        )
    }

    /// What follows once the ledger's metrics were updated, or could not be.
    pub open spec fn after_metrics(
        self,
        block_index: BlockIndex,
        data: B,
        outcome: Result<(), String>,
    ) -> (IngestWorker<B>, Pause) {
        (
            self.at(
                IngestPhase::Timestamp {
                    poll: TimestampPoll {
                        block_index,
                        watcher_timeout: self.watcher_timeout,
                        phase: TimestampPhase::StartTimer,
                    },
                    data,
                },
            ),
            match outcome {
                Ok(()) => Pause::none(),
                Err(error) => Pause::logging(LogRecord::MetricsError { error }),
            },
        )
    }

    /// What follows from a step of the timestamp poll.
    pub open spec fn after_timestamp_step(
        self,
        block_index: BlockIndex,
        data: B,
        step: TimestampStep,
    ) -> (IngestWorker<B>, Pause) {
        match step {
            TimestampStep::Continue { poll, pause } => (
                self.at(IngestPhase::Timestamp { poll, data }),
                pause,
            ),
            TimestampStep::Finish { timestamp, log } => (
                self.at(IngestPhase::Processing { block_index, data, timestamp }),
                Pause { log, sleep: None },
            ),
        }
    }

    /// The worker after `reply`, and what to do before its next request;
    /// nothing if `reply` does not answer the request.
    pub open spec fn next(self, reply: Reply<B>) -> Option<(IngestWorker<B>, Pause)> {
        match (self.phase, reply) {
            (
                IngestPhase::NextBlock,
                Reply::NextBlockIndex { next_block_index, is_idle },
            ) => Some(
                (
                    self.at(IngestPhase::StopFlag { block_index: next_block_index, is_idle }),
                    Pause::none(),
                ),
            ),
            (
                IngestPhase::StopFlag { block_index, is_idle },
                Reply::StopRequested { stop },
            ) => Some(self.after_stop_flag(block_index, is_idle, stop)),
            (IngestPhase::Lookup { block_index }, Reply::BlockData { lookup }) => Some(
                self.after_lookup(block_index, lookup),
            ),
            (IngestPhase::StillMissing { record }, Reply::Clock { now }) => Some(
                self.after_missing_again(record, now),
            ),
            (IngestPhase::MarkMissing { block_index }, Reply::Clock { now }) => Some(
                self.after_marking(block_index, now),
            ),
            (IngestPhase::Metrics { block_index, data }, Reply::MetricsUpdated { outcome }) => Some(
                self.after_metrics(block_index, data, outcome),
            ),
            (IngestPhase::Timestamp { poll, data }, reply) => match poll.next(reply) {
                Some(step) => Some(self.after_timestamp_step(poll.block_index, data, step)),
                None => None,
            },
            (IngestPhase::Processing { .. }, Reply::BlockProcessed) => Some(
                (self.at(IngestPhase::NextBlock), Pause::none()),
            ),
            _ => None,
        }
    }

    fn on_stop_flag(&mut self, block_index: BlockIndex, is_idle: bool, stop: bool) -> (pause: Pause)
        ensures
            (*final(self), pause) == old(self).after_stop_flag(block_index, is_idle, stop),
    {
        if stop {
            self.phase = IngestPhase::Stopped;
            Pause { log: Some(LogRecord::IngestStopped { block_index, is_idle }), sleep: None }
        } else if is_idle {
            self.phase = IngestPhase::NextBlock;
            Pause {
                log: None,
                sleep: Some(Duration::from_millis(POLLING_FREQUENCY_MILLIS)),
            }
        } else {
            self.phase = IngestPhase::Lookup { block_index };
            Pause { log: None, sleep: None }
        }
    }

    fn on_lookup(&mut self, block_index: BlockIndex, lookup: BlockLookup<B>) -> (pause: Pause)
        ensures
            (*final(self), pause) == old(self).after_lookup(block_index, lookup),
    {
        match lookup {
            BlockLookup::Found { data } => {
                self.last_not_found = None;
                self.phase = IngestPhase::Metrics { block_index, data };
                Pause { log: None, sleep: None }
            },
            BlockLookup::NotFound => {
                match self.last_not_found {
                    Some(record) if record.block_index == block_index => {
                        self.phase = IngestPhase::StillMissing { record };
                    },
                    _ => {
                        self.phase = IngestPhase::MarkMissing { block_index };
                    },
                }
                Pause { log: None, sleep: None }
            },
            BlockLookup::Failed { error } => {
                self.phase = IngestPhase::NextBlock;
                Pause {
                    log: Some(LogRecord::BlockDataError { block_index, error }),
                    sleep: Some(Duration::from_millis(ERROR_RETRY_FREQUENCY_MILLIS)),
                }
            },
        }
    }

    fn on_missing_again(&mut self, record: LastNotFound, now: Instant) -> (pause: Pause)
        ensures
            (*final(self), pause) == old(self).after_missing_again(record, now),
    {
        let block_index = record.block_index;
        if record.overdue(&now) {
            self.phase = IngestPhase::MarkMissing { block_index };
            Pause { log: Some(LogRecord::WaitedForBlock { block_index }), sleep: None }
        } else {
            self.phase = IngestPhase::NextBlock;
            Pause {
                log: None,
                sleep: Some(Duration::from_millis(POLLING_FREQUENCY_MILLIS)),
            }
        }
    }

    fn on_marking(&mut self, block_index: BlockIndex, now: Instant) -> (pause: Pause)
        ensures
            (*final(self), pause) == old(self).after_marking(block_index, now),
    {
        self.last_not_found = Some(LastNotFound::new(block_index, now));
        self.phase = IngestPhase::NextBlock;
        Pause { log: None, sleep: Some(Duration::from_millis(POLLING_FREQUENCY_MILLIS)) }
    }

    fn on_metrics(
        &mut self,
        block_index: BlockIndex,
        data: B,
        outcome: Result<(), String>,
    ) -> (pause: Pause)
        ensures
            (*final(self), pause) == old(self).after_metrics(block_index, data, outcome),
    {
        let poll = Self::get_watcher_timestamp(block_index, self.watcher_timeout);
        self.phase = IngestPhase::Timestamp { poll, data };
        match outcome {
            Ok(()) => Pause { log: None, sleep: None },
            Err(error) => Pause { log: Some(LogRecord::MetricsError { error }), sleep: None },
        }
    }

    fn on_timestamp_step(
        &mut self,
        block_index: BlockIndex,
        data: B,
        step: TimestampStep,
    ) -> (pause: Pause)
        ensures
            (*final(self), pause) == old(self).after_timestamp_step(block_index, data, step),
    {
        match step {
            TimestampStep::Continue { poll, pause } => {
                self.phase = IngestPhase::Timestamp { poll, data };
                pause
            },
            TimestampStep::Finish { timestamp, log } => {
                self.phase = IngestPhase::Processing { block_index, data, timestamp };
                Pause { log, sleep: None }
            },
        }
    }

    /// Takes the reply to the worker's request and decides what comes next.
    pub fn resume(&mut self, reply: Reply<B>) -> (res: Result<Pause, UnexpectedReply>)
        ensures
            match old(self).next(reply) {
                Some((worker, pause)) => *final(self) == worker && res == Ok::<
                    Pause,
                    UnexpectedReply,
                >(pause),
                None => *final(self) == *old(self) && res == Err::<Pause, UnexpectedReply>(
                    UnexpectedReply,
                ),
            },
            res is Ok <==> old(self).request().answered_by(reply),
            old(self).well_formed() ==> final(self).well_formed(),
    {
        let mut phase = IngestPhase::Stopped;
        std::mem::swap(&mut phase, &mut self.phase);
        match (phase, reply) {
            (IngestPhase::NextBlock, Reply::NextBlockIndex { next_block_index, is_idle }) => {
                self.phase = IngestPhase::StopFlag { block_index: next_block_index, is_idle };
                Ok(Pause { log: None, sleep: None })
            },
            (IngestPhase::StopFlag { block_index, is_idle }, Reply::StopRequested { stop }) => {
                Ok(self.on_stop_flag(block_index, is_idle, stop))
            },
            (IngestPhase::Lookup { block_index }, Reply::BlockData { lookup }) => {
                Ok(self.on_lookup(block_index, lookup))
            },
            (IngestPhase::StillMissing { record }, Reply::Clock { now }) => {
                Ok(self.on_missing_again(record, now))
            },
            (IngestPhase::MarkMissing { block_index }, Reply::Clock { now }) => {
                Ok(self.on_marking(block_index, now))
            },
            (IngestPhase::Metrics { block_index, data }, Reply::MetricsUpdated { outcome }) => {
                Ok(self.on_metrics(block_index, data, outcome))
            },
            (IngestPhase::Timestamp { poll, data }, reply) => match poll.resume(reply) {
                Ok(step) => Ok(self.on_timestamp_step(poll.block_index, data, step)),
                Err(unexpected) => {
                    self.phase = IngestPhase::Timestamp { poll, data };
                    Err(unexpected)
                },
            },
            (IngestPhase::Processing { .. }, Reply::BlockProcessed) => {
                self.phase = IngestPhase::NextBlock;
                Ok(Pause { log: None, sleep: None })
            },
            (phase, _) => {
                self.phase = phase;
                Err(UnexpectedReply)
            },
        }
    }
}

} // verus!
