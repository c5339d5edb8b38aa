//! The peer checkup worker.

use crate::log::LogRecord;
use crate::protocol::{is_quiet, only_logs, only_sleeps, Pause, UnexpectedReply};
use crate::time::Duration;
use vstd::prelude::*;

verus! {

/// What the peer checkup worker wants done.
#[derive(Clone, Copy, Debug, PartialEq, Eq, Structural)]
pub enum CheckupRequest {
    /// Look whether the worker was asked to stop.
    StopRequested,
    /// Have the controller check up on its peers.
    PeerCheckup,
    /// End the thread.
    Exit,
}

/// What came of a request.
#[derive(Clone, Copy, Debug, PartialEq, Eq, Structural)]
pub enum CheckupReply {
    StopRequested { stop: bool },
    PeersChecked,
}

impl CheckupRequest {
    /// Whether `reply` is of the kind that this request calls for.
    pub open spec fn answered_by(self, reply: CheckupReply) -> bool {
        match self {
            CheckupRequest::StopRequested => reply is StopRequested,
            CheckupRequest::PeerCheckup => reply is PeersChecked,
            CheckupRequest::Exit => false,
        }
    }
}

/// What the peer checkup worker waits for.
#[derive(Clone, Copy, Debug, PartialEq, Eq, Structural)]
pub enum PeerCheckupPhase {
    /// Whether to stop.
    StopFlag,
    /// The controller, which checks up on its peers.
    Checkup,
    /// Nothing: the worker has stopped.
    Stopped,
}

/// The peer checkup worker periodically checks up on our peers, if we are
/// active, and makes sure they are functioning as backups. It is separate
/// from the ingest worker so that it can be on a time-based schedule, and
/// happens even if there are few blocks.
#[derive(Clone, Copy, Debug, PartialEq, Eq, Structural)]
pub struct PeerCheckupWorker {
    /// How long to sleep after a checkup.
    pub peer_checkup_period: Duration,
    pub phase: PeerCheckupPhase,
}

impl PeerCheckupWorker {
    /// A worker that is about to make its first checkup.
    pub fn new(peer_checkup_period: Duration) -> (worker: PeerCheckupWorker)
        ensures
            worker == (PeerCheckupWorker {
                peer_checkup_period,
                phase: PeerCheckupPhase::StopFlag,
            }),
    {
        PeerCheckupWorker { peer_checkup_period, phase: PeerCheckupPhase::StopFlag }
    }

    pub open spec fn spec_request(&self) -> CheckupRequest {
        match self.phase {
            PeerCheckupPhase::StopFlag => CheckupRequest::StopRequested,
            PeerCheckupPhase::Checkup => CheckupRequest::PeerCheckup,
            PeerCheckupPhase::Stopped => CheckupRequest::Exit,
        }
    }

    /// What the worker wants done.
    #[verifier::when_used_as_spec(spec_request)]
    pub fn request(&self) -> (request: CheckupRequest)
        ensures
            request == self.spec_request(),
    {
        match self.phase {
            PeerCheckupPhase::StopFlag => CheckupRequest::StopRequested,
            PeerCheckupPhase::Checkup => CheckupRequest::PeerCheckup,
            PeerCheckupPhase::Stopped => CheckupRequest::Exit,
        }
    }

    /// The worker in another phase.
    pub open spec fn at(self, phase: PeerCheckupPhase) -> PeerCheckupWorker {
        PeerCheckupWorker { phase, ..self }
    }

    /// The worker after `reply`, and what to do before its next request;
    /// nothing if `reply` does not answer the request.
    pub open spec fn next(self, reply: CheckupReply) -> Option<(PeerCheckupWorker, Pause)> {
        match (self.phase, reply) {
            (PeerCheckupPhase::StopFlag, CheckupReply::StopRequested { stop }) => Some(
                if stop {
                    (
                        self.at(PeerCheckupPhase::Stopped),
                        Pause::logging(LogRecord::PeerCheckupStopped),
                    )
                } else {
                    (self.at(PeerCheckupPhase::Checkup), Pause::none())
                },
            ),
            (PeerCheckupPhase::Checkup, CheckupReply::PeersChecked) => Some(
                (
                    self.at(PeerCheckupPhase::StopFlag),
                    Pause::sleeping(self.peer_checkup_period),
                ),
            ),
            _ => None,
        }
    }

    /// Takes the reply to the worker's request and decides what comes next.
    pub fn resume(&mut self, reply: CheckupReply) -> (res: Result<Pause, UnexpectedReply>)
        ensures
            match old(self).next(reply) {
                Some((worker, pause)) => *final(self) == worker && res == Ok::<
                    Pause,
                    UnexpectedReply,
                >(pause),
                None => *final(self) == *old(self) && res == Err::<Pause, UnexpectedReply>(
                    UnexpectedReply,
                ),
            },
            res is Ok <==> old(self).request().answered_by(reply),
    {
        match (self.phase, reply) {
            (PeerCheckupPhase::StopFlag, CheckupReply::StopRequested { stop }) => {
                if stop {
                    self.phase = PeerCheckupPhase::Stopped;
                    Ok(Pause { log: Some(LogRecord::PeerCheckupStopped), sleep: None })
                } else {
                    self.phase = PeerCheckupPhase::Checkup;
                    Ok(Pause { log: None, sleep: None })
                }
            },
            (PeerCheckupPhase::Checkup, CheckupReply::PeersChecked) => {
                self.phase = PeerCheckupPhase::StopFlag;
                Ok(Pause { log: None, sleep: Some(self.peer_checkup_period) })
            },
            _ => Err(UnexpectedReply),
        }
    }
}

/// Whether `workers` are the states that a worker goes through from its start
/// while it takes `replies`, one after the other.
pub open spec fn is_checkup_run(
    peer_checkup_period: Duration,
    workers: Seq<PeerCheckupWorker>,
    replies: Seq<CheckupReply>,
) -> bool {
    &&& workers.len() == replies.len() + 1
    &&& workers[0] == PeerCheckupWorker { peer_checkup_period, phase: PeerCheckupPhase::StopFlag }
    &&& forall|i: int|
        0 <= i < replies.len() ==> {
            &&& (#[trigger] workers[i].next(replies[i])) is Some
            &&& workers[i].next(replies[i]).unwrap().0 == workers[i + 1]
        }
}

proof fn lemma_checkup_period(
    peer_checkup_period: Duration,
    workers: Seq<PeerCheckupWorker>,
    replies: Seq<CheckupReply>,
    i: int,
)
    requires
        is_checkup_run(peer_checkup_period, workers, replies),
        0 <= i <= replies.len(),
    ensures
        workers[i].peer_checkup_period == peer_checkup_period,
    decreases i,
{
    if i > 0 {
        lemma_checkup_period(peer_checkup_period, workers, replies, i - 1);
        assert(workers[i - 1].next(replies[i - 1]) is Some);
    }
}

/// Any reply of the kind that the worker asked for is taken, and no other: a
/// worker that has not exited goes on.
pub proof fn law_checkup_worker_is_never_stuck(worker: PeerCheckupWorker, reply: CheckupReply)
    ensures
        worker.next(reply) is Some <==> {
            ||| worker.request() is StopRequested && reply is StopRequested
            ||| worker.request() is PeerCheckup && reply is PeersChecked
        },
{
}

/// In every run, the worker starts with a look at the stop flag. Where the flag
/// reads clear, it has the peers checked at once; where the flag is set, it
/// logs that it stops and exits. Once the peers were checked, it sleeps for one
/// period, no more and no less, and looks at the flag again.
pub proof fn law_checkup_schedule(
    peer_checkup_period: Duration,
    workers: Seq<PeerCheckupWorker>,
    replies: Seq<CheckupReply>,
    i: int,
)
    requires
        is_checkup_run(peer_checkup_period, workers, replies),
        0 <= i < replies.len(),
    ensures
        workers[0].request() is StopRequested,
        ({
            let pause = workers[i].next(replies[i]).unwrap().1;
            match replies[i] {
                CheckupReply::StopRequested { stop: false } => {
                    is_quiet(pause) && workers[i + 1].request() is PeerCheckup
                },
                CheckupReply::StopRequested { stop: true } => {
                    only_logs(pause, LogRecord::PeerCheckupStopped) && workers[i + 1].request()
                        is Exit
                },
                CheckupReply::PeersChecked => {
                    only_sleeps(pause, peer_checkup_period@) && workers[i + 1].request()
                        is StopRequested
                },
            }
        }),
{
    lemma_checkup_period(peer_checkup_period, workers, replies, i);
    assert(workers[i].next(replies[i]) is Some);
}

/// In every run, each checkup is made right after the stop flag was seen
/// clear, and is followed by a sleep of one period and a new look at the flag.
pub proof fn law_checkups_are_periodic(
    peer_checkup_period: Duration,
    workers: Seq<PeerCheckupWorker>,
    replies: Seq<CheckupReply>,
    i: int,
)
    requires
        is_checkup_run(peer_checkup_period, workers, replies),
        0 <= i <= replies.len(),
        workers[i].request() == CheckupRequest::PeerCheckup,
    ensures
        i > 0,
        workers[i - 1].request() == CheckupRequest::StopRequested,
        replies[i - 1] == (CheckupReply::StopRequested { stop: false }),
        i < replies.len() ==> {
            &&& workers[i].next(replies[i]).unwrap().1 == Pause::sleeping(peer_checkup_period)
            &&& workers[i + 1].request() == CheckupRequest::StopRequested
        },
{
    lemma_checkup_period(peer_checkup_period, workers, replies, i);
    assert(workers[i - 1].next(replies[i - 1]) is Some);
    if i < replies.len() {
        assert(workers[i].next(replies[i]) is Some);
    }
}

/// In every run, the worker exits when it sees the stop flag set, then and
/// only then, and takes no reply after that.
pub proof fn law_checkup_stops_on_request(
    peer_checkup_period: Duration,
    workers: Seq<PeerCheckupWorker>,
    replies: Seq<CheckupReply>,
    i: int,
)
    requires
        is_checkup_run(peer_checkup_period, workers, replies),
        0 <= i < replies.len(),
    ensures
        workers[i].request() != CheckupRequest::Exit,
        workers[i + 1].request() == CheckupRequest::Exit <==> replies[i] == (CheckupReply::StopRequested {
            stop: true,
        }),
        workers[i + 1].request() == CheckupRequest::Exit ==> workers[i].next(replies[i]).unwrap().1
            == Pause::logging(LogRecord::PeerCheckupStopped),
{
    assert(workers[i].next(replies[i]) is Some);
}

} // verus!
