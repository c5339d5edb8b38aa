//! Taking a worker's thread down.

use vstd::prelude::*;

verus! {

/// How far the owner of a worker's thread has come in taking it down.
#[derive(Debug)]
pub enum ThreadHandle<T> {
    /// The thread runs, and nobody asked it to stop.
    Running { thread: T },
    /// The thread was asked to stop.
    Stopping { thread: T },
    /// There is no thread to wait for.
    Joined,
}

/// What the owner of the thread does next.
#[derive(Debug)]
pub enum ShutdownAction<T> {
    /// Set the flag that asks the thread to stop.
    RequestStop,
    /// Wait for the thread to end.
    Join { thread: T },
    /// Nothing is left to do.
    Finished,
}

impl<T> ThreadHandle<T> {
    /// The handle of a thread that was just started.
    pub fn new(thread: T) -> (handle: ThreadHandle<T>)
        ensures
            handle == (ThreadHandle::Running { thread }),
    {
        ThreadHandle::Running { thread }
    }

    /// The handle after its next action, and that action.
    pub open spec fn next(self) -> (ThreadHandle<T>, ShutdownAction<T>) {
        match self {
            ThreadHandle::Running { thread } => (
                ThreadHandle::Stopping { thread },
                ShutdownAction::RequestStop,
            ),
            ThreadHandle::Stopping { thread } => (
                ThreadHandle::Joined,
                ShutdownAction::Join { thread },
            ),
            ThreadHandle::Joined => (ThreadHandle::Joined, ShutdownAction::Finished),
        }
    }

    /// Takes the next step of the shutdown: the stop flag is set before the
    /// thread is waited for, and the thread is waited for once.
    pub fn shutdown(self) -> (res: (ThreadHandle<T>, ShutdownAction<T>))
        ensures
            res == self.next(),
    {
        match self {
            ThreadHandle::Running { thread } => (
                ThreadHandle::Stopping { thread },
                ShutdownAction::RequestStop,
            ),
            ThreadHandle::Stopping { thread } => (
                ThreadHandle::Joined,
                ShutdownAction::Join { thread },
            ),
            ThreadHandle::Joined => (ThreadHandle::Joined, ShutdownAction::Finished),
        }
    }
}

/// Taking a running thread down sets the stop flag, then joins that thread,
/// and does nothing from there on, however often it is repeated.
pub proof fn law_shutdown<T>(thread: T)
    ensures
        ({
            let running = ThreadHandle::Running { thread };
            let (stopping, first) = running.next();
            let (joined, second) = stopping.next();
            &&& first == ShutdownAction::<T>::RequestStop
            &&& second == (ShutdownAction::Join { thread })
            &&& joined.next() == (joined, ShutdownAction::<T>::Finished)
        }),
{
}

} // verus!
