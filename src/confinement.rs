use vstd::prelude::*;

use crate::errors::{Error, Result};

verus! {

// ---------------------------------------------------------------------------
// The worker: the one thread that owns a stream.
//
// The driver of a worker waits for what the last action asks (the outcome of
// opening the stream, the next borrowing operation, or a look at the slot for
// consuming operations), hands what it saw to `Worker::step` as an event, and
// performs the action it gets back. Borrowing operations (`B`) receive the
// stream by mutable reference, a consuming operation (`C`) receives it by value.
// ---------------------------------------------------------------------------

/// Where a worker stands.
#[derive(Clone, Copy, Debug, PartialEq, Eq, Structural)]
pub enum WorkerPhase {
    /// The stream is being opened.
    Starting,
    /// The worker owns the stream and waits for the next borrowing operation.
    Awaiting,
    /// A borrowing operation has just run; the consuming slot is looked at.
    Polling,
    /// Every handle is gone; the consuming slot is looked at one last time.
    Closing,
    /// The worker no longer has a stream: it was consumed, cancelled, or never opened.
    Stopped,
}

/// What the driver of a worker saw.
pub enum WorkerEvent<B, C> {
    /// The stream was opened.
    StreamOpened,
    /// Opening the stream failed.
    StreamFailed(Error),
    /// A borrowing operation arrived.
    Borrowing(B),
    /// The channel of borrowing operations is closed and empty.
    BorrowingClosed,
    /// The consuming slot held an operation.
    Consuming(C),
    /// The consuming slot was empty.
    NoConsuming,
}

/// What the driver of a worker is to do next.
pub enum WorkerAction<B, C> {
    /// Tell the caller the stream is open, then wait for a borrowing operation.
    ReportReady,
    /// Tell the caller why the stream could not be opened, then stop.
    ReportFailure(Error),
    /// Run this operation on the stream, then look at the consuming slot.
    RunBorrowing(B),
    /// Wait for the next borrowing operation.
    AwaitBorrowing,
    /// Look at the consuming slot.
    PollConsuming,
    /// Hand the stream to this operation, then stop.
    RunConsuming(C),
    /// Drop the stream without a result, then stop.
    Cancel,
    /// Stop: the worker has no stream any more.
    Halt,
}

/// What a worker in phase `p` waits for; the action repeated when an event
/// comes that the phase does not expect.
pub open spec fn pending_wait<B, C>(p: WorkerPhase) -> WorkerAction<B, C> {
    match p {
        WorkerPhase::Awaiting => WorkerAction::AwaitBorrowing,
        WorkerPhase::Polling => WorkerAction::PollConsuming,
        WorkerPhase::Closing => WorkerAction::PollConsuming,
        _ => WorkerAction::Halt,
    }
}

/// The phase of a worker in phase `p` after event `e`.
pub open spec fn worker_next<B, C>(p: WorkerPhase, e: WorkerEvent<B, C>) -> WorkerPhase {
    match (p, e) {
        (WorkerPhase::Starting, WorkerEvent::StreamOpened) => WorkerPhase::Awaiting,
        (WorkerPhase::Starting, WorkerEvent::StreamFailed(_)) => WorkerPhase::Stopped,
        (WorkerPhase::Starting, _) => WorkerPhase::Starting,
        (WorkerPhase::Awaiting, WorkerEvent::Borrowing(_)) => WorkerPhase::Polling,
        (WorkerPhase::Awaiting, WorkerEvent::BorrowingClosed) => WorkerPhase::Closing,
        (WorkerPhase::Polling, WorkerEvent::Consuming(_)) => WorkerPhase::Stopped,
        (WorkerPhase::Polling, WorkerEvent::NoConsuming) => WorkerPhase::Awaiting,
        (WorkerPhase::Closing, WorkerEvent::Consuming(_)) => WorkerPhase::Stopped,
        (WorkerPhase::Closing, WorkerEvent::NoConsuming) => WorkerPhase::Stopped,
        (q, _) => q,
    }
}

/// The action of a worker in phase `p` on event `e`.
pub open spec fn worker_action<B, C>(p: WorkerPhase, e: WorkerEvent<B, C>) -> WorkerAction<B, C> {
    match (p, e) {
        (WorkerPhase::Starting, WorkerEvent::StreamOpened) => WorkerAction::ReportReady,
        (WorkerPhase::Starting, WorkerEvent::StreamFailed(err)) => WorkerAction::ReportFailure(err),
        (WorkerPhase::Awaiting, WorkerEvent::Borrowing(b)) => WorkerAction::RunBorrowing(b),
        (WorkerPhase::Awaiting, WorkerEvent::BorrowingClosed) => WorkerAction::PollConsuming,
        (WorkerPhase::Polling, WorkerEvent::Consuming(c)) => WorkerAction::RunConsuming(c),
        (WorkerPhase::Polling, WorkerEvent::NoConsuming) => WorkerAction::AwaitBorrowing,
        (WorkerPhase::Closing, WorkerEvent::Consuming(c)) => WorkerAction::RunConsuming(c),
        (WorkerPhase::Closing, WorkerEvent::NoConsuming) => WorkerAction::Cancel,
        (q, _) => pending_wait(q),
    }
}

/// Whether a worker in phase `p` holds the stream.
pub open spec fn holds_stream(p: WorkerPhase) -> bool {
    p == WorkerPhase::Awaiting || p == WorkerPhase::Polling || p == WorkerPhase::Closing
}

/// Whether an action touches the stream.
pub open spec fn touches_stream<B, C>(a: WorkerAction<B, C>) -> bool {
    a is RunBorrowing || a is RunConsuming || a is Cancel
}

/// Whether an action gives the stream up: it is consumed or dropped.
pub open spec fn gives_up_stream<B, C>(a: WorkerAction<B, C>) -> bool {
    a is RunConsuming || a is Cancel
}

/// The phase after the events `es`, from phase `p`.
pub open spec fn worker_run<B, C>(p: WorkerPhase, es: Seq<WorkerEvent<B, C>>) -> WorkerPhase
    decreases es.len(),
{
    if es.len() == 0 {
        p
    } else {
        worker_run(worker_next(p, es[0]), es.drop_first())
    }
}

/// How many of the actions taken on the events `es`, from phase `p`, give the stream up.
pub open spec fn give_ups<B, C>(p: WorkerPhase, es: Seq<WorkerEvent<B, C>>) -> nat
    decreases es.len(),
{
    if es.len() == 0 {
        0
    } else {
        (if gives_up_stream(worker_action(p, es[0])) {
            1nat
        } else {
            0nat
        }) + give_ups(worker_next(p, es[0]), es.drop_first())
    }
}

/// Whether some action taken on the events `es`, from phase `p`, touches the stream.
pub open spec fn touches_in<B, C>(p: WorkerPhase, es: Seq<WorkerEvent<B, C>>) -> bool
    decreases es.len(),
{
    if es.len() == 0 {
        false
    } else {
        touches_stream(worker_action(p, es[0])) || touches_in(worker_next(p, es[0]), es.drop_first())
    }
}

/// A worker acts on the stream only while it holds it, and gives it up
/// exactly when it stops holding it.
pub proof fn worker_step_respects_ownership<B, C>(p: WorkerPhase, e: WorkerEvent<B, C>)
    ensures
        touches_stream(worker_action(p, e)) ==> holds_stream(p),
        gives_up_stream(worker_action(p, e)) <==> (holds_stream(p) && !holds_stream(
            worker_next(p, e),
        ) && p != WorkerPhase::Starting),
        worker_next(p, e) == WorkerPhase::Starting ==> p == WorkerPhase::Starting,
{
}

/// Once a worker has stopped, nothing it is told makes it touch the stream again.
pub proof fn stopped_worker_is_inert<B, C>(es: Seq<WorkerEvent<B, C>>)
    ensures
        !touches_in(WorkerPhase::Stopped, es),
        give_ups(WorkerPhase::Stopped, es) == 0,
        worker_run(WorkerPhase::Stopped, es) == WorkerPhase::Stopped,
    decreases es.len(),
{
    if es.len() > 0 {
        stopped_worker_is_inert(es.drop_first());
    }
}

/// Whatever events a worker sees, it gives its stream up at most once, and
/// after that it is stopped for good.
pub proof fn stream_given_up_at_most_once<B, C>(p: WorkerPhase, es: Seq<WorkerEvent<B, C>>)
    ensures
        give_ups(p, es) <= 1,
        give_ups(p, es) == 1 ==> worker_run(p, es) == WorkerPhase::Stopped,
        !holds_stream(p) && p != WorkerPhase::Starting ==> give_ups(p, es) == 0,
    decreases es.len(),
{
    if es.len() > 0 {
        let q = worker_next(p, es[0]);
        worker_step_respects_ownership(p, es[0]);
        stream_given_up_at_most_once(q, es.drop_first());
        if q == WorkerPhase::Stopped {
            stopped_worker_is_inert(es.drop_first());
        }
    }
}

/// The decisions of the worker that owns a stream.
pub struct Worker {
    phase: WorkerPhase,
}

impl Worker {
    /// A worker whose stream is being opened.
    pub fn new() -> (r: Worker)
        ensures
            r.phase() == WorkerPhase::Starting,
    {
        Worker { phase: WorkerPhase::Starting }
    }

    /// Where the worker stands.
    pub closed spec fn phase(&self) -> WorkerPhase {
        self.phase
    }

    /// Where the worker stands.
    pub fn current_phase(&self) -> (r: WorkerPhase)
        ensures
            r == self.phase(),
    {
        self.phase
    }

    /// Takes in what the driver saw and says what to do next.
    pub fn step<B, C>(&mut self, e: WorkerEvent<B, C>) -> (r: WorkerAction<B, C>)
        ensures
            r == worker_action(old(self).phase(), e),
            final(self).phase() == worker_next(old(self).phase(), e),
    {
        let p = self.phase;
        match p {
            WorkerPhase::Starting => match e {
                WorkerEvent::StreamOpened => {
                    self.phase = WorkerPhase::Awaiting;
                    WorkerAction::ReportReady
                },
                WorkerEvent::StreamFailed(err) => {
                    self.phase = WorkerPhase::Stopped;
                    WorkerAction::ReportFailure(err)
                },
                _ => WorkerAction::Halt,
            },
            WorkerPhase::Awaiting => match e {
                WorkerEvent::Borrowing(b) => {
                    self.phase = WorkerPhase::Polling;
                    WorkerAction::RunBorrowing(b)
                },
                WorkerEvent::BorrowingClosed => {
                    self.phase = WorkerPhase::Closing;
                    WorkerAction::PollConsuming
                },
                _ => WorkerAction::AwaitBorrowing,
            },
            WorkerPhase::Polling => match e {
                WorkerEvent::Consuming(c) => {
                    self.phase = WorkerPhase::Stopped;
                    WorkerAction::RunConsuming(c)
                },
                WorkerEvent::NoConsuming => {
                    self.phase = WorkerPhase::Awaiting;
                    WorkerAction::AwaitBorrowing
                },
                _ => WorkerAction::PollConsuming,
            },
            WorkerPhase::Closing => match e {
                WorkerEvent::Consuming(c) => {
                    self.phase = WorkerPhase::Stopped;
                    WorkerAction::RunConsuming(c)
                },
                WorkerEvent::NoConsuming => {
                    self.phase = WorkerPhase::Stopped;
                    WorkerAction::Cancel
                },
                _ => WorkerAction::PollConsuming,
            },
            WorkerPhase::Stopped => WorkerAction::Halt,
        }
    }
}

// ---------------------------------------------------------------------------
// The caller's side: the handle through which other threads reach the worker.
//
// A borrowing call is `begin_borrowing`, then sending the operation and
// waiting for its reply, then `end_borrowing` with the reply (`None` when the
// worker could not be reached or did not answer). A consuming call is the same
// with `begin_consuming` and `end_consuming`.
// ---------------------------------------------------------------------------

/// Where the caller's handle to a worker stands.
#[derive(Clone, Copy, Debug, PartialEq, Eq, Structural)]
pub enum ClientPhase {
    /// The worker serves borrowing and consuming operations.
    Ready,
    /// A consuming operation has been sent; nothing more will be served.
    Finishing,
    /// The worker has finished the stream, or is gone.
    Closed,
}

/// The steps of a caller, for stating what any sequence of them does.
#[derive(Clone, Copy, Debug, PartialEq, Eq, Structural)]
pub enum ClientOp {
    /// A borrowing call is about to be sent.
    BeginBorrowing,
    /// A borrowing call ended; `true` when the worker answered.
    EndBorrowing(bool),
    /// A consuming call is about to be sent.
    BeginConsuming,
    /// A consuming call ended.
    EndConsuming,
}

/// Whether a handle in phase `p` may send a borrowing operation.
pub open spec fn borrowing_allowed(p: ClientPhase) -> bool {
    p == ClientPhase::Ready
}

/// The phase of a handle in phase `p` after step `op`.
pub open spec fn client_next(p: ClientPhase, op: ClientOp) -> ClientPhase {
    match op {
        ClientOp::BeginBorrowing => p,
        ClientOp::EndBorrowing(answered) => if answered {
            p
        } else {
            ClientPhase::Closed
        },
        ClientOp::BeginConsuming => if p == ClientPhase::Ready {
            ClientPhase::Finishing
        } else {
            p
        },
        ClientOp::EndConsuming => ClientPhase::Closed,
    }
}

/// The phase of a handle after the steps `ops`, from phase `p`.
pub open spec fn client_run(p: ClientPhase, ops: Seq<ClientOp>) -> ClientPhase
    decreases ops.len(),
{
    if ops.len() == 0 {
        p
    } else {
        client_run(client_next(p, ops[0]), ops.drop_first())
    }
}

/// Once a consuming call has been sent or the worker is gone, no sequence of
/// steps lets a borrowing operation through again: every later borrowing call
/// fails at once with [`Error::WorkerUnavailable`], without waiting.
pub proof fn no_borrowing_after_consuming(p: ClientPhase, ops: Seq<ClientOp>)
    requires
        p != ClientPhase::Ready,
    ensures
        !borrowing_allowed(client_run(p, ops)),
    decreases ops.len(),
{
    if ops.len() > 0 {
        no_borrowing_after_consuming(client_next(p, ops[0]), ops.drop_first());
    }
}

/// The caller's handle to a worker.
pub struct Client {
    phase: ClientPhase,
}

impl Client {
    /// Where the handle stands.
    pub closed spec fn phase(&self) -> ClientPhase {
        self.phase
    }

    /// Where the handle stands.
    pub fn current_phase(&self) -> (r: ClientPhase)
        ensures
            r == self.phase(),
    {
        self.phase
    }

    /// A handle from the worker's report on opening the stream: `None` when
    /// the worker ended without a report.
    pub fn open(report: Option<Result<()>>) -> (r: Result<Client>)
        ensures
            r is Ok <==> report matches Some(Ok(_)),
            r matches Ok(c) ==> c.phase() == ClientPhase::Ready,
            report matches Some(Err(e)) ==> r matches Err(f) && f == e,
            report is None ==> (r matches Err(e) && e is WorkerUnavailable),
    {
        match report {
            Some(Ok(())) => Ok(Client { phase: ClientPhase::Ready }),
            Some(Err(e)) => Err(e),
            None => Err(Error::WorkerUnavailable),
        }
    }

    /// Whether a borrowing operation may be sent now.
    pub fn begin_borrowing(&self) -> (r: Result<()>)
        ensures
            r is Ok <==> borrowing_allowed(self.phase()),
            r matches Err(e) ==> e is WorkerUnavailable,
            client_next(self.phase(), ClientOp::BeginBorrowing) == self.phase(),
    {
        match self.phase {
            ClientPhase::Ready => Ok(()),
            _ => Err(Error::WorkerUnavailable),
        }
    }

    /// The result of a borrowing call from the worker's reply.
    pub fn end_borrowing<T>(&mut self, reply: Option<T>) -> (r: Result<T>)
        ensures
            reply matches Some(t) ==> r == Ok::<T, Error>(t),
            reply is None ==> (r matches Err(e) && e is WorkerUnavailable),
            final(self).phase() == client_next(old(self).phase(), ClientOp::EndBorrowing(reply is Some)),
    {
        match reply {
            Some(t) => Ok(t),
            None => {
                self.phase = ClientPhase::Closed;
                Err(Error::WorkerUnavailable)
            },
        }
    }

    /// Whether the consuming operation may be sent now; no borrowing
    /// operation is let through afterwards.
    pub fn begin_consuming(&mut self) -> (r: Result<()>)
        ensures
            r is Ok <==> old(self).phase() == ClientPhase::Ready,
            r matches Err(e) ==> e is WorkerUnavailable,
            final(self).phase() == client_next(old(self).phase(), ClientOp::BeginConsuming),
    {
        match self.phase {
            ClientPhase::Ready => {
                self.phase = ClientPhase::Finishing;
                Ok(())
            },
            _ => Err(Error::WorkerUnavailable),
        }
    }

    /// The result of the consuming call from the worker's reply; the handle
    /// is closed afterwards.
    pub fn end_consuming<T>(&mut self, reply: Option<Result<T>>) -> (r: Result<T>)
        ensures
            reply matches Some(res) ==> r == res,
            reply is None ==> (r matches Err(e) && e is WorkerUnavailable),
            final(self).phase() == client_next(old(self).phase(), ClientOp::EndConsuming),
    {
        self.phase = ClientPhase::Closed;
        match reply {
            Some(res) => res,
            None => Err(Error::WorkerUnavailable),
        }
    }
}

} // verus!
