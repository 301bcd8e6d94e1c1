//! The handle to one planning run that executes on a worker.
//!
//! The worker owns a `Reporter` and the caller a `PlannerFuture`; a one-shot
//! channel joins them. The caller polls without blocking. What the handle
//! reports is a function of what it has reported before and of what the
//! channel shows at the moment of the poll: that function is `step`, and the
//! handle's methods are stated over it.

use crate::error::PlanError;
use crate::geometry::Point;
use crate::outcome::PlannerResult;
use std::sync::mpsc::{Receiver, Sender};
use vstd::prelude::*;

verus! {

/// `std::sync::mpsc::Receiver`, the receiving end of a channel, carried as
/// an opaque value.
#[verifier::external_type_specification]
#[verifier::external_body]
#[verifier::reject_recursive_types(T)]
pub struct ExReceiver<T>(Receiver<T>);

/// `std::sync::mpsc::Sender`, the sending end of a channel, carried as an
/// opaque value.
#[verifier::external_type_specification]
#[verifier::external_body]
#[verifier::reject_recursive_types(T)]
pub struct ExSender<T>(Sender<T>);

/// What one look at the channel found.
pub enum ChannelEvent {
    /// The worker's result.
    Message(PlannerResult),
    /// Nothing yet, and the worker still holds its end.
    Empty,
    /// Nothing, and the worker's end is gone.
    Disconnected,
}

/// A channel event with the result taken by its view.
pub enum Signal {
    Message(Option<Seq<Point>>),
    Empty,
    Disconnected,
}

impl View for ChannelEvent {
    type V = Signal;

    open spec fn view(&self) -> Signal {
        match *self {
            ChannelEvent::Message(r) => Signal::Message(r@),
            ChannelEvent::Empty => Signal::Empty,
            ChannelEvent::Disconnected => Signal::Disconnected,
        }
    }
}

/// How far a run has come, as its handle knows it.
pub enum Progress {
    /// No result has arrived yet.
    Pending,
    /// The result arrived: a path, or `None` for an exhausted search.
    Completed(Option<Seq<Point>>),
    /// The worker ended without a result.
    Lost,
}

/// The handle's knowledge after one look at the channel. Only a pending
/// handle learns anything; a completed or lost one stays as it is.
pub open spec fn step(progress: Progress, signal: Signal) -> Progress {
    match progress {
        Progress::Pending => match signal {
            Signal::Message(r) => Progress::Completed(r),
            Signal::Empty => Progress::Pending,
            Signal::Disconnected => Progress::Lost,
        },
        _ => progress,
    }
}

/// The handle's knowledge after a series of looks, oldest first.
pub open spec fn run(progress: Progress, signals: Seq<Signal>) -> Progress
    decreases signals.len(),
{
    if signals.len() == 0 {
        progress
    } else {
        step(run(progress, signals.drop_last()), signals.last())
    }
}

/// Whether `polled` is what a poll hands out at `progress`: nothing while
/// pending, the result once completed, an error once the worker is lost.
pub open spec fn reports(progress: Progress, polled: Result<Option<PlannerResult>, PlanError>) -> bool {
    match progress {
        Progress::Pending => polled matches Ok(None),
        Progress::Completed(r) => polled matches Ok(Some(result)) && result@ == r,
        Progress::Lost => polled matches Err(e) && e == PlanError::WorkerLost,
    }
}

/// Calls `std::sync::mpsc::channel`, which makes the two ends of a new
/// channel. Nothing is claimed of them.
#[verifier::external_body]
fn open_channel() -> (ends: (Sender<PlannerResult>, Receiver<PlannerResult>)) {
    std::sync::mpsc::channel()
}

/// Calls `std::sync::mpsc::Sender::send` and tells whether it returned `Ok`.
/// Nothing is claimed of the answer: it depends on whether the receiving end
/// still exists.
#[verifier::external_body]
fn send_result(tx: &Sender<PlannerResult>, result: PlannerResult) -> (delivered: bool) {
    tx.send(result).is_ok()
}

/// Calls `std::sync::mpsc::Receiver::try_recv`, which never blocks. Nothing
/// is claimed of the event: it depends on how far the sender has come.
#[verifier::external_body]
fn try_receive(rx: &Receiver<PlannerResult>) -> (event: ChannelEvent) {
    match rx.try_recv() {
        Ok(result) => ChannelEvent::Message(result),
        Err(std::sync::mpsc::TryRecvError::Empty) => ChannelEvent::Empty,
        Err(std::sync::mpsc::TryRecvError::Disconnected) => ChannelEvent::Disconnected,
    }
}

/// Calls `std::sync::mpsc::Receiver::recv`, which blocks until a message
/// arrives or the sending end is gone, so it never reports an empty channel.
#[verifier::external_body]
fn receive(rx: &Receiver<PlannerResult>) -> (event: ChannelEvent)
    ensures
        !(event is Empty),
{
    match rx.recv() {
        Ok(result) => ChannelEvent::Message(result),
        Err(_) => ChannelEvent::Disconnected,
    }
}

/// The worker's end of the channel. Reporting consumes it, so a run reports
/// at most once; dropping it unreported tells the handle the worker is lost.
pub struct Reporter {
    tx: Sender<PlannerResult>,
}

impl Reporter {
    /// Sends the run's result to the handle. Returns whether a handle was
    /// still there to take it.
    pub fn report(self, result: PlannerResult) -> (delivered: bool) {
        send_result(&self.tx, result)
    }
}

enum HandleState {
    Pending,
    Completed(PlannerResult),
    Lost,
}

/// The caller's end: polls for the result of one run and keeps it once seen.
pub struct PlannerFuture {
    rx: Receiver<PlannerResult>,
    state: HandleState,
}

impl PlannerFuture {
    /// What the handle knows of the run.
    pub closed spec fn progress(&self) -> Progress {
        match self.state {
            HandleState::Pending => Progress::Pending,
            HandleState::Completed(r) => Progress::Completed(r@),
            HandleState::Lost => Progress::Lost,
        }
    }

    /// The receiving end that the handle looks at when it is polled. It is
    /// fixed when the handle is made.
    pub closed spec fn receiver(&self) -> Receiver<PlannerResult> {
        self.rx
    }

    /// A pending handle on the receiving end of a channel.
    pub fn new(rx: Receiver<PlannerResult>) -> (handle: Self)
        ensures
            handle.progress() == Progress::Pending,
            handle.receiver() == rx,
    {
        PlannerFuture { rx, state: HandleState::Pending }
    }

    /// A fresh channel: the end to move into the worker, and the pending
    /// handle that stays with the caller.
    pub fn open() -> (ends: (Reporter, PlannerFuture))
        ensures
            ends.1.progress() == Progress::Pending,
    {
        let (tx, rx) = open_channel();
        (Reporter { tx }, PlannerFuture::new(rx))
    }

    fn current(&self) -> (polled: Result<Option<PlannerResult>, PlanError>)
        ensures
            reports(self.progress(), polled),
    {
        match &self.state {
            HandleState::Pending => Ok(None),
            HandleState::Completed(r) => Ok(Some(r.clone())),
            HandleState::Lost => Err(PlanError::WorkerLost),
        }
    }

    /// Takes one channel event into account and reports as a poll does.
    pub fn observe(&mut self, event: ChannelEvent) -> (polled: Result<Option<PlannerResult>, PlanError>)
        ensures
            final(self).progress() == step(old(self).progress(), event@),
            final(self).receiver() == old(self).receiver(),
            reports(final(self).progress(), polled),
    {
        if let HandleState::Pending = self.state {
            match event {
                ChannelEvent::Message(r) => {
                    self.state = HandleState::Completed(r);
                },
                ChannelEvent::Empty => {},
                ChannelEvent::Disconnected => {
                    self.state = HandleState::Lost;
                },
            }
        }
        self.current()
    }

    /// Polls without blocking. A handle that has completed or lost its worker
    /// reports the same again and leaves the channel alone. A pending one
    /// looks at the channel once and observes what it found there; which
    /// event that is depends on the worker, so of a pending handle only the
    /// agreement of the report with the new state is promised.
    pub fn check(&mut self) -> (polled: Result<Option<PlannerResult>, PlanError>)
        ensures
            old(self).progress() != Progress::Pending
                ==> final(self).progress() == old(self).progress(),
            final(self).receiver() == old(self).receiver(),
            reports(final(self).progress(), polled),
    {
        if let HandleState::Pending = self.state {
            let event = try_receive(&self.rx);
            self.observe(event)
        } else {
            self.current()
        }
    }

    /// Blocks until the run has ended, then reports its result, or the error
    /// that says the worker was lost. Never leaves the handle pending.
    pub fn await_result(&mut self) -> (outcome: Result<PlannerResult, PlanError>)
        ensures
            old(self).progress() != Progress::Pending
                ==> final(self).progress() == old(self).progress(),
            final(self).receiver() == old(self).receiver(),
            match final(self).progress() {
                Progress::Pending => false,
                Progress::Completed(r) => outcome matches Ok(result) && result@ == r,
                Progress::Lost => outcome matches Err(e) && e == PlanError::WorkerLost,
            },
    {
        let polled = if let HandleState::Pending = self.state {
            let event = receive(&self.rx);
            self.observe(event)
        } else {
            self.current()
        };
        match polled {
            Ok(Some(result)) => Ok(result),
            Ok(None) => Err(PlanError::WorkerLost),
            Err(e) => Err(e),
        }
    }

    /// Whether a polled value holds the run's result.
    pub fn is_done(&self, polled: &Option<PlannerResult>) -> (done: bool)
        ensures
            done == (polled is Some),
    {
        polled.is_some()
    }

    /// Turns a polled value into the path, or into the error that says no
    /// path was found: for an exhausted search, and for a poll that came
    /// before the result.
    pub fn finalize(&self, polled: Option<PlannerResult>) -> (path: Result<Vec<Point>, PlanError>)
        ensures
            match polled {
                Some(result) if result@ is Some => path matches Ok(v) && v@ == result@->0
                    && v@.len() > 0,
                _ => path matches Err(e) && e == PlanError::NoPathFound,
            },
    {
        match polled {
            Some(result) => result.into_path(),
            None => Err(PlanError::NoPathFound),
        }
    }
}

/// While the channel is empty at every look, a pending handle stays pending.
pub proof fn lemma_pending_while_empty(signals: Seq<Signal>)
    requires
        forall|i: int| 0 <= i < signals.len() ==> signals[i] == Signal::Empty,
    ensures
        run(Progress::Pending, signals) == Progress::Pending,
    decreases signals.len(),
{
    if signals.len() > 0 {
        lemma_pending_while_empty(signals.drop_last());
    }
}

/// Once a handle is completed or has lost its worker, no further look at the
/// channel changes what it knows, whatever the channel shows.
pub proof fn lemma_settled_is_stable(progress: Progress, signals: Seq<Signal>)
    requires
        progress != Progress::Pending,
    ensures
        run(progress, signals) == progress,
    decreases signals.len(),
{
    if signals.len() > 0 {
        lemma_settled_is_stable(progress, signals.drop_last());
    }
}

/// Looks taken one after another compose: running a series is running its
/// first part and then the rest from where that ended.
pub proof fn lemma_run_splits(progress: Progress, first: Seq<Signal>, rest: Seq<Signal>)
    ensures
        run(progress, first + rest) == run(run(progress, first), rest),
    decreases rest.len(),
{
    if rest.len() == 0 {
        assert(first + rest == first);
    } else {
        assert((first + rest).drop_last() == first + rest.drop_last());
        lemma_run_splits(progress, first, rest.drop_last());
    }
}

/// The course of polling: if the channel is empty for the first `at` looks
/// and shows the result at the next one, then a handle that started pending
/// is pending after each of the first `at` looks and completed with that
/// very result after every later one, whatever the channel shows then.
pub proof fn lemma_pending_then_completed(signals: Seq<Signal>, at: int, result: Option<Seq<Point>>)
    requires
        0 <= at < signals.len(),
        signals[at] == Signal::Message(result),
        forall|i: int| 0 <= i < at ==> signals[i] == Signal::Empty,
    ensures
        forall|n: int|
            0 <= n <= at ==> #[trigger] run(Progress::Pending, signals.take(n))
                == Progress::Pending,
        forall|n: int|
            at < n <= signals.len() ==> #[trigger] run(Progress::Pending, signals.take(n))
                == Progress::Completed(result),
{
    assert forall|n: int| 0 <= n <= at implies #[trigger] run(Progress::Pending, signals.take(n))
        == Progress::Pending by {
        lemma_pending_while_empty(signals.take(n));
    }
    assert forall|n: int| at < n <= signals.len() implies #[trigger] run(
        Progress::Pending,
        signals.take(n),
    ) == Progress::Completed(result) by {
        let upto = signals.take(at + 1);
        let later = signals.subrange(at + 1, n);
        assert(signals.take(n) == upto + later);
        assert(upto.drop_last() == signals.take(at));
        lemma_pending_while_empty(signals.take(at));
        assert(run(Progress::Pending, upto) == Progress::Completed(result));
        lemma_run_splits(Progress::Pending, upto, later);
        lemma_settled_is_stable(Progress::Completed(result), later);
    }
}

} // verus!
