//! The connection future's poll decision and the change-subscription stream:
//! a FIFO queue of notification events bridging a persistent callback to a
//! lazily polled, terminally failing stream.

use vstd::prelude::*;
use crate::driver::{DriverReport, PollResult};
use std::collections::VecDeque;

verus! {

/// Connection lifecycle states, as observed from the connection object by a
/// state query at poll time.
#[derive(Clone, Copy, Debug, PartialEq, Eq)]
pub enum State {
    Unconnected,
    Connecting,
    Ready,
    Failed,
    Terminated,
}

/// What one poll of the connection future resolves to: a fatal driver verdict
/// fails it at once; otherwise a ready connection succeeds, a failed or
/// terminated one fails, and any other state re-arms for the next wake.
pub open spec fn connection_outcome(report: DriverReport, state: State) -> PollResult<
    Result<(), ()>,
> {
    if report.is_fatal() {
        PollResult::Ready(Err(()))
    } else {
        match state {
            State::Ready => PollResult::Ready(Ok(())),
            State::Failed => PollResult::Ready(Err(())),
            State::Terminated => PollResult::Ready(Err(())),
            State::Unconnected => PollResult::Pending,
            State::Connecting => PollResult::Pending,
        }
    }
}

/// The connection future's poll decision. The future itself keeps no state of
/// its own: the driver's verdict and the observed connection state decide
/// everything.
pub fn poll_connection(report: DriverReport, state: State) -> (r: PollResult<Result<(), ()>>)
    ensures
        r == connection_outcome(report, state),
{
    if report.fatal() {
        return PollResult::Ready(Err(()));
    }
    match state {
        State::Ready => PollResult::Ready(Ok(())),
        State::Failed => PollResult::Ready(Err(())),
        State::Terminated => PollResult::Ready(Err(())),
        State::Unconnected => PollResult::Pending,
        State::Connecting => PollResult::Pending,
    }
}

/// One change notification: which subsystem changed, what kind of change, and
/// the index of the object concerned. The first two arrive as raw codes that
/// may fall outside the known variants, hence the optional wrappers.
#[derive(Clone, Copy, Debug, PartialEq, Eq)]
pub struct Event {
    pub facility: Option<u32>,
    pub kind: Option<u32>,
    pub index: u32,
}

/// The mathematical state of a subscription stream: the queued events oldest
/// first, whether enabling the subscription failed, and whether the stream
/// has ended.
#[verifier::ext_equal]
pub struct SubModel {
    pub queued: Seq<Event>,
    pub enable_failed: bool,
    pub ended: bool,
}

/// How one poll steps the stream: an ended stream yields end-of-stream and
/// never changes again; a fatal driver verdict or a failed enable yields the
/// stream's one failure item and ends it; otherwise the oldest queued event
/// is yielded, or the poll re-arms if the queue is empty.
pub open spec fn next_step(m: SubModel, report: DriverReport) -> (
    PollResult<Option<Result<Event, ()>>>,
    SubModel,
) {
    if m.ended {
        (PollResult::Ready(None), m)
    } else if report.is_fatal() || m.enable_failed {
        (PollResult::Ready(Some(Err(()))), SubModel { ended: true, ..m })
    } else if m.queued.len() > 0 {
        (PollResult::Ready(Some(Ok(m.queued[0]))), SubModel { queued: m.queued.drop_first(), ..m })
    } else {
        (PollResult::Pending, m)
    }
}

/// A change-subscription stream: an unbounded FIFO of notification events,
/// filled by a persistent callback registered for the connection's lifetime
/// and drained one event per poll that finds it non-empty. An error — the
/// loop's or a rejected enable request — terminates the stream right after
/// its single failure item.
#[derive(Clone, Debug, PartialEq, Eq)]
pub struct Subscription {
    pub error_returned: bool,
    pub error: bool,
    pub events: VecDeque<Event>,
}

impl Subscription {
    /// The stream as its mathematical model.
    pub open spec fn model(self) -> SubModel {
        SubModel { queued: self.events@, enable_failed: self.error, ended: self.error_returned }
    }

    /// A fresh subscription: nothing queued, no error, not ended.
    pub fn new() -> (s: Subscription)
        ensures
            !s.error_returned,
            !s.error,
            s.events@ == Seq::<Event>::empty(),
    {
        Subscription { error_returned: false, error: false, events: VecDeque::new() }
    }

    /// The persistent notification callback's whole effect: append one event
    /// at the back of the queue.
    pub fn enqueue(&mut self, event: Event)
        ensures
            final(self).events@ == old(self).events@.push(event),
            final(self).error == old(self).error,
            final(self).error_returned == old(self).error_returned,
    {
        self.events.push_back(event);
    }

    /// The enable-request callback's whole effect: a rejected subscription
    /// mask raises the queue's error flag; success changes nothing.
    pub fn on_subscribe_ack(&mut self, success: bool)
        ensures
            final(self).error == (old(self).error || !success),
            final(self).events@ == old(self).events@,
            final(self).error_returned == old(self).error_returned,
    {
        if !success {
            self.error = true;
        }
    }

    /// Poll for the next event: the driver's verdict first, then the error
    /// flag, then the front of the queue.
    pub fn poll_next(&mut self, report: DriverReport) -> (r: PollResult<
        Option<Result<Event, ()>>,
    >)
        ensures
            r == next_step(old(self).model(), report).0,
            final(self).model() == next_step(old(self).model(), report).1,
    {
        if self.error_returned {
            return PollResult::Ready(None);
        }
        if report.fatal() || self.error {
            self.error_returned = true;
            return PollResult::Ready(Some(Err(())));
        }
        match self.events.pop_front() {
            Some(event) => PollResult::Ready(Some(Ok(event))),
            None => PollResult::Pending,
        }
    }
}

/// What a run of polls yields, in order, one entry per poll.
pub open spec fn next_trace(m: SubModel, reports: Seq<DriverReport>) -> Seq<
    PollResult<Option<Result<Event, ()>>>,
>
    decreases reports.len(),
{
    if reports.len() == 0 {
        Seq::empty()
    } else {
        let stepped = next_step(m, reports[0]);
        seq![stepped.0] + next_trace(stepped.1, reports.drop_first())
    }
}

/// The stream state after a run of polls.
pub open spec fn after_trace(m: SubModel, reports: Seq<DriverReport>) -> SubModel
    decreases reports.len(),
{
    if reports.len() == 0 {
        m
    } else {
        after_trace(next_step(m, reports[0]).1, reports.drop_first())
    }
}

/// A run of polls yields one entry per poll.
pub proof fn lemma_next_trace_len(m: SubModel, reports: Seq<DriverReport>)
    ensures
        next_trace(m, reports).len() == reports.len(),
    decreases reports.len(),
{
    if reports.len() > 0 {
        lemma_next_trace_len(next_step(m, reports[0]).1, reports.drop_first());
    }
}

/// Law: delivery is strict FIFO, matching callback invocation order. On a
/// healthy stream whose driver keeps reporting success, a run of polls yields
/// exactly the oldest queued events, one per poll, in the order the callback
/// enqueued them, and leaves the rest queued.
pub proof fn lemma_fifo_order(m: SubModel, reports: Seq<DriverReport>)
    requires
        !m.ended,
        !m.enable_failed,
        forall|i: int| 0 <= i < reports.len() ==> reports[i] == DriverReport::Success,
        reports.len() <= m.queued.len(),
    ensures
        next_trace(m, reports) == m.queued.take(reports.len() as int).map_values(
            |e: Event| PollResult::Ready(Some(Ok::<Event, ()>(e))),
        ),
        after_trace(m, reports) == (SubModel { queued: m.queued.skip(reports.len() as int), ..m }),
    decreases reports.len(),
{
    let yielded = |e: Event| PollResult::Ready(Some(Ok::<Event, ()>(e)));
    if reports.len() == 0 {
        assert(next_trace(m, reports) =~= m.queued.take(0).map_values(yielded));
        assert(m.queued.skip(0) =~= m.queued);
    } else {
        let stepped = next_step(m, reports[0]);
        lemma_fifo_order(stepped.1, reports.drop_first());
        assert(stepped.1.queued.take(reports.len() - 1) =~= m.queued.take(
            reports.len() as int,
        ).drop_first());
        assert(next_trace(m, reports) =~= m.queued.take(reports.len() as int).map_values(yielded));
        assert(stepped.1.queued.skip(reports.len() - 1) =~= m.queued.skip(reports.len() as int));
    }
}

/// Law: termination is idempotent. Once the stream has ended, every further
/// poll yields end-of-stream, whatever the driver reports, and the state
/// never changes again.
pub proof fn lemma_ended_stays_ended(m: SubModel, reports: Seq<DriverReport>)
    requires
        m.ended,
    ensures
        after_trace(m, reports) == m,
        forall|i: int|
            0 <= i < reports.len() ==> next_trace(m, reports)[i] == PollResult::Ready(
                None::<Result<Event, ()>>,
            ),
    decreases reports.len(),
{
    if reports.len() > 0 {
        let stepped = next_step(m, reports[0]);
        lemma_ended_stays_ended(m, reports.drop_first());
        lemma_next_trace_len(m, reports.drop_first());
        assert forall|i: int| 0 <= i < reports.len() implies next_trace(m, reports)[i]
            == PollResult::Ready(None::<Result<Event, ()>>) by {
            assert(next_trace(m, reports) == seq![stepped.0] + next_trace(
                stepped.1,
                reports.drop_first(),
            ));
            if i > 0 {
                assert(next_trace(m, reports)[i] == next_trace(m, reports.drop_first())[i - 1]);
            }
        }
    }
}

/// Law: the first failure item is the last item. A poll that yields the
/// stream's failure item leaves the stream ended, so every subsequent poll
/// yields end-of-stream and nothing further.
pub proof fn lemma_error_is_terminal(m: SubModel, report: DriverReport, later: Seq<DriverReport>)
    requires
        next_step(m, report).0 == PollResult::Ready(Some(Err::<Event, ()>(()))),
    ensures
        next_step(m, report).1.ended,
        after_trace(next_step(m, report).1, later) == next_step(m, report).1,
        forall|i: int|
            0 <= i < later.len() ==> next_trace(next_step(m, report).1, later)[i]
                == PollResult::Ready(None::<Result<Event, ()>>),
{
    lemma_ended_stays_ended(next_step(m, report).1, later);
}

} // verus!
