//! One in-flight request: the shared result cell that its completion callback
//! writes, and the future that polls the pending operation and takes the
//! accumulated value exactly once.

use vstd::prelude::*;
use crate::driver::{DriverReport, PollResult};

verus! {

/// The lifecycle of a pending operation, as observed from its handle at poll
/// time.
#[derive(Clone, Copy, Debug, PartialEq, Eq)]
pub enum State {
    Running,
    Done,
    Cancelled,
}

/// What a list-shaped completion callback is handed on one invocation: an
/// item, the end marker (which carries no payload and completes nothing by
/// itself), or a delivery error.
#[derive(Clone, Copy, Debug, PartialEq, Eq)]
pub enum ListEvent<T> {
    Item(T),
    End,
    Error,
}

/// The result cell: shared storage bridging a completion callback's write to
/// a future's later read. The callback side fills `value` or sets `error`;
/// the future side reads both once the operation is done and moves the value
/// out at most once.
#[derive(Clone, Debug, PartialEq, Eq)]
pub struct Value<T> {
    pub error: bool,
    pub value: Option<T>,
}

impl<T> Value<T> {
    /// A fresh cell, seeded with the empty shape of the request (an empty
    /// list, an absent optional, a unit) or with nothing at all.
    pub fn new(value: Option<T>) -> (r: Value<T>)
        ensures
            !r.error,
            r.value == value,
    {
        Value { error: false, value }
    }

    /// A scalar delivery: the callback replaces the cell's value outright.
    pub fn deliver(&mut self, item: T)
        ensures
            final(self).value == Some(item),
            final(self).error == old(self).error,
    {
        self.value = Some(item);
    }
}

/// How one list-callback invocation transforms the accumulated items and the
/// error flag: an item is appended, the end marker changes nothing, an error
/// only raises the flag.
pub open spec fn list_step<T>(items: Seq<T>, error: bool, event: ListEvent<T>) -> (Seq<T>, bool) {
    match event {
        ListEvent::Item(x) => (items.push(x), error),
        ListEvent::End => (items, error),
        ListEvent::Error => (items, true),
    }
}

impl<T> Value<Vec<T>> {
    /// The list-shaped completion callback's whole effect on the cell.
    pub fn on_list_event(&mut self, event: ListEvent<T>)
        requires
            old(self).value is Some,
        ensures
            final(self).value is Some,
            final(self).value.unwrap()@ == list_step(old(self).value.unwrap()@, old(self).error, event).0,
            final(self).error == list_step(old(self).value.unwrap()@, old(self).error, event).1,
    {
        match event {
            ListEvent::Item(item) => {
                let mut items = self.value.take().unwrap();
                items.push(item);
                self.value = Some(items);
            }
            ListEvent::End => {}
            ListEvent::Error => {
                self.error = true;
            }
        }
    }
}

impl<T> Value<Option<T>> {
    /// The by-name completion callback's whole effect on the cell: a found
    /// record replaces the inner optional, the end marker leaves the absent
    /// value in place, an error only raises the flag.
    pub fn on_single_event(&mut self, event: ListEvent<T>)
        requires
            old(self).value is Some,
        ensures
            match event {
                ListEvent::Item(x) => final(self).value == Some(Some(x))
                    && final(self).error == old(self).error,
                ListEvent::End => *final(self) == *old(self),
                ListEvent::Error => final(self).error && final(self).value == old(self).value,
            },
    {
        match event {
            ListEvent::Item(item) => {
                self.value = Some(Some(item));
            }
            ListEvent::End => {}
            ListEvent::Error => {
                self.error = true;
            }
        }
    }
}

impl Value<()> {
    /// The mutation callback's whole effect: it reports boolean success and
    /// carries no payload, so it writes only the error flag and leaves the
    /// pre-seeded unit value intact.
    pub fn on_mutation_ack(&mut self, success: bool)
        ensures
            final(self).error == !success,
            final(self).value == old(self).value,
    {
        self.error = !success;
    }
}

/// A single-resolution future over one pending operation. The pending
/// operation's observed state and the loop driver's verdict are handed to
/// each poll; the cell is owned here and written through it by the registered
/// callback's entry points above.
#[derive(Clone, Debug, PartialEq, Eq)]
pub struct OperationFuture<T> {
    pub result: Value<T>,
}

impl<T> OperationFuture<T> {
    /// What one poll resolves to. A fatal driver verdict fails the future at
    /// once; otherwise a running operation is not ready, a cancelled one
    /// fails, and a done one either fails (error flag set) or succeeds with
    /// the accumulated value. A done poll that finds the value slot already
    /// emptied — a poll after a successful resolution, which the future
    /// contract forbids — fails fast rather than yielding a stale value.
    pub open spec fn poll_outcome(self, report: DriverReport, state: State) -> PollResult<
        Result<T, ()>,
    > {
        if report.is_fatal() {
            PollResult::Ready(Err(()))
        } else {
            match state {
                State::Running => PollResult::Pending,
                State::Cancelled => PollResult::Ready(Err(())),
                State::Done => if self.result.error {
                    PollResult::Ready(Err(()))
                } else {
                    match self.result.value {
                        Some(v) => PollResult::Ready(Ok(v)),
                        None => PollResult::Ready(Err(())),
                    }
                },
            }
        }
    }

    /// The cell after one poll: a successful resolution moves the value out,
    /// leaving nothing behind; every other poll leaves the cell untouched.
    pub open spec fn after_poll(self, report: DriverReport, state: State) -> OperationFuture<T> {
        if !report.is_fatal() && state is Done && !self.result.error {
            OperationFuture { result: Value { error: self.result.error, value: None } }
        } else {
            self
        }
    }

    /// Poll once: the driver's verdict first, then the operation's state,
    /// then the cell.
    pub fn poll(&mut self, report: DriverReport, state: State) -> (r: PollResult<Result<T, ()>>)
        ensures
            r == old(self).poll_outcome(report, state),
            *final(self) == old(self).after_poll(report, state),
    {
        if report.fatal() {
            return PollResult::Ready(Err(()));
        }
        match state {
            State::Running => PollResult::Pending,
            State::Cancelled => PollResult::Ready(Err(())),
            State::Done => {
                if self.result.error {
                    PollResult::Ready(Err(()))
                } else {
                    match self.result.value.take() {
                        Some(v) => PollResult::Ready(Ok(v)),
                        None => PollResult::Ready(Err(())),
                    }
                }
            }
        }
    }

    /// A future for a request whose callback delivers one scalar value; the
    /// cell starts with nothing, and the value slot is filled by the delivery.
    pub fn new_scalar() -> (f: OperationFuture<T>)
        ensures
            !f.result.error,
            f.result.value is None,
    {
        OperationFuture { result: Value::new(None) }
    }
}

impl<T> OperationFuture<Vec<T>> {
    /// A future for a list-shaped request: the cell starts with an empty,
    /// error-free accumulator.
    pub fn new_list() -> (f: OperationFuture<Vec<T>>)
        ensures
            !f.result.error,
            f.result.value is Some,
            f.result.value.unwrap()@ == Seq::<T>::empty(),
    {
        OperationFuture { result: Value::new(Some(Vec::new())) }
    }
}

impl<T> OperationFuture<Option<T>> {
    /// A future for a by-name request: the cell starts with a present-but-
    /// absent value, so a record that is never delivered resolves to an
    /// absent value rather than a failure.
    pub fn new_optional() -> (f: OperationFuture<Option<T>>)
        ensures
            !f.result.error,
            f.result.value == Some(None::<T>),
    {
        OperationFuture { result: Value::new(Some(None)) }
    }
}

impl OperationFuture<()> {
    /// A future for a mutation request: the unit value is pre-seeded, and the
    /// boolean-success callback writes only the error flag.
    pub fn new_mutation() -> (f: OperationFuture<()>)
        ensures
            !f.result.error,
            f.result.value == Some(()),
    {
        OperationFuture { result: Value::new(Some(())) }
    }
}

/// Law: a poll that does not resolve leaves the cell exactly as it was, so
/// the eventual resolution is the same however many polls were needed.
pub proof fn lemma_pending_poll_preserves<T>(
    f: OperationFuture<T>,
    report: DriverReport,
    state: State,
)
    requires
        !(f.poll_outcome(report, state) matches PollResult::Ready(Ok(_))),
    ensures
        f.after_poll(report, state) == f,
{
}

/// Law: an operation future resolves at most once. A poll that resolves
/// successfully empties the value slot, after which no later poll — whatever
/// the driver reports and whatever operation state is observed — can yield a
/// successful resolution again, and the cell never changes again.
pub proof fn lemma_resolution_is_final<T>(
    f: OperationFuture<T>,
    r1: DriverReport,
    s1: State,
    r2: DriverReport,
    s2: State,
)
    requires
        f.poll_outcome(r1, s1) matches PollResult::Ready(Ok(_)),
    ensures
        f.after_poll(r1, s1).result.value is None,
        !(f.after_poll(r1, s1).poll_outcome(r2, s2) matches PollResult::Ready(Ok(_))),
        f.after_poll(r1, s1).after_poll(r2, s2) == f.after_poll(r1, s1),
{
}

/// The items carried by a delivery sequence, in invocation order.
pub open spec fn items_of<T>(events: Seq<ListEvent<T>>) -> Seq<T>
    decreases events.len(),
{
    if events.len() == 0 {
        Seq::empty()
    } else {
        let rest = items_of(events.drop_first());
        match events[0] {
            ListEvent::Item(x) => seq![x] + rest,
            ListEvent::End => rest,
            ListEvent::Error => rest,
        }
    }
}

/// Whether any invocation in a delivery sequence reported an error.
pub open spec fn any_failed<T>(events: Seq<ListEvent<T>>) -> bool
    decreases events.len(),
{
    if events.len() == 0 {
        false
    } else {
        (events[0] is Error) || any_failed(events.drop_first())
    }
}

/// A whole sequence of list-callback invocations applied to a cell's state.
pub open spec fn apply_list_events<T>(items: Seq<T>, error: bool, events: Seq<ListEvent<T>>) -> (
    Seq<T>,
    bool,
)
    decreases events.len(),
{
    if events.len() == 0 {
        (items, error)
    } else {
        let stepped = list_step(items, error, events[0]);
        apply_list_events(stepped.0, stepped.1, events.drop_first())
    }
}

/// Law: a run of list-callback invocations appends exactly the delivered
/// items, in invocation order, and raises the error flag exactly when some
/// invocation reported an error.
pub proof fn lemma_list_accumulation<T>(items: Seq<T>, error: bool, events: Seq<ListEvent<T>>)
    ensures
        apply_list_events(items, error, events).0 == items + items_of(events),
        apply_list_events(items, error, events).1 == (error || any_failed(events)),
    decreases events.len(),
{
    if events.len() == 0 {
        assert(items + items_of(events) =~= items);
    } else {
        let stepped = list_step(items, error, events[0]);
        lemma_list_accumulation(stepped.0, stepped.1, events.drop_first());
        assert(stepped.0 + items_of(events.drop_first()) =~= items + items_of(events));
    }
}

/// Law: starting from the fresh cell of a list-shaped request, an error-free
/// delivery run accumulates exactly the delivered items — same number, same
/// order, however the run was interleaved with polls — and leaves the error
/// flag clear, so the eventual resolution yields precisely those items.
pub proof fn lemma_list_yield_matches_deliveries<T>(events: Seq<ListEvent<T>>)
    requires
        !any_failed(events),
    ensures
        apply_list_events(Seq::<T>::empty(), false, events).0 == items_of(events),
        !apply_list_events(Seq::<T>::empty(), false, events).1,
{
    lemma_list_accumulation(Seq::<T>::empty(), false, events);
    assert(Seq::<T>::empty() + items_of(events) =~= items_of(events));
}

} // verus!
