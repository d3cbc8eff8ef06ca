use libpulse_futures::context::{poll_connection, Event, State, Subscription};
use libpulse_futures::driver::{DriverReport, PollResult};

fn event(index: u32) -> Event {
    Event { facility: Some(0), kind: Some(1), index }
}

#[test]
fn connection_poll_decisions() {
    assert_eq!(
        poll_connection(DriverReport::Success, State::Ready),
        PollResult::Ready(Ok(()))
    );
    assert_eq!(
        poll_connection(DriverReport::Success, State::Failed),
        PollResult::Ready(Err(()))
    );
    assert_eq!(
        poll_connection(DriverReport::Success, State::Terminated),
        PollResult::Ready(Err(()))
    );
    assert_eq!(
        poll_connection(DriverReport::Success, State::Unconnected),
        PollResult::Pending
    );
    assert_eq!(
        poll_connection(DriverReport::Success, State::Connecting),
        PollResult::Pending
    );
}

#[test]
fn connection_fails_at_once_on_loop_failure() {
    // Even a ready connection resolves to failure when the loop is gone.
    assert_eq!(
        poll_connection(DriverReport::Quit, State::Ready),
        PollResult::Ready(Err(()))
    );
    assert_eq!(
        poll_connection(DriverReport::Error, State::Connecting),
        PollResult::Ready(Err(()))
    );
}

#[test]
fn events_come_out_in_callback_order() {
    let mut s = Subscription::new();
    s.enqueue(event(3));
    s.enqueue(event(1));
    s.enqueue(event(2));
    assert_eq!(
        s.poll_next(DriverReport::Success),
        PollResult::Ready(Some(Ok(event(3))))
    );
    assert_eq!(
        s.poll_next(DriverReport::Success),
        PollResult::Ready(Some(Ok(event(1))))
    );
    // New arrivals queue behind what is already waiting.
    s.enqueue(event(9));
    assert_eq!(
        s.poll_next(DriverReport::Success),
        PollResult::Ready(Some(Ok(event(2))))
    );
    assert_eq!(
        s.poll_next(DriverReport::Success),
        PollResult::Ready(Some(Ok(event(9))))
    );
    assert_eq!(s.poll_next(DriverReport::Success), PollResult::Pending);
}

#[test]
fn an_empty_queue_re_arms() {
    let mut s = Subscription::new();
    assert_eq!(s.poll_next(DriverReport::Success), PollResult::Pending);
    assert_eq!(s.poll_next(DriverReport::Success), PollResult::Pending);
}

#[test]
fn rejected_enable_yields_one_failure_item_then_end() {
    let mut s = Subscription::new();
    s.on_subscribe_ack(false);
    assert_eq!(
        s.poll_next(DriverReport::Success),
        PollResult::Ready(Some(Err(())))
    );
    assert_eq!(s.poll_next(DriverReport::Success), PollResult::Ready(None));
    // Termination is idempotent.
    assert_eq!(s.poll_next(DriverReport::Success), PollResult::Ready(None));
    assert_eq!(s.poll_next(DriverReport::Error), PollResult::Ready(None));
}

#[test]
fn accepted_enable_leaves_the_stream_healthy() {
    let mut s = Subscription::new();
    s.on_subscribe_ack(true);
    s.enqueue(event(5));
    assert_eq!(
        s.poll_next(DriverReport::Success),
        PollResult::Ready(Some(Ok(event(5))))
    );
}

#[test]
fn loop_failure_ends_the_stream_after_one_failure_item() {
    let mut s = Subscription::new();
    s.enqueue(event(5));
    // Queued events are not delivered past a loop failure.
    assert_eq!(
        s.poll_next(DriverReport::Quit),
        PollResult::Ready(Some(Err(())))
    );
    assert_eq!(s.poll_next(DriverReport::Success), PollResult::Ready(None));
}

#[test]
fn dropping_one_entity_leaves_another_untouched() {
    // Two independent connection attempts: abandoning one mid-connect must
    // not disturb the other's poll, since no state is shared between them.
    let s1 = Subscription::new();
    let mut s2 = Subscription::new();
    s2.enqueue(event(8));
    drop(s1);
    assert_eq!(
        poll_connection(DriverReport::Success, State::Connecting),
        PollResult::Pending
    );
    assert_eq!(
        s2.poll_next(DriverReport::Success),
        PollResult::Ready(Some(Ok(event(8))))
    );
}
