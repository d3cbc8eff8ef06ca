use libpulse_futures::driver::{DriverReport, IterateOutcome, LoopDriver, PollResult};
use libpulse_futures::operation::{ListEvent, OperationFuture, State, Value};

#[test]
fn value_new_is_clean() {
    let v: Value<u32> = Value::new(Some(3));
    assert!(!v.error);
    assert_eq!(v.value, Some(3));
    let empty: Value<u32> = Value::new(None);
    assert!(!empty.error);
    assert_eq!(empty.value, None);
}

#[test]
fn self_driven_reports_follow_the_iterate_outcome() {
    let d = LoopDriver::SelfDriven;
    assert_eq!(d.poll_once(Some(IterateOutcome::Advanced(4))), DriverReport::Success);
    assert_eq!(d.poll_once(Some(IterateOutcome::Quit(0))), DriverReport::Quit);
    assert_eq!(d.poll_once(Some(IterateOutcome::Failed(-7))), DriverReport::Error);
}

#[test]
fn host_driven_always_reports_success() {
    let d = LoopDriver::HostDriven;
    assert_eq!(d.poll_once(None), DriverReport::Success);
}

#[test]
fn fatal_verdicts() {
    assert!(!DriverReport::Success.fatal());
    assert!(DriverReport::Quit.fatal());
    assert!(DriverReport::Error.fatal());
}

#[test]
fn scalar_future_resolves_with_the_delivered_value() {
    let mut f = OperationFuture::<u32>::new_scalar();
    assert_eq!(f.poll(DriverReport::Success, State::Running), PollResult::Pending);
    f.result.deliver(5);
    assert_eq!(
        f.poll(DriverReport::Success, State::Done),
        PollResult::Ready(Ok(5))
    );
}

#[test]
fn resolution_happens_at_most_once() {
    let mut f = OperationFuture::<u32>::new_scalar();
    f.result.deliver(5);
    assert_eq!(
        f.poll(DriverReport::Success, State::Done),
        PollResult::Ready(Ok(5))
    );
    assert_eq!(f.result.value, None);
    // The slot was emptied by the resolution: a forbidden second poll fails
    // fast instead of observing a value again.
    assert_eq!(
        f.poll(DriverReport::Success, State::Done),
        PollResult::Ready(Err(()))
    );
}

#[test]
fn list_future_accumulates_in_delivery_order() {
    let mut f = OperationFuture::<Vec<u8>>::new_list();
    f.result.on_list_event(ListEvent::Item(7));
    assert_eq!(f.poll(DriverReport::Success, State::Running), PollResult::Pending);
    f.result.on_list_event(ListEvent::Item(9));
    f.result.on_list_event(ListEvent::Item(2));
    f.result.on_list_event(ListEvent::End);
    assert_eq!(
        f.poll(DriverReport::Success, State::Done),
        PollResult::Ready(Ok(vec![7, 9, 2]))
    );
}

#[test]
fn empty_list_resolves_to_an_empty_sequence() {
    let mut f = OperationFuture::<Vec<u8>>::new_list();
    f.result.on_list_event(ListEvent::End);
    assert_eq!(
        f.poll(DriverReport::Success, State::Done),
        PollResult::Ready(Ok(vec![]))
    );
}

#[test]
fn list_delivery_error_fails_the_future() {
    let mut f = OperationFuture::<Vec<u8>>::new_list();
    f.result.on_list_event(ListEvent::Item(7));
    f.result.on_list_event(ListEvent::Error);
    assert_eq!(
        f.poll(DriverReport::Success, State::Done),
        PollResult::Ready(Err(()))
    );
}

#[test]
fn by_name_miss_yields_absent_value_not_failure() {
    let mut f = OperationFuture::<Option<u32>>::new_optional();
    f.result.on_single_event(ListEvent::End);
    assert_eq!(
        f.poll(DriverReport::Success, State::Done),
        PollResult::Ready(Ok(None))
    );
}

#[test]
fn by_name_hit_yields_the_record() {
    let mut f = OperationFuture::<Option<u32>>::new_optional();
    f.result.on_single_event(ListEvent::Item(42));
    f.result.on_single_event(ListEvent::End);
    assert_eq!(
        f.poll(DriverReport::Success, State::Done),
        PollResult::Ready(Ok(Some(42)))
    );
}

#[test]
fn mutation_ack_false_resolves_to_failure() {
    let mut f = OperationFuture::new_mutation();
    f.result.on_mutation_ack(false);
    assert_eq!(
        f.poll(DriverReport::Success, State::Done),
        PollResult::Ready(Err(()))
    );
}

#[test]
fn mutation_ack_true_resolves_to_success() {
    let mut f = OperationFuture::new_mutation();
    f.result.on_mutation_ack(true);
    assert_eq!(
        f.poll(DriverReport::Success, State::Done),
        PollResult::Ready(Ok(()))
    );
}

#[test]
fn cancelled_operation_fails() {
    let mut f = OperationFuture::<u32>::new_scalar();
    assert_eq!(
        f.poll(DriverReport::Success, State::Cancelled),
        PollResult::Ready(Err(()))
    );
}

#[test]
fn loop_failure_fails_the_future_on_that_very_poll() {
    let mut f = OperationFuture::<u32>::new_scalar();
    f.result.deliver(5);
    // Still running, but the loop quit: the future fails now, not later.
    assert_eq!(
        f.poll(DriverReport::Quit, State::Running),
        PollResult::Ready(Err(()))
    );
    let mut g = OperationFuture::<Vec<u8>>::new_list();
    assert_eq!(
        g.poll(DriverReport::Error, State::Running),
        PollResult::Ready(Err(()))
    );
}
