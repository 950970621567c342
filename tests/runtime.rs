use ezrpc::dispatcher::{deliver, Dispatcher, MultiplexError, Resolution};
use ezrpc::lock_state::{LockPhase, PollAction};

#[test]
fn registered_request_gets_its_response() {
    let mut d: Dispatcher<u64, String> = Dispatcher::new();
    let (sender, receiver) = async_oneshot::oneshot();
    assert_eq!(d.register(1, sender), Ok(()));
    assert!(d.is_pending(&1));
    assert_eq!(d.resolve(&1, "pong".to_string()), Resolution::Delivered);
    assert!(!d.is_pending(&1));
    assert_eq!(receiver.try_recv().ok(), Some("pong".to_string()));
}

#[test]
fn second_response_is_dropped() {
    let mut d: Dispatcher<u64, u32> = Dispatcher::new();
    let (sender, _receiver) = async_oneshot::oneshot();
    d.register(7, sender).unwrap();
    assert_eq!(d.resolve(&7, 1), Resolution::Delivered);
    assert_eq!(d.resolve(&7, 2), Resolution::Unknown);
}

#[test]
fn unknown_response_is_absorbed() {
    let mut d: Dispatcher<u64, u32> = Dispatcher::new();
    let (sender, _receiver) = async_oneshot::oneshot();
    d.register(2, sender).unwrap();
    assert_eq!(d.resolve(&99, 5), Resolution::Unknown);
    assert!(d.is_pending(&2));
}

#[test]
fn duplicate_identifier_is_refused() {
    let mut d: Dispatcher<u64, u32> = Dispatcher::new();
    let (first, first_receiver) = async_oneshot::oneshot();
    let (second, _second_receiver) = async_oneshot::oneshot();
    d.register(4, first).unwrap();
    assert_eq!(d.register(4, second), Err(MultiplexError::DuplicateIdentifier));
    assert_eq!(d.resolve(&4, 10), Resolution::Delivered);
    assert_eq!(first_receiver.try_recv().ok(), Some(10));
}

#[test]
fn abandoned_caller_is_reported() {
    let mut d: Dispatcher<u64, u32> = Dispatcher::new();
    let (sender, receiver) = async_oneshot::oneshot();
    d.register(3, sender).unwrap();
    drop(receiver);
    assert_eq!(d.resolve(&3, 1), Resolution::Abandoned);
    assert!(!d.is_pending(&3));
}

#[test]
fn lock_handle_reuses_its_attempt() {
    let idle = LockPhase::new();
    assert_eq!(idle.poll_action(), PollAction::Start);
    let waiting = idle.after_poll(false);
    assert_eq!(waiting, LockPhase::Acquiring);
    assert_eq!(waiting.poll_action(), PollAction::Resume);
    let held = waiting.after_poll(true);
    assert_eq!(held, LockPhase::Held);
    assert_eq!(held.poll_action(), PollAction::Ready);
    assert_eq!(held.after_poll(false), LockPhase::Held);
    assert_eq!(held.release(), Some(LockPhase::Idle));
    assert_eq!(waiting.release(), None);
}

#[test]
fn pollers_each_get_one_guard() {
    // Two handles contend for one lock: the first acquisition completes, the second waits
    // until the first gives the guard back.
    let first = LockPhase::new();
    let second = LockPhase::new();
    assert_eq!(first.poll_action(), PollAction::Start);
    assert_eq!(second.poll_action(), PollAction::Start);
    let first = first.after_poll(true);
    let second = second.after_poll(false);
    assert_eq!(first, LockPhase::Held);
    assert_eq!(second, LockPhase::Acquiring);
    // Polling again does not start a second acquisition or grant a second guard.
    assert_eq!(first.poll_action(), PollAction::Ready);
    assert_eq!(first.after_poll(true), LockPhase::Held);
    assert_eq!(second.poll_action(), PollAction::Resume);
    let second = second.after_poll(false);
    assert_eq!(second, LockPhase::Acquiring);
    let first = first.release().expect("the holder gives the guard back");
    assert_eq!(first, LockPhase::Idle);
    assert_eq!(first.release(), None);
    assert_eq!(second.poll_action(), PollAction::Resume);
    let second = second.after_poll(true);
    assert_eq!(second, LockPhase::Held);
    assert_eq!(second.release(), Some(LockPhase::Idle));
}

#[test]
fn taking_a_pending_slot_removes_it() {
    let mut d: Dispatcher<u64, u32> = Dispatcher::new();
    let (sender, receiver) = async_oneshot::oneshot();
    d.register(5, sender).unwrap();
    assert!(d.take_pending(&6).is_none());
    assert!(d.is_pending(&5));
    let mut slot = d.take_pending(&5).expect("the slot registered under 5");
    assert!(!d.is_pending(&5));
    assert!(d.take_pending(&5).is_none());
    assert_eq!(deliver(&mut slot, 8), Resolution::Delivered);
    assert_eq!(receiver.try_recv().ok(), Some(8));
}

#[test]
fn delivery_to_a_closed_slot_is_abandoned() {
    let (mut sender, receiver) = async_oneshot::oneshot::<u32>();
    drop(receiver);
    assert_eq!(deliver(&mut sender, 1), Resolution::Abandoned);
}

#[test]
fn one_response_per_registration() {
    let mut d: Dispatcher<u64, u32> = Dispatcher::new();
    let (sender, receiver) = async_oneshot::oneshot();
    d.register(1, sender).unwrap();
    assert_eq!(d.resolve(&1, 10), Resolution::Delivered);
    assert_eq!(d.resolve(&1, 20), Resolution::Unknown);
    assert_eq!(d.resolve(&1, 30), Resolution::Unknown);
    assert!(!d.is_pending(&1));
    assert_eq!(receiver.try_recv().ok(), Some(10));
}
