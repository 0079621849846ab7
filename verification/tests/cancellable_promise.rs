use worker::cancellable_promise::{
    make, CancellablePromise, Event, Outcome, Promise, ABORT_MESSAGE,
};
use worker::signal::{AbortController, AbortSignal};

fn pending() -> CancellablePromise<u32, String> {
    make(AbortSignal::new(), Promise::pending())
}

#[test]
fn signal_already_set_aborts_at_once() {
    let mut signal = AbortSignal::new();
    signal.fire();
    let combined: CancellablePromise<u32, String> = make(signal, Promise::pending());
    assert!(combined.is_settled());
    assert_eq!(combined.outcome(), &Some(Outcome::Aborted));
    assert!(!combined.signal().is_subscribed());
}

#[test]
fn signal_already_set_wins_over_a_finished_operation() {
    let mut signal = AbortSignal::new();
    signal.fire();
    let combined: CancellablePromise<u32, String> = make(signal, Promise::resolved(7));
    assert_eq!(combined.outcome(), &Some(Outcome::Aborted));
}

#[test]
fn success_before_cancellation_is_the_outcome() {
    let mut combined = pending();
    assert_eq!(combined.outcome(), &None);
    assert!(combined.resolve(42));
    assert_eq!(combined.outcome(), &Some(Outcome::Success(42)));
}

#[test]
fn failure_before_cancellation_is_the_outcome() {
    let mut combined = pending();
    assert!(combined.reject("boom".to_string()));
    assert_eq!(combined.outcome(), &Some(Outcome::Failure("boom".to_string())));
}

#[test]
fn finished_operation_hands_on_its_result() {
    let ok: CancellablePromise<u32, String> = make(AbortSignal::new(), Promise::resolved(5));
    assert_eq!(ok.outcome(), &Some(Outcome::Success(5)));
    assert!(!ok.signal().is_subscribed());
    let err: CancellablePromise<u32, String> =
        make(AbortSignal::new(), Promise::rejected("no".to_string()));
    assert_eq!(err.into_outcome(), Some(Outcome::Failure("no".to_string())));
}

#[test]
fn signal_first_discards_the_later_result() {
    let mut combined = pending();
    assert!(combined.abort());
    assert_eq!(combined.outcome(), &Some(Outcome::Aborted));
    assert!(!combined.resolve(42));
    assert_eq!(combined.outcome(), &Some(Outcome::Aborted));
    assert!(!combined.reject("late".to_string()));
    assert_eq!(combined.outcome(), &Some(Outcome::Aborted));
}

#[test]
fn uncancelled_outcome_is_observed_once() {
    let mut combined = pending();
    let events = vec![
        Event::Resolve(1),
        Event::Resolve(2),
        Event::Reject("x".to_string()),
        Event::Abort,
    ];
    let mut settled = Vec::new();
    for event in events {
        settled.push(combined.settle(event));
    }
    assert_eq!(settled, vec![true, false, false, false]);
    assert_eq!(combined.outcome(), &Some(Outcome::Success(1)));
}

#[test]
fn events_in_a_row_settle_with_the_first() {
    let mut combined = pending();
    assert!(!combined.settle_all(Vec::new()));
    assert_eq!(combined.outcome(), &None);
    assert!(combined.settle_all(vec![Event::Abort, Event::Resolve(9)]));
    assert_eq!(combined.outcome(), &Some(Outcome::Aborted));
    assert!(!combined.settle_all(vec![Event::Resolve(1), Event::Reject("e".to_string())]));
    assert_eq!(combined.outcome(), &Some(Outcome::Aborted));
}

#[test]
fn pending_race_listens_and_settled_race_does_not() {
    let mut combined = pending();
    assert!(!combined.is_settled());
    assert!(combined.signal().is_subscribed());
    assert!(!combined.signal().aborted());
    combined.resolve(3);
    assert!(combined.is_settled());
    assert!(!combined.signal().is_subscribed());
    assert!(!combined.signal().aborted());
}

#[test]
fn late_signal_is_recorded_but_changes_no_outcome() {
    let mut combined = pending();
    combined.reject("first".to_string());
    assert!(!combined.abort());
    assert!(combined.signal().aborted());
    assert_eq!(combined.outcome(), &Some(Outcome::Failure("first".to_string())));
}

#[test]
fn abort_message_is_fixed() {
    assert_eq!(ABORT_MESSAGE, "Request has been aborted");
}

#[test]
fn promise_keeps_its_first_result() {
    let mut p: Promise<u32, String> = Promise::pending();
    assert!(!p.is_settled());
    assert!(p.settle(Ok(1)));
    assert!(p.is_settled());
    assert!(!p.settle(Err("later".to_string())));
    let combined = make(AbortSignal::new(), p);
    assert_eq!(combined.outcome(), &Some(Outcome::Success(1)));
}

#[test]
fn subscription_is_spent_by_the_first_firing() {
    let mut signal = AbortSignal::new();
    assert!(!signal.aborted());
    assert!(!signal.is_subscribed());
    assert!(!signal.subscribe());
    assert!(signal.is_subscribed());
    assert!(signal.fire());
    assert!(signal.aborted());
    assert!(!signal.is_subscribed());
    assert!(!signal.fire());
}

#[test]
fn firing_without_a_callback_invokes_nothing() {
    let mut signal = AbortSignal::new();
    assert!(!signal.fire());
    assert!(signal.aborted());
}

#[test]
fn subscribing_to_a_set_signal_invokes_the_callback_at_once() {
    let mut signal = AbortSignal::new();
    signal.fire();
    assert!(signal.subscribe());
    assert!(!signal.is_subscribed());
    assert!(!signal.fire());
}

#[test]
fn unsubscribed_callback_is_not_invoked() {
    let mut signal = AbortSignal::new();
    signal.subscribe();
    signal.unsubscribe();
    assert!(!signal.is_subscribed());
    assert!(!signal.fire());
}

#[test]
fn controller_triggers_once() {
    let mut controller = AbortController::new(9);
    assert_eq!(controller.operation(), 9);
    assert!(!controller.is_triggered());
    assert!(!controller.signal().aborted());
    assert_eq!(controller.abort(), Some(9));
    assert!(controller.is_triggered());
    assert_eq!(controller.abort(), None);
    assert!(controller.signal().aborted());
    assert!(!controller.signal().is_subscribed());
}

#[test]
fn triggered_controller_hands_out_a_set_signal() {
    let mut controller = AbortController::new(0);
    controller.abort();
    let combined: CancellablePromise<u32, String> =
        make(controller.signal(), Promise::pending());
    assert_eq!(combined.outcome(), &Some(Outcome::Aborted));
}
