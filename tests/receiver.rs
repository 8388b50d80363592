use nanomsg::error::{ErrorKind, TransportError};
use nanomsg::receiver::{
    DeliveryStatus, LoopAction, LoopEvent, LoopPhase, ReceiveLoop, RetryPolicy,
    DEFAULT_BACKOFF_BASE_MS, DEFAULT_MAX_RETRIES,
};

fn listening(policy: RetryPolicy) -> ReceiveLoop {
    let mut l = ReceiveLoop::new(policy);
    assert_eq!(l.phase(), LoopPhase::Connecting);
    assert_eq!(l.step(LoopEvent::Dialed(true)), LoopAction::PollCancel);
    assert!(l.is_alive());
    l
}

fn receive(l: &mut ReceiveLoop, m: Vec<u8>) -> LoopAction {
    assert_eq!(l.step(LoopEvent::CancelPolled(false)), LoopAction::Receive);
    let a = l.step(LoopEvent::Received(Ok(m)));
    assert_eq!(l.step(LoopEvent::Delivered(DeliveryStatus::Queued)), LoopAction::PollCancel);
    a
}

fn lose_transport(l: &mut ReceiveLoop) {
    assert_eq!(l.step(LoopEvent::CancelPolled(false)), LoopAction::Receive);
    assert_eq!(l.step(LoopEvent::Received(Err(TransportError::Closed))), LoopAction::PollCancel);
    assert_eq!(l.phase(), LoopPhase::Backoff);
    assert!(!l.is_alive());
}

/// Runs failed reconnect attempts until the loop stops asking to dial;
/// returns how many dials it asked for and the final action.
fn fail_redials(l: &mut ReceiveLoop) -> (u32, LoopAction) {
    let mut dials = 0u32;
    loop {
        match l.step(LoopEvent::CancelPolled(false)) {
            LoopAction::Sleep(_) => {}
            other => return (dials, other),
        }
        assert_eq!(l.step(LoopEvent::Slept), LoopAction::Dial);
        dials += 1;
        assert_eq!(l.step(LoopEvent::Dialed(false)), LoopAction::PollCancel);
        assert!(dials <= 100);
    }
}

#[test]
fn default_policy() {
    let p = RetryPolicy::default();
    assert_eq!(p.max_retries, DEFAULT_MAX_RETRIES);
    assert_eq!(p.backoff_base_ms, DEFAULT_BACKOFF_BASE_MS);
    assert_eq!(p, RetryPolicy::new(3, 1000));
}

#[test]
fn failed_first_dial_is_terminal_without_retry() {
    let mut l = ReceiveLoop::new(RetryPolicy::default());
    assert_eq!(l.step(LoopEvent::Dialed(false)), LoopAction::Fail(ErrorKind::Connection));
    assert!(l.is_terminated());
    assert!(!l.is_alive());
    assert_eq!(l.step(LoopEvent::Slept), LoopAction::Ignore);
}

#[test]
fn cancellation_shuts_down_quietly() {
    let mut l = listening(RetryPolicy::default());
    assert_eq!(l.step(LoopEvent::CancelPolled(true)), LoopAction::Shutdown);
    assert!(l.is_terminated());
    assert!(!l.is_alive());
}

#[test]
fn nothing_is_delivered_after_cancellation() {
    let mut l = listening(RetryPolicy::default());
    assert_eq!(receive(&mut l, vec![1]), LoopAction::Deliver(vec![1]));
    assert_eq!(l.step(LoopEvent::CancelPolled(true)), LoopAction::Shutdown);
    assert_eq!(l.step(LoopEvent::Received(Ok(vec![2]))), LoopAction::Ignore);
    assert_eq!(l.step(LoopEvent::CancelPolled(false)), LoopAction::Ignore);
    assert_eq!(l.step(LoopEvent::Dialed(true)), LoopAction::Ignore);
    assert_eq!(l.step(LoopEvent::Delivered(DeliveryStatus::Queued)), LoopAction::Ignore);
    assert!(l.is_terminated());
}

#[test]
fn message_in_flight_at_cancellation_is_the_last() {
    let mut l = listening(RetryPolicy::default());
    assert_eq!(l.step(LoopEvent::CancelPolled(false)), LoopAction::Receive);
    assert_eq!(l.step(LoopEvent::Received(Ok(vec![9]))), LoopAction::Deliver(vec![9]));
    assert_eq!(l.step(LoopEvent::Delivered(DeliveryStatus::Queued)), LoopAction::PollCancel);
    assert_eq!(l.step(LoopEvent::CancelPolled(true)), LoopAction::Shutdown);
}

#[test]
fn cancellation_during_backoff_ends_without_error() {
    let mut l = listening(RetryPolicy::default());
    lose_transport(&mut l);
    assert_eq!(l.step(LoopEvent::CancelPolled(true)), LoopAction::Shutdown);
    assert!(l.is_terminated());
}

#[test]
fn host_closing_ends_loop() {
    let mut l = listening(RetryPolicy::default());
    assert_eq!(l.step(LoopEvent::CancelPolled(false)), LoopAction::Receive);
    assert_eq!(l.step(LoopEvent::Received(Ok(vec![5]))), LoopAction::Deliver(vec![5]));
    assert_eq!(l.step(LoopEvent::Delivered(DeliveryStatus::Closing)), LoopAction::Shutdown);
    assert!(l.is_terminated());
    assert!(!l.is_alive());
}

#[test]
fn timeout_keeps_listening() {
    let mut l = listening(RetryPolicy::default());
    assert_eq!(l.step(LoopEvent::CancelPolled(false)), LoopAction::Receive);
    assert_eq!(l.step(LoopEvent::Received(Err(TransportError::TimedOut))), LoopAction::PollCancel);
    assert_eq!(l.phase(), LoopPhase::Polling);
    assert!(l.is_alive());
    assert_eq!(l.retry_count(), 0);
}

#[test]
fn retries_are_bounded() {
    let mut l = listening(RetryPolicy::default());
    lose_transport(&mut l);
    let (dials, last) = fail_redials(&mut l);
    assert_eq!(dials, 3);
    assert_eq!(last, LoopAction::Fail(ErrorKind::RetriesExhausted));
    assert!(l.is_terminated());
    assert_eq!(l.step(LoopEvent::Slept), LoopAction::Ignore);
    assert_eq!(l.step(LoopEvent::CancelPolled(false)), LoopAction::Ignore);
}

#[test]
fn zero_retries_give_up_at_once() {
    let mut l = listening(RetryPolicy::new(0, 10));
    lose_transport(&mut l);
    assert_eq!(l.step(LoopEvent::CancelPolled(false)), LoopAction::Fail(ErrorKind::RetriesExhausted));
}

#[test]
fn backoff_grows_linearly() {
    let mut l = listening(RetryPolicy::new(3, 250));
    assert_eq!(l.step(LoopEvent::CancelPolled(false)), LoopAction::Receive);
    assert_eq!(l.step(LoopEvent::Received(Err(TransportError::Other))), LoopAction::PollCancel);
    let mut pauses = Vec::new();
    for _ in 0..3 {
        match l.step(LoopEvent::CancelPolled(false)) {
            LoopAction::Sleep(ms) => pauses.push(ms),
            other => panic!("unexpected action {:?}", other),
        }
        assert_eq!(l.step(LoopEvent::Slept), LoopAction::Dial);
        assert_eq!(l.step(LoopEvent::Dialed(false)), LoopAction::PollCancel);
    }
    assert_eq!(pauses, vec![250, 500, 750]);
    assert_eq!(l.retry_count(), 3);
}

#[test]
fn largest_backoff_does_not_overflow() {
    let mut l = listening(RetryPolicy::new(u32::MAX, u32::MAX));
    lose_transport(&mut l);
    assert_eq!(l.step(LoopEvent::CancelPolled(false)), LoopAction::Sleep(u32::MAX as u64));
}

#[test]
fn receive_after_reconnect_resets_retries() {
    let mut l = listening(RetryPolicy::default());
    lose_transport(&mut l);
    assert!(matches!(l.step(LoopEvent::CancelPolled(false)), LoopAction::Sleep(1000)));
    assert_eq!(l.step(LoopEvent::Slept), LoopAction::Dial);
    assert_eq!(l.step(LoopEvent::Dialed(false)), LoopAction::PollCancel);
    assert!(matches!(l.step(LoopEvent::CancelPolled(false)), LoopAction::Sleep(2000)));
    assert_eq!(l.step(LoopEvent::Slept), LoopAction::Dial);
    assert_eq!(l.step(LoopEvent::Dialed(true)), LoopAction::PollCancel);
    assert!(l.is_alive());
    assert_eq!(l.retry_count(), 2);
    assert_eq!(receive(&mut l, vec![4]), LoopAction::Deliver(vec![4]));
    assert_eq!(l.retry_count(), 0);
    lose_transport(&mut l);
    let (dials, last) = fail_redials(&mut l);
    assert_eq!(dials, 3);
    assert_eq!(last, LoopAction::Fail(ErrorKind::RetriesExhausted));
}

#[test]
fn reconnect_alone_does_not_reset_retries() {
    let mut l = listening(RetryPolicy::default());
    for expected in 1..=3u32 {
        lose_transport(&mut l);
        assert!(matches!(l.step(LoopEvent::CancelPolled(false)), LoopAction::Sleep(_)));
        assert_eq!(l.step(LoopEvent::Slept), LoopAction::Dial);
        assert_eq!(l.step(LoopEvent::Dialed(true)), LoopAction::PollCancel);
        assert_eq!(l.retry_count(), expected);
    }
    lose_transport(&mut l);
    assert_eq!(l.step(LoopEvent::CancelPolled(false)), LoopAction::Fail(ErrorKind::RetriesExhausted));
}

#[test]
fn messages_are_delivered_in_order() {
    let mut l = listening(RetryPolicy::default());
    let mut delivered = Vec::new();
    for m in [b"M1".to_vec(), b"M2".to_vec(), b"M3".to_vec()] {
        match receive(&mut l, m) {
            LoopAction::Deliver(d) => delivered.push(d),
            other => panic!("unexpected action {:?}", other),
        }
    }
    assert_eq!(delivered, vec![b"M1".to_vec(), b"M2".to_vec(), b"M3".to_vec()]);
}

#[test]
fn unexpected_events_are_ignored() {
    let mut l = ReceiveLoop::new(RetryPolicy::default());
    assert_eq!(l.step(LoopEvent::CancelPolled(true)), LoopAction::Ignore);
    assert_eq!(l.step(LoopEvent::Received(Ok(vec![1]))), LoopAction::Ignore);
    assert_eq!(l.phase(), LoopPhase::Connecting);
}
