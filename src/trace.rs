//! Runs of the receive loop over sequences of events, and what holds of
//! every such run.
use crate::error::{ErrorKind, TransportError};
use crate::receiver::{
    awaits, next, DeliveryStatus, LoopAction, LoopEvent, LoopPhase, LoopState,
};
use vstd::prelude::*;

verus! {

/// The state reached from `s` over `events`, and the actions asked for on
/// the way, one per event.
pub open spec fn run(s: LoopState, events: Seq<LoopEvent>) -> (LoopState, Seq<LoopAction>)
    decreases events.len(),
{
    if events.len() == 0 {
        (s, Seq::empty())
    } else {
        let first = next(s, events[0]);
        let rest = run(first.0, events.drop_first());
        (rest.0, seq![first.1] + rest.1)
    }
}

/// Whether each event of `events` is the one that the loop waits for when
/// it comes.
pub open spec fn accepted(s: LoopState, events: Seq<LoopEvent>) -> bool
    decreases events.len(),
{
    events.len() == 0 || (awaits(s, events[0]) && accepted(
        next(s, events[0]).0,
        events.drop_first(),
    ))
}

/// The messages that receives returned, in order.
pub open spec fn received_messages(events: Seq<LoopEvent>) -> Seq<Vec<u8>>
    decreases events.len(),
{
    if events.len() == 0 {
        Seq::empty()
    } else {
        match events[0] {
            LoopEvent::Received(Ok(m)) => seq![m] + received_messages(events.drop_first()),
            _ => received_messages(events.drop_first()),
        }
    }
}

/// The messages handed to the handler, in order.
pub open spec fn delivered_messages(actions: Seq<LoopAction>) -> Seq<Vec<u8>>
    decreases actions.len(),
{
    if actions.len() == 0 {
        Seq::empty()
    } else {
        match actions[0] {
            LoopAction::Deliver(m) => seq![m] + delivered_messages(actions.drop_first()),
            _ => delivered_messages(actions.drop_first()),
        }
    }
}

/// How many dials `actions` asks for.
pub open spec fn dial_count(actions: Seq<LoopAction>) -> nat
    decreases actions.len(),
{
    if actions.len() == 0 {
        0
    } else {
        (if actions[0] == LoopAction::Dial {
            1nat
        } else {
            0nat
        }) + dial_count(actions.drop_first())
    }
}

/// One reconnect attempt that fails: the poll finds no cancellation, the
/// pause ends, the redial fails.
pub open spec fn failed_redial() -> Seq<LoopEvent> {
    seq![LoopEvent::CancelPolled(false), LoopEvent::Slept, LoopEvent::Dialed(false)]
}

/// `n` failed reconnect attempts in a row.
pub open spec fn failed_redials(n: nat) -> Seq<LoopEvent>
    decreases n,
{
    if n == 0 {
        Seq::empty()
    } else {
        failed_redial() + failed_redials((n - 1) as nat)
    }
}

/// Running over two sequences in turn is running over the one after the
/// other.
pub proof fn lemma_run_append(s: LoopState, a: Seq<LoopEvent>, b: Seq<LoopEvent>)
    ensures
        run(s, a + b).0 == run(run(s, a).0, b).0,
        run(s, a + b).1 == run(s, a).1 + run(run(s, a).0, b).1,
    decreases a.len(),
{
    if a.len() == 0 {
        assert(a + b =~= b);
        assert(run(s, a).1 + run(s, b).1 =~= run(s, b).1);
    } else {
        let first = next(s, a[0]);
        assert((a + b)[0] == a[0]);
        assert((a + b).drop_first() =~= a.drop_first() + b);
        lemma_run_append(first.0, a.drop_first(), b);
        let x = run(first.0, a.drop_first()).1;
        let y = run(run(first.0, a.drop_first()).0, b).1;
        assert(seq![first.1] + (x + y) =~= (seq![first.1] + x) + y);
    }
}

/// Counting dials over two action sequences in turn adds up.
pub proof fn lemma_dial_count_append(a: Seq<LoopAction>, b: Seq<LoopAction>)
    ensures
        dial_count(a + b) == dial_count(a) + dial_count(b),
    decreases a.len(),
{
    if a.len() == 0 {
        assert(a + b =~= b);
    } else {
        assert((a + b)[0] == a[0]);
        assert((a + b).drop_first() =~= a.drop_first() + b);
        lemma_dial_count_append(a.drop_first(), b);
    }
}

/// An ended loop stays ended and asks for nothing, whatever comes.
pub proof fn lemma_terminated_is_silent(s: LoopState, events: Seq<LoopEvent>)
    requires
        s.phase == LoopPhase::Terminated,
    ensures
        run(s, events).0 == s,
        forall|i: int| 0 <= i < run(s, events).1.len() ==> run(s, events).1[i] == LoopAction::Ignore,
        run(s, events).1.len() == events.len(),
        dial_count(run(s, events).1) == 0,
        delivered_messages(run(s, events).1) == Seq::<Vec<u8>>::empty(),
    decreases events.len(),
{
    if events.len() > 0 {
        lemma_terminated_is_silent(s, events.drop_first());
        let rest = run(s, events.drop_first()).1;
        assert((seq![LoopAction::Ignore] + rest)[0] == LoopAction::Ignore);
        assert((seq![LoopAction::Ignore] + rest).drop_first() =~= rest);
    }
}

/// Once a poll finds the cancellation signal, the loop closes its transport
/// and ends, no longer live; afterwards, whatever happens, it hands nothing
/// to the handler and dials nothing.
pub proof fn lemma_no_delivery_after_cancel(s: LoopState, later: Seq<LoopEvent>)
    requires
        s.phase == LoopPhase::Polling || s.phase == LoopPhase::Backoff,
    ensures
        next(s, LoopEvent::CancelPolled(true)).1 == LoopAction::Shutdown,
        next(s, LoopEvent::CancelPolled(true)).0.phase == LoopPhase::Terminated,
        !next(s, LoopEvent::CancelPolled(true)).0.alive,
        forall|i: int|
            0 <= i < run(next(s, LoopEvent::CancelPolled(true)).0, later).1.len() ==> run(
                next(s, LoopEvent::CancelPolled(true)).0,
                later,
            ).1[i] == LoopAction::Ignore,
{
    lemma_terminated_is_silent(next(s, LoopEvent::CancelPolled(true)).0, later);
}

/// Cancellation takes effect within one receive: between a receive and the
/// next cancellation poll the loop delivers at most the one message received.
pub proof fn lemma_poll_follows_receive(s: LoopState, e1: LoopEvent, e2: LoopEvent)
    requires
        s.phase == LoopPhase::Receiving,
        awaits(s, e1),
        awaits(next(s, e1).0, e2),
    ensures
        next(s, e1).1 == LoopAction::PollCancel || next(next(s, e1).0, e2).1
            == LoopAction::PollCancel || next(next(s, e1).0, e2).1 == LoopAction::Shutdown,
{
}

/// Each failed reconnect attempt raises the retry counter by one and dials
/// once, as long as the bound is not reached.
pub proof fn lemma_failed_redials(s: LoopState, n: nat)
    requires
        s.wf(),
        s.phase == LoopPhase::Backoff,
        s.retry_count + n <= s.policy.max_retries,
    ensures
        run(s, failed_redials(n)).0 == (LoopState {
            retry_count: (s.retry_count + n) as u32,
            ..s
        }),
        dial_count(run(s, failed_redials(n)).1) == n,
    decreases n,
{
    if n > 0 {
        reveal_with_fuel(run, 4);
        reveal_with_fuel(dial_count, 4);
        let fr = failed_redial();
        let s1 = next(s, LoopEvent::CancelPolled(false));
        let s2 = next(s1.0, LoopEvent::Slept);
        let s3 = next(s2.0, LoopEvent::Dialed(false));
        assert(fr.drop_first() =~= seq![LoopEvent::Slept, LoopEvent::Dialed(false)]);
        assert(fr.drop_first().drop_first() =~= seq![LoopEvent::Dialed(false)]);
        assert(fr.drop_first().drop_first().drop_first() =~= Seq::<LoopEvent>::empty());
        let acts = run(s, fr).1;
        assert(run(s, fr).0 == s3.0);
        assert(acts =~= seq![s1.1, s2.1, s3.1]);
        assert(acts.drop_first() =~= seq![s2.1, s3.1]);
        assert(acts.drop_first().drop_first() =~= seq![s3.1]);
        assert(acts.drop_first().drop_first().drop_first() =~= Seq::<LoopAction>::empty());
        assert(dial_count(acts) == 1);
        lemma_run_append(s, fr, failed_redials((n - 1) as nat));
        lemma_failed_redials(s3.0, (n - 1) as nat);
        lemma_dial_count_append(acts, run(s3.0, failed_redials((n - 1) as nat)).1);
    }
}

/// With `N` reconnect attempts allowed, a loop that has lost its transport
/// makes exactly as many attempts as are left (all `N` after a received
/// message), then reports that the retries are exhausted, ends, and dials
/// no more whatever comes after.
pub proof fn lemma_retry_bound(s: LoopState, after: Seq<LoopEvent>)
    requires
        s.wf(),
        s.phase == LoopPhase::Backoff,
    ensures
        ({
            let tries = failed_redials((s.policy.max_retries - s.retry_count) as nat).push(
                LoopEvent::CancelPolled(false),
            );
            &&& run(s, tries).0.phase == LoopPhase::Terminated
            &&& run(s, tries).1.last() == LoopAction::Fail(ErrorKind::RetriesExhausted)
            &&& dial_count(run(s, tries + after).1) == s.policy.max_retries - s.retry_count
        }),
{
    reveal_with_fuel(run, 2);
    reveal_with_fuel(dial_count, 2);
    let n = (s.policy.max_retries - s.retry_count) as nat;
    let redials = failed_redials(n);
    let poll = seq![LoopEvent::CancelPolled(false)];
    let tries = redials.push(LoopEvent::CancelPolled(false));
    assert(tries =~= redials + poll);
    lemma_failed_redials(s, n);
    lemma_run_append(s, redials, poll);
    let t = run(s, redials).0;
    assert(poll.drop_first() =~= Seq::<LoopEvent>::empty());
    let last = next(t, LoopEvent::CancelPolled(false));
    assert(run(t, poll).1 =~= seq![last.1]);
    assert(last.0.phase == LoopPhase::Terminated);
    assert(run(t, poll).1.drop_first() =~= Seq::<LoopAction>::empty());
    assert(dial_count(run(t, poll).1) == 0);
    lemma_dial_count_append(run(s, redials).1, run(t, poll).1);
    assert(dial_count(run(s, tries).1) == n);
    lemma_run_append(s, tries, after);
    lemma_terminated_is_silent(run(s, tries).0, after);
    lemma_dial_count_append(run(s, tries).1, run(run(s, tries).0, after).1);
}

/// A received message after a successful reconnect resets the retry
/// counter: when the transport is lost again, all `N` attempts are available.
pub proof fn lemma_retry_reset(s: LoopState, m: Vec<u8>, lost: TransportError)
    requires
        s.wf(),
        s.phase == LoopPhase::Reconnecting,
        lost != TransportError::TimedOut,
    ensures
        ({
            let events = seq![
                LoopEvent::Dialed(true),
                LoopEvent::CancelPolled(false),
                LoopEvent::Received(Ok(m)),
                LoopEvent::Delivered(DeliveryStatus::Queued),
                LoopEvent::CancelPolled(false),
                LoopEvent::Received(Err(lost)),
            ];
            let t = run(s, events).0;
            &&& t.phase == LoopPhase::Backoff
            &&& t.retry_count == 0
            &&& t.policy == s.policy
            &&& dial_count(
                run(t, failed_redials(s.policy.max_retries as nat).push(LoopEvent::CancelPolled(false))).1,
            ) == s.policy.max_retries
        }),
{
    let events = seq![
        LoopEvent::Dialed(true),
        LoopEvent::CancelPolled(false),
        LoopEvent::Received(Ok(m)),
        LoopEvent::Delivered(DeliveryStatus::Queued),
        LoopEvent::CancelPolled(false),
        LoopEvent::Received(Err(lost)),
    ];
    reveal_with_fuel(run, 7);
    assert(events.drop_first() =~= events.subrange(1, 6));
    assert(events.drop_first().drop_first() =~= events.subrange(2, 6));
    assert(events.subrange(2, 6).drop_first() =~= events.subrange(3, 6));
    assert(events.subrange(3, 6).drop_first() =~= events.subrange(4, 6));
    assert(events.subrange(4, 6).drop_first() =~= events.subrange(5, 6));
    assert(events.subrange(5, 6).drop_first() =~= Seq::<LoopEvent>::empty());
    let t = run(s, events).0;
    assert(t.phase == LoopPhase::Backoff && t.retry_count == 0 && t.policy == s.policy);
    lemma_retry_bound(t, Seq::empty());
    assert(failed_redials(s.policy.max_retries as nat).push(LoopEvent::CancelPolled(false)) + Seq::<
        LoopEvent,
    >::empty() =~= failed_redials(s.policy.max_retries as nat).push(
        LoopEvent::CancelPolled(false),
    ));
}

/// The loop hands messages to the handler in the order it received them,
/// each exactly once.
pub proof fn lemma_order_kept(s: LoopState, events: Seq<LoopEvent>)
    requires
        accepted(s, events),
    ensures
        delivered_messages(run(s, events).1) == received_messages(events),
    decreases events.len(),
{
    if events.len() > 0 {
        let first = next(s, events[0]);
        lemma_order_kept(first.0, events.drop_first());
        let rest = run(first.0, events.drop_first()).1;
        assert((seq![first.1] + rest)[0] == first.1);
        assert((seq![first.1] + rest).drop_first() =~= rest);
    }
}

} // verus!
