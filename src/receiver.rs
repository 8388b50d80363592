use crate::error::{ErrorKind, TransportError};
use vstd::prelude::*;

verus! {

/// Number of reconnect attempts a listener makes by default before it gives up.
pub const DEFAULT_MAX_RETRIES: u32 = 3;

/// Unit of the linear backoff between reconnect attempts, in milliseconds.
pub const DEFAULT_BACKOFF_BASE_MS: u32 = 1000;

/// How a receive loop retries after losing its transport: at most
/// `max_retries` reconnect attempts in a row, the k-th after a pause of
/// `k * backoff_base_ms` milliseconds.
#[derive(Clone, Copy, Debug, PartialEq, Eq, Structural)]
pub struct RetryPolicy {
    pub max_retries: u32,
    pub backoff_base_ms: u32,
}

impl RetryPolicy {
    pub fn new(max_retries: u32, backoff_base_ms: u32) -> (r: RetryPolicy)
        ensures
            r.max_retries == max_retries,
            r.backoff_base_ms == backoff_base_ms,
    {
        RetryPolicy { max_retries, backoff_base_ms }
    }
}

impl Default for RetryPolicy {
    fn default() -> (r: RetryPolicy)
        ensures
            r.max_retries == DEFAULT_MAX_RETRIES,
            r.backoff_base_ms == DEFAULT_BACKOFF_BASE_MS,
    {
        RetryPolicy::new(DEFAULT_MAX_RETRIES, DEFAULT_BACKOFF_BASE_MS)
    }
}

/// Where a receive loop stands: each phase but the last waits for one kind
/// of event.
#[derive(Clone, Copy, Debug, PartialEq, Eq, Structural)]
pub enum LoopPhase {
    /// Waits for the first dial of the endpoint.
    Connecting,
    /// Waits for the cancellation poll that precedes each receive.
    Polling,
    /// Waits for one receive, bounded by the receive timeout.
    Receiving,
    /// Waits for the status of handing a message to the handler.
    Delivering,
    /// Lost the transport; waits for the cancellation poll before retrying.
    Backoff,
    /// Waits out the pause before a reconnect attempt.
    Sleeping,
    /// Waits for a reconnect attempt on a fresh transport.
    Reconnecting,
    /// The loop has ended; nothing more is done or delivered.
    Terminated,
}

/// What the consumer's dispatcher said when handed a message.
#[derive(Clone, Copy, Debug, PartialEq, Eq, Structural)]
pub enum DeliveryStatus {
    /// The message was queued for the handler.
    Queued,
    /// The host is shutting down and takes no more calls.
    Closing,
}

/// The outcome of the outside work that the loop asked for last.
#[derive(Debug, PartialEq, Eq)]
pub enum LoopEvent {
    /// A dial of the endpoint succeeded (`true`) or failed.
    Dialed(bool),
    /// The cancellation signal was (`true`) or was not found set.
    CancelPolled(bool),
    /// One receive returned a message or failed.
    Received(Result<Vec<u8>, TransportError>),
    /// The dispatcher answered a delivery.
    Delivered(DeliveryStatus),
    /// The backoff pause is over.
    Slept,
}

/// The outside work that the loop asks for next.
#[derive(Debug, PartialEq, Eq)]
pub enum LoopAction {
    /// Dial the endpoint (on a fresh transport when reconnecting).
    Dial,
    /// Check the cancellation signal without blocking.
    PollCancel,
    /// Receive one message, bounded by the receive timeout.
    Receive,
    /// Hand the message to the handler without blocking.
    Deliver(Vec<u8>),
    /// Pause for this many milliseconds.
    Sleep(u64),
    /// Close the transport and end quietly.
    Shutdown,
    /// Hand this terminal error to the handler, close the transport and end.
    Fail(ErrorKind),
    /// The event was not the one awaited; nothing to do.
    Ignore,
}

/// The state of a receive loop as plain values.
#[derive(Clone, Copy, Debug, PartialEq, Eq, Structural)]
pub struct LoopState {
    pub phase: LoopPhase,
    /// Reconnect attempts made since the last received message.
    pub retry_count: u32,
    /// Whether the loop holds a live connection.
    pub alive: bool,
    pub policy: RetryPolicy,
}

impl LoopState {
    /// The retry counter never passes the policy's bound.
    pub open spec fn wf(self) -> bool {
        self.retry_count <= self.policy.max_retries
    }

    pub open spec fn with_phase(self, phase: LoopPhase) -> LoopState {
        LoopState { phase, ..self }
    }

    /// The ended loop: no live connection.
    pub open spec fn terminated(self) -> LoopState {
        LoopState { phase: LoopPhase::Terminated, alive: false, ..self }
    }
}

/// The state in which a loop begins: about to dial, no retries made.
pub open spec fn initial_state(policy: RetryPolicy) -> LoopState {
    LoopState { phase: LoopPhase::Connecting, retry_count: 0, alive: false, policy }
}

/// Whether `e` is the event that a loop in state `s` waits for.
pub open spec fn awaits(s: LoopState, e: LoopEvent) -> bool {
    match e {
        LoopEvent::Dialed(_) => s.phase == LoopPhase::Connecting || s.phase
            == LoopPhase::Reconnecting,
        LoopEvent::CancelPolled(_) => s.phase == LoopPhase::Polling || s.phase == LoopPhase::Backoff,
        LoopEvent::Received(_) => s.phase == LoopPhase::Receiving,
        LoopEvent::Delivered(_) => s.phase == LoopPhase::Delivering,
        LoopEvent::Slept => s.phase == LoopPhase::Sleeping,
    }
}

/// One transition of the receive loop.
///
/// - A failed first dial ends the loop with a connection error; no retry.
/// - A cancellation found by a poll ends the loop quietly.
/// - A received message resets the retry counter, marks the connection live
///   and is delivered; a timeout only leads to the next poll; any other
///   receive failure marks the connection lost and enters backoff.
/// - A dispatcher that is shutting down ends the loop quietly.
/// - In backoff, with the retries used up the loop ends with a terminal
///   error; otherwise the counter goes up by one and the loop pauses for the
///   counter times the base before redialing.
/// - A successful redial marks the connection live and resets nothing; a
///   failed one returns to backoff.
/// - An event that the loop does not wait for changes nothing.
pub open spec fn next(s: LoopState, e: LoopEvent) -> (LoopState, LoopAction) {
    if !awaits(s, e) {
        (s, LoopAction::Ignore)
    } else {
        match e {
            LoopEvent::Dialed(ok) => if ok {
                (LoopState { phase: LoopPhase::Polling, alive: true, ..s }, LoopAction::PollCancel)
            } else if s.phase == LoopPhase::Connecting {
                (s.terminated(), LoopAction::Fail(ErrorKind::Connection))
            } else {
                (s.with_phase(LoopPhase::Backoff), LoopAction::PollCancel)
            },
            LoopEvent::CancelPolled(cancelled) => if cancelled {
                (s.terminated(), LoopAction::Shutdown)
            } else if s.phase == LoopPhase::Polling {
                (s.with_phase(LoopPhase::Receiving), LoopAction::Receive)
            } else if s.retry_count >= s.policy.max_retries {
                (s.terminated(), LoopAction::Fail(ErrorKind::RetriesExhausted))
            } else {
                (
                    LoopState {
                        phase: LoopPhase::Sleeping,
                        retry_count: (s.retry_count + 1) as u32,
                        ..s
                    },
                    LoopAction::Sleep((s.policy.backoff_base_ms * (s.retry_count + 1)) as u64),
                )
            },
            LoopEvent::Received(r) => match r {
                Ok(m) => (
                    LoopState { phase: LoopPhase::Delivering, retry_count: 0, alive: true, ..s },
                    LoopAction::Deliver(m),
                ),
                Err(TransportError::TimedOut) => (
                    s.with_phase(LoopPhase::Polling),
                    LoopAction::PollCancel,
                ),
                Err(_) => (
                    LoopState { phase: LoopPhase::Backoff, alive: false, ..s },
                    LoopAction::PollCancel,
                ),
            },
            LoopEvent::Delivered(status) => match status {
                DeliveryStatus::Queued => (s.with_phase(LoopPhase::Polling), LoopAction::PollCancel),
                DeliveryStatus::Closing => (s.terminated(), LoopAction::Shutdown),
            },
            LoopEvent::Slept => (s.with_phase(LoopPhase::Reconnecting), LoopAction::Dial),
        }
    }
}

/// The receive loop's decisions, apart from the work they ask for: the owner
/// performs each action and hands the outcome back as the next event.
pub struct ReceiveLoop {
    state: LoopState,
}

impl View for ReceiveLoop {
    type V = LoopState;

    closed spec fn view(&self) -> LoopState {
        self.state
    }
}

impl ReceiveLoop {
    pub open spec fn wf(&self) -> bool {
        self@.wf()
    }

    /// A loop about to make its first dial, which is its first action.
    pub fn new(policy: RetryPolicy) -> (r: ReceiveLoop)
        ensures
            r@ == initial_state(policy),
            r.wf(),
    {
        ReceiveLoop {
            state: LoopState { phase: LoopPhase::Connecting, retry_count: 0, alive: false, policy },
        }
    }

    /// Takes the outcome of the last action and returns the next one.
    pub fn step(&mut self, event: LoopEvent) -> (act: LoopAction)
        requires
            old(self).wf(),
        ensures
            final(self).wf(),
            (final(self)@, act) == next(old(self)@, event),
    {
        let s = self.state;
        match event {
            LoopEvent::Dialed(ok) => {
                if s.phase != LoopPhase::Connecting && s.phase != LoopPhase::Reconnecting {
                    LoopAction::Ignore
                } else if ok {
                    self.state = LoopState { phase: LoopPhase::Polling, alive: true, ..s };
                    LoopAction::PollCancel
                } else if s.phase == LoopPhase::Connecting {
                    self.state = LoopState { phase: LoopPhase::Terminated, alive: false, ..s };
                    LoopAction::Fail(ErrorKind::Connection)
                } else {
                    self.state = LoopState { phase: LoopPhase::Backoff, ..s };
                    LoopAction::PollCancel
                }
            },
            LoopEvent::CancelPolled(cancelled) => {
                if s.phase != LoopPhase::Polling && s.phase != LoopPhase::Backoff {
                    LoopAction::Ignore
                } else if cancelled {
                    self.state = LoopState { phase: LoopPhase::Terminated, alive: false, ..s };
                    LoopAction::Shutdown
                } else if s.phase == LoopPhase::Polling {
                    self.state = LoopState { phase: LoopPhase::Receiving, ..s };
                    LoopAction::Receive
                } else if s.retry_count >= s.policy.max_retries {
                    self.state = LoopState { phase: LoopPhase::Terminated, alive: false, ..s };
                    LoopAction::Fail(ErrorKind::RetriesExhausted)
                } else {
                    let retry: u32 = s.retry_count + 1;
                    let base: u64 = s.policy.backoff_base_ms as u64;
                    assert(base * (retry as u64) <= u32::MAX * u32::MAX) by (nonlinear_arith)
                        requires
                            base <= u32::MAX,
                            retry <= u32::MAX,
                    ;
                    self.state = LoopState { phase: LoopPhase::Sleeping, retry_count: retry, ..s };
                    LoopAction::Sleep(base * (retry as u64))
                }
            },
            LoopEvent::Received(r) => {
                if s.phase != LoopPhase::Receiving {
                    LoopAction::Ignore
                } else {
                    match r {
                        Ok(m) => {
                            self.state = LoopState {
                                phase: LoopPhase::Delivering,
                                retry_count: 0,
                                alive: true,
                                ..s
                            };
                            LoopAction::Deliver(m)
                        },
                        Err(TransportError::TimedOut) => {
                            self.state = LoopState { phase: LoopPhase::Polling, ..s };
                            LoopAction::PollCancel
                        },
                        Err(_) => {
                            self.state = LoopState { phase: LoopPhase::Backoff, alive: false, ..s };
                            LoopAction::PollCancel
                        },
                    }
                }
            },
            LoopEvent::Delivered(status) => {
                if s.phase != LoopPhase::Delivering {
                    LoopAction::Ignore
                } else {
                    match status {
                        DeliveryStatus::Queued => {
                            self.state = LoopState { phase: LoopPhase::Polling, ..s };
                            LoopAction::PollCancel
                        },
                        DeliveryStatus::Closing => {
                            self.state = LoopState {
                                phase: LoopPhase::Terminated,
                                alive: false,
                                ..s
                            };
                            LoopAction::Shutdown
                        },
                    }
                }
            },
            LoopEvent::Slept => {
                if s.phase != LoopPhase::Sleeping {
                    LoopAction::Ignore
                } else {
                    self.state = LoopState { phase: LoopPhase::Reconnecting, ..s };
                    LoopAction::Dial
                }
            },
        }
    }

    pub fn phase(&self) -> (r: LoopPhase)
        ensures
            r == self@.phase,
    {
        self.state.phase
    }

    pub fn retry_count(&self) -> (r: u32)
        ensures
            r == self@.retry_count,
    {
        self.state.retry_count
    }

    /// Whether the loop holds a live connection.
    pub fn is_alive(&self) -> (r: bool)
        ensures
            r == self@.alive,
    {
        self.state.alive
    }

    /// Whether the loop has ended.
    pub fn is_terminated(&self) -> (r: bool)
        ensures
            r == (self@.phase == LoopPhase::Terminated),
    {
        self.state.phase == LoopPhase::Terminated
    }
}

} // verus!
