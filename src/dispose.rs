use crate::error::ErrorKind;
use std::sync::atomic::{AtomicBool, Ordering};
use std::sync::mpsc::Sender;
use std::sync::Arc;
use vstd::prelude::*;

verus! {

#[verifier::external_type_specification]
#[verifier::external_body]
#[verifier::reject_recursive_types(T)]
pub struct ExSender<T>(std::sync::mpsc::Sender<T>);

/// Relies on std's `mpsc::Sender::send`: it fails only where the receiving
/// end is gone, which depends on the other thread, so nothing is promised.
#[verifier::external_body]
fn send_stop(tx: &Sender<()>) -> (r: bool) {
    tx.send(()).is_ok()
}

/// What holds after one `dispose`, from whether the handle was closed
/// before (`before`) and after (`after`), and what it returned: the handle is
/// closed; a closed handle returns `Ok` and stays as it was; a broken
/// cancellation channel is the one failure.
pub open spec fn disposed(before: bool, after: bool, r: Result<(), ErrorKind>) -> bool {
    &&& after
    &&& before ==> r is Ok
    &&& (r is Ok || r == Err::<(), ErrorKind>(ErrorKind::Signal))
}

/// The caller's handle on a running receive loop: the only way to stop it.
pub struct MessageRecvDisposable {
    closed: bool,
    tx: Sender<()>,
    connection_alive: Arc<AtomicBool>,
}

impl View for MessageRecvDisposable {
    /// Whether the handle has been disposed.
    type V = bool;

    closed spec fn view(&self) -> bool {
        self.closed
    }
}

impl MessageRecvDisposable {
    /// A handle that stops its loop through `tx` and reads the loop's
    /// liveness from `connection_alive`.
    pub fn new(tx: Sender<()>, connection_alive: Arc<AtomicBool>) -> (r: MessageRecvDisposable)
        ensures
            !r@,
    {
        MessageRecvDisposable { closed: false, tx, connection_alive }
    }

    /// Stops the loop: marks the connection not alive first, so that
    /// readers see it at once, then signals the loop. Disposing again does
    /// nothing. A broken channel is reported, and the handle is closed all
    /// the same.
    pub fn dispose(&mut self) -> (r: Result<(), ErrorKind>)
        ensures
            disposed(old(self)@, final(self)@, r),
    {
        if !self.closed {
            self.connection_alive.store(false, Ordering::Relaxed);
            let signalled = send_stop(&self.tx);
            self.closed = true;
            if !signalled {
                return Err(ErrorKind::Signal);
            }
        }
        Ok(())
    }

    /// Whether the handle has been disposed.
    pub fn is_closed(&self) -> (r: bool)
        ensures
            r == self@,
    {
        self.closed
    }

    /// Whether the loop holds a live connection; the loop and `dispose`
    /// write it from their threads.
    pub fn is_connection_alive(&self) -> bool {
        self.connection_alive.load(Ordering::Relaxed)
    }
}

/// Disposing twice leaves the handle as once: closed, and the second call
/// returns `Ok` and changes nothing.
pub proof fn lemma_dispose_idempotent(
    before: bool,
    once: bool,
    r1: Result<(), ErrorKind>,
    twice: bool,
    r2: Result<(), ErrorKind>,
)
    requires
        disposed(before, once, r1),
        disposed(once, twice, r2),
    ensures
        once && twice,
        r2 is Ok,
{
}

} // verus!
