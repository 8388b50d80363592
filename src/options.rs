use vstd::prelude::*;

verus! {

/// Timeout used where an option is absent or negative, in milliseconds.
pub const DEFAULT_TIMEOUT_MS: u64 = 5000;

/// Receive and send timeouts of a transport, in milliseconds, as the caller
/// gave them.
#[derive(Clone, Copy, Debug, PartialEq, Eq)]
pub struct SocketOptions {
    pub recv_timeout: Option<i32>,
    pub send_timeout: Option<i32>,
}

/// The timeout that an option stands for: the value itself where it is
/// present and not negative, the default otherwise.
pub open spec fn effective_timeout_ms(t: Option<i32>) -> nat {
    match t {
        Some(ms) => if ms >= 0 {
            ms as nat
        } else {
            DEFAULT_TIMEOUT_MS as nat
        },
        None => DEFAULT_TIMEOUT_MS as nat,
    }
}

fn timeout_ms(t: Option<i32>) -> (r: u64)
    ensures
        r == effective_timeout_ms(t),
{
    match t {
        Some(ms) => if ms >= 0 {
            ms as u64
        } else {
            DEFAULT_TIMEOUT_MS
        },
        None => DEFAULT_TIMEOUT_MS,
    }
}

impl SocketOptions {
    /// Options with both timeouts left to the default.
    pub fn new() -> (r: SocketOptions)
        ensures
            r.recv_timeout.is_none(),
            r.send_timeout.is_none(),
    {
        SocketOptions { recv_timeout: None, send_timeout: None }
    }

    /// The receive timeout to configure on a transport.
    pub fn recv_timeout_ms(&self) -> (r: u64)
        ensures
            r == effective_timeout_ms(self.recv_timeout),
    {
        timeout_ms(self.recv_timeout)
    }

    /// The send timeout to configure on a transport.
    pub fn send_timeout_ms(&self) -> (r: u64)
        ensures
            r == effective_timeout_ms(self.send_timeout),
    {
        timeout_ms(self.send_timeout)
    }
}

impl Default for SocketOptions {
    fn default() -> (r: SocketOptions)
        ensures
            r.recv_timeout.is_none(),
            r.send_timeout.is_none(),
    {
        SocketOptions::new()
    }
}

} // verus!
