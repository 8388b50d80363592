use crate::error::{ErrorKind, TransportError};
use crate::options::SocketOptions;
use vstd::prelude::*;

verus! {

/// Where a session stands. `Closed` is final.
#[derive(Clone, Copy, Debug, PartialEq, Eq, Structural)]
pub enum SessionState {
    Disconnected,
    /// A dial is under way.
    Connecting,
    Connected,
    Closed,
}

/// How one request/reply round trip on the transport went.
#[derive(Debug, PartialEq, Eq)]
pub enum Exchange {
    /// The request could not be sent.
    SendFailed(TransportError),
    /// The request was sent and no reply came.
    ReplyFailed(TransportError),
    /// The request was sent and this reply came.
    Replied(Vec<u8>),
}

/// The error a request that could not be sent is reported as: a timeout
/// as such, any other failure as a send error.
pub open spec fn send_error(e: TransportError) -> ErrorKind {
    match e {
        TransportError::TimedOut => ErrorKind::Timeout,
        _ => ErrorKind::Send,
    }
}

/// The error a reply that did not come is reported as.
pub open spec fn reply_error(e: TransportError) -> ErrorKind {
    match e {
        TransportError::TimedOut => ErrorKind::Timeout,
        TransportError::Closed => ErrorKind::Closed,
        TransportError::Other => ErrorKind::Send,
    }
}

fn to_send_error(e: TransportError) -> (r: ErrorKind)
    ensures
        r == send_error(e),
{
    match e {
        TransportError::TimedOut => ErrorKind::Timeout,
        _ => ErrorKind::Send,
    }
}

fn to_reply_error(e: TransportError) -> (r: ErrorKind)
    ensures
        r == reply_error(e),
{
    match e {
        TransportError::TimedOut => ErrorKind::Timeout,
        TransportError::Closed => ErrorKind::Closed,
        TransportError::Other => ErrorKind::Send,
    }
}

/// The session over one transport handle: its connection state and the
/// options its transport was made with. The owner performs the dial and the
/// round trips and reports how they went.
#[derive(Clone, Copy, Debug)]
pub struct Socket {
    state: SessionState,
    options: SocketOptions,
}

impl View for Socket {
    type V = SessionState;

    closed spec fn view(&self) -> SessionState {
        self.state
    }
}

impl Socket {
    /// The options the session's transport is made with.
    pub closed spec fn spec_options(&self) -> SocketOptions {
        self.options
    }

    #[verifier::when_used_as_spec(spec_options)]
    pub fn options(&self) -> (r: SocketOptions)
        ensures
            r == self.spec_options(),
    {
        self.options
    }

    /// A disconnected session; absent options mean both default timeouts.
    pub fn new(options: Option<SocketOptions>) -> (r: Socket)
        ensures
            r@ == SessionState::Disconnected,
            options is Some ==> r.spec_options() == options->Some_0,
            options is None ==> r.spec_options().recv_timeout is None && r.spec_options().send_timeout is None,
    {
        let options = match options {
            Some(o) => o,
            None => SocketOptions::new(),
        };
        Socket { state: SessionState::Disconnected, options }
    }

    /// Begins a connection: a disconnected session starts dialing, which the
    /// owner then does. A session that is connected or dialing refuses, as
    /// does a closed one; neither changes.
    pub fn connect(&mut self) -> (r: Result<(), ErrorKind>)
        ensures
            old(self)@ == SessionState::Disconnected ==> r is Ok && final(self)@
                == SessionState::Connecting,
            (old(self)@ == SessionState::Connecting || old(self)@ == SessionState::Connected)
                ==> r == Err::<(), ErrorKind>(ErrorKind::AlreadyConnected) && final(self)@ == old(self)@,
            old(self)@ == SessionState::Closed ==> r == Err::<(), ErrorKind>(ErrorKind::Closed)
                && final(self)@ == old(self)@,
            final(self).spec_options() == old(self).spec_options(),
    {
        match self.state {
            SessionState::Disconnected => {
                self.state = SessionState::Connecting;
                Ok(())
            },
            SessionState::Connecting | SessionState::Connected => Err(ErrorKind::AlreadyConnected),
            SessionState::Closed => Err(ErrorKind::Closed),
        }
    }

    /// Ends a dial begun by `connect`: the session is connected if the dial
    /// succeeded and disconnected otherwise. Outside a dial nothing changes
    /// and the state is reported as an error.
    pub fn dial_finished(&mut self, dialed: bool) -> (r: Result<(), ErrorKind>)
        ensures
            old(self)@ == SessionState::Connecting ==> (if dialed {
                r is Ok && final(self)@ == SessionState::Connected
            } else {
                r == Err::<(), ErrorKind>(ErrorKind::Connection) && final(self)@
                    == SessionState::Disconnected
            }),
            old(self)@ == SessionState::Disconnected ==> r == Err::<(), ErrorKind>(
                ErrorKind::NotConnected,
            ) && final(self)@ == old(self)@,
            old(self)@ == SessionState::Connected ==> r == Err::<(), ErrorKind>(
                ErrorKind::AlreadyConnected,
            ) && final(self)@ == old(self)@,
            old(self)@ == SessionState::Closed ==> r == Err::<(), ErrorKind>(ErrorKind::Closed)
                && final(self)@ == old(self)@,
            final(self).spec_options() == old(self).spec_options(),
    {
        match self.state {
            SessionState::Connecting => if dialed {
                self.state = SessionState::Connected;
                Ok(())
            } else {
                self.state = SessionState::Disconnected;
                Err(ErrorKind::Connection)
            },
            SessionState::Disconnected => Err(ErrorKind::NotConnected),
            SessionState::Connected => Err(ErrorKind::AlreadyConnected),
            SessionState::Closed => Err(ErrorKind::Closed),
        }
    }

    /// The result of one request/reply round trip: exactly the reply's bytes,
    /// or the failure of the send or of the receive. A session that is not
    /// connected reports that instead. A transport found closed closes the
    /// session; nothing else changes it.
    pub fn send(&mut self, exchange: Exchange) -> (r: Result<Vec<u8>, ErrorKind>)
        ensures
            old(self)@ != SessionState::Connected ==> r == Err::<Vec<u8>, ErrorKind>(
                ErrorKind::NotConnected,
            ) && final(self)@ == old(self)@,
            old(self)@ == SessionState::Connected ==> match exchange {
                Exchange::Replied(reply) => r == Ok::<Vec<u8>, ErrorKind>(reply) && final(self)@
                    == old(self)@,
                Exchange::SendFailed(e) => r == Err::<Vec<u8>, ErrorKind>(send_error(e))
                    && final(self)@ == (if e == TransportError::Closed {
                    SessionState::Closed
                } else {
                    old(self)@
                }),
                Exchange::ReplyFailed(e) => r == Err::<Vec<u8>, ErrorKind>(reply_error(e))
                    && final(self)@ == (if e == TransportError::Closed {
                    SessionState::Closed
                } else {
                    old(self)@
                }),
            },
            final(self).spec_options() == old(self).spec_options(),
    {
        if self.state != SessionState::Connected {
            return Err(ErrorKind::NotConnected);
        }
        match exchange {
            Exchange::Replied(reply) => Ok(reply),
            Exchange::SendFailed(e) => {
                if e == TransportError::Closed {
                    self.state = SessionState::Closed;
                }
                Err(to_send_error(e))
            },
            Exchange::ReplyFailed(e) => {
                if e == TransportError::Closed {
                    self.state = SessionState::Closed;
                }
                Err(to_reply_error(e))
            },
        }
    }

    /// Closes the session for good; closing again changes nothing.
    pub fn close(&mut self)
        ensures
            final(self)@ == SessionState::Closed,
            final(self).spec_options() == old(self).spec_options(),
    {
        self.state = SessionState::Closed;
    }

    /// Whether the session is connected.
    pub fn connected(&self) -> (r: bool)
        ensures
            r == (self@ == SessionState::Connected),
    {
        self.state == SessionState::Connected
    }

    pub fn state(&self) -> (r: SessionState)
        ensures
            r == self@,
    {
        self.state
    }

    /// The answer of a connection probe, given how its dial went (`None`
    /// where no transport could be made to dial with): whether the endpoint
    /// took the dial. A refused dial is an answer, never an error; the one
    /// error is a transport that could not be made.
    pub fn test_connection(dial: Option<Result<(), TransportError>>) -> (r: Result<bool, ErrorKind>)
        ensures
            dial matches Some(d) ==> r == Ok::<bool, ErrorKind>(d is Ok),
            dial is None ==> r == Err::<bool, ErrorKind>(ErrorKind::Connection),
    {
        match dial {
            Some(d) => Ok(d.is_ok()),
            None => Err(ErrorKind::Connection),
        }
    }
}

} // verus!
