//! A resilient session over a duplex message socket: the session and
//! receive-loop state machines, the dispose handle of a running listener,
//! and block compression of payloads.

pub mod compress;
pub mod dispose;
pub mod error;
pub mod options;
pub mod receiver;
pub mod session;
pub mod trace;
