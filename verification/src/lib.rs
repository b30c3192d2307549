//! Client-side engine for a fixed-cadence robot control protocol.
//!
//! The crate models the commanding side of a datagram + stream protocol:
//! typed bit-flag wire values, the operating-mode state machine, the
//! datagram codec, and the three independently synchronized substates
//! (send, receive, stream) that back a driver-station session.

pub mod codec;
pub mod flags;
pub mod mode;
pub mod recv;
pub mod send;
pub mod state;
pub mod tcp;
