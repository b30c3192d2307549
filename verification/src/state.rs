//! The aggregate session state: one independently lockable handle per
//! substate, shared by the sender, receiver and stream tasks and by the
//! application for the lifetime of a session.
//!
//! No single lock covers more than one substate, and no accessor returns a
//! combined guard: the three tasks proceed without blocking on each
//! other's unrelated work, and holding at most one substate's guard at a
//! time rules out lock-ordering deadlock by construction. The locks
//! themselves are opaque here; what each substate's methods do under a
//! guard is stated and proved on the substate types.

use crate::flags::Alliance;
use crate::recv::RecvState;
use crate::send::SendState;
use crate::tcp::TcpState;
use tokio::sync::RwLock;
use vstd::prelude::*;

verus! {

/// The operating mode of the driver station itself: normal mode connects
/// to the team-numbered host, simulation mode to the local machine. Fixed
/// for the lifetime of a client instance; never derived from traffic.
#[derive(Debug, Copy, Clone, PartialEq, Eq, Structural)]
pub enum DsMode {
    Normal,
    Simulation,
}

/// Relies on tokio::sync::RwLock being a reader-writer lock over a value
/// of its type parameter; declared so the lock can stand in signatures and
/// fields. Its contents are opaque here: nothing about the value behind a
/// lock is assumed or provable in this crate.
#[verifier::external_type_specification]
#[verifier::external_body]
#[verifier::reject_recursive_types(T)]
pub struct ExRwLock<T: ?Sized>(RwLock<T>);

/// Relies on tokio::sync::RwLock::new: wraps the given value in a fresh,
/// unlocked reader-writer lock.
#[verifier::external_body]
fn new_lock<T>(value: T) -> RwLock<T> {
    RwLock::new(value)
}

/// The core state of the driver station: the send, receive and stream
/// substates, each behind its own independent reader-writer lock. Created
/// once per session with the initial alliance and shared, never cloned or
/// reset in place; a new session requires a new `DsState`.
pub struct DsState {
    pub send_state: RwLock<SendState>,
    pub recv_state: RwLock<RecvState>,
    pub tcp_state: RwLock<TcpState>,
}

impl DsState {
    /// Builds the session state: the send substate starts disabled with no
    /// desired mode and sequence counter zero for the given alliance, the
    /// receive substate reports no data yet, and the stream substate is
    /// disconnected with an empty partial buffer.
    pub fn new(alliance: Alliance) -> (r: DsState)
        requires
            alliance.wf(),
    {
        DsState {
            send_state: new_lock(SendState::new(alliance)),
            recv_state: new_lock(RecvState::new()),
            tcp_state: new_lock(TcpState::new()),
        }
    }

    /// The lock over the send substate, and no other.
    pub fn send(&self) -> (r: &RwLock<SendState>)
        ensures
            r == &self.send_state,
    {
        &self.send_state
    }

    /// The lock over the receive substate, and no other.
    pub fn recv(&self) -> (r: &RwLock<RecvState>)
        ensures
            r == &self.recv_state,
    {
        &self.recv_state
    }

    /// The lock over the stream substate, and no other.
    pub fn tcp(&self) -> (r: &RwLock<TcpState>)
        ensures
            r == &self.tcp_state,
    {
        &self.tcp_state
    }
}

} // verus!
