//! Receive-side session state: the most recently decoded inbound telemetry
//! and the read-only snapshot exposed to the application.

use crate::codec::{spec_decode, UdpResponsePacket};
use crate::flags::{Status, CODE_START};
use crate::mode::{mode_of_status_bits, Mode};
use vstd::prelude::*;

verus! {

/// Immutable snapshot of the receive-side state at call time: a copy, not
/// a live view. Until the first datagram arrives the zero/default value
/// means "no data yet".
#[derive(Debug, Copy, Clone, PartialEq, Eq, Structural)]
pub struct Trace {
    pub status: Status,
    pub mode: Option<Mode>,
    pub diagnostics: u8,
    pub battery_high: u8,
    pub battery_low: u8,
}

impl Trace {
    /// Whether the controller reports its user code as started.
    pub fn is_code_started(&self) -> (r: bool)
        ensures
            r == (self.diagnostics & CODE_START != 0),
    {
        self.diagnostics & CODE_START != 0
    }
}

/// Mutable receive-side state: the last-decoded status flags, the mode
/// derived from them (`None` when no mode flag is set), and the diagnostic
/// scalars carried alongside, passed through unmodified. Overwritten
/// wholesale on each successfully decoded datagram; retained unchanged
/// when a datagram fails to decode, so readers always observe the
/// last-known-good telemetry.
pub struct RecvState {
    pub status: Status,
    pub mode: Option<Mode>,
    pub diagnostics: u8,
    pub battery_high: u8,
    pub battery_low: u8,
}

/// The receive state a decoded packet overwrites the previous one with.
pub open spec fn spec_state_of(p: UdpResponsePacket) -> RecvState {
    RecvState {
        status: p.status,
        mode: mode_of_status_bits(p.status.bits),
        diagnostics: p.trace,
        battery_high: p.battery_high,
        battery_low: p.battery_low,
    }
}

impl RecvState {
    /// Fresh receive state: no data yet, all fields zero/none.
    pub fn new() -> (r: RecvState)
        ensures
            r.status.bits == 0,
            r.mode is None,
            r.diagnostics == 0,
            r.battery_high == 0,
            r.battery_low == 0,
    {
        RecvState { status: Status::new(0), mode: None, diagnostics: 0, battery_high: 0, battery_low: 0 }
    }

    /// Overwrites this state wholesale from one decoded packet, deriving
    /// the mode from the packet's status bits.
    pub fn apply(&mut self, p: &UdpResponsePacket)
        ensures
            *final(self) == spec_state_of(*p),
    {
        self.status = p.status;
        self.mode = Mode::from_status(p.status);
        self.diagnostics = p.trace;
        self.battery_high = p.battery_high;
        self.battery_low = p.battery_low;
    }

    /// Handles one inbound datagram: decodes it and, on success, consumes
    /// it and overwrites this state wholesale. On decode failure the
    /// datagram is dropped by the caller and this state is left exactly as
    /// it was — no partial overwrite — so the failure never disturbs the
    /// last-known-good telemetry; the next datagram is the retry vector.
    pub fn handle_datagram(&mut self, src: &mut Vec<u8>) -> (ok: bool)
        ensures
            ok == (spec_decode(old(src)@) is Ok),
            ok ==> *final(self) == spec_state_of(spec_decode(old(src)@).unwrap())
                && final(src)@ == Seq::<u8>::empty(),
            !ok ==> *final(self) == *old(self) && final(src)@ == old(src)@,
    {
        match UdpResponsePacket::decode(src) {
            Ok(packet) => {
                self.apply(&packet);
                true
            },
            Err(_) => false,
        }
    }

    /// Returns an immutable snapshot of this state at call time.
    pub fn trace(&self) -> (t: Trace)
        ensures
            t.status == self.status,
            t.mode == self.mode,
            t.diagnostics == self.diagnostics,
            t.battery_high == self.battery_high,
            t.battery_low == self.battery_low,
    {
        Trace {
            status: self.status,
            mode: self.mode,
            diagnostics: self.diagnostics,
            battery_high: self.battery_high,
            battery_low: self.battery_low,
        }
    }
}

} // verus!
