//! Send-side session state: everything needed to build the next outbound
//! control packet, and the fixed-cadence packet production step.

use crate::codec::UdpControlPacket;
use crate::flags::{Alliance, Control, ENABLED};
use crate::mode::{control_bits_of_mode, Mode};
use vstd::arithmetic::div_mod::{lemma_add_mod_noop, lemma_mod_bound, lemma_small_mod};
use vstd::prelude::*;

verus! {

/// The control byte a tick transmits: the desired mode's bit combined with
/// the enabled flag, or the pure-disabled byte when no mode is desired.
pub open spec fn spec_control_byte(enabled: bool, mode: Option<Mode>) -> u8 {
    match mode {
        Some(m) => if enabled {
            control_bits_of_mode(m) | ENABLED
        } else {
            control_bits_of_mode(m)
        },
        None => 0,
    }
}

/// Mutable send-side state: the application's desired alliance, enable
/// flag and mode, and the packet sequence counter. The counter advances by
/// exactly one per produced packet — attempted, not delivered — and is
/// never reset while the session is open; at the top of its 16-bit range
/// it wraps, as the wire field does.
pub struct SendState {
    pub alliance: Alliance,
    pub enabled: bool,
    pub mode: Option<Mode>,
    pub seq: u16,
}

impl SendState {
    /// A well-formed send state carries a valid alliance.
    pub open spec fn wf(self) -> bool {
        self.alliance.wf()
    }

    /// Fresh send state: the given alliance, disabled, no desired mode,
    /// sequence counter at zero.
    pub fn new(alliance: Alliance) -> (r: SendState)
        requires
            alliance.wf(),
        ensures
            r.alliance == alliance,
            !r.enabled,
            r.mode is None,
            r.seq == 0,
            r.wf(),
    {
        SendState { alliance, enabled: false, mode: None, seq: 0 }
    }

    /// Sets the desired alliance/station identity.
    pub fn set_alliance(&mut self, alliance: Alliance)
        requires
            alliance.wf(),
        ensures
            *final(self) == (SendState { alliance, ..*old(self) }),
    {
        self.alliance = alliance;
    }

    /// Sets the desired enable flag.
    pub fn set_enabled(&mut self, enabled: bool)
        ensures
            *final(self) == (SendState { enabled, ..*old(self) }),
    {
        self.enabled = enabled;
    }

    /// Sets the desired operating mode; `None` requests disabled/no mode.
    pub fn set_mode(&mut self, mode: Option<Mode>)
        ensures
            *final(self) == (SendState { mode, ..*old(self) }),
    {
        self.mode = mode;
    }

    /// One tick of the sender: builds the control packet for the current
    /// snapshot of this state and the supplied joystick sections, and
    /// advances the sequence counter by exactly one (wrapping at the
    /// 16-bit boundary). The packet carries the counter value from before
    /// the advance.
    pub fn control_packet(&mut self, joysticks: Vec<Vec<u8>>) -> (p: UdpControlPacket)
        requires
            old(self).wf(),
        ensures
            p.seq == old(self).seq,
            p.control.bits == spec_control_byte(old(self).enabled, old(self).mode),
            p.request == 0,
            p.alliance == old(self).alliance,
            p.joysticks == joysticks,
            p.wf(),
            *final(self) == (SendState {
                seq: ((old(self).seq + 1) % 0x10000) as u16,
                ..*old(self)
            }),
    {
        let control = match self.mode {
            Some(m) => {
                let c = m.to_control();
                if self.enabled {
                    Control::new(c.bits | ENABLED)
                } else {
                    Control::new(c.bits)
                }
            },
            None => Control::new(0),
        };
        let p = UdpControlPacket {
            seq: self.seq,
            control,
            request: 0,
            alliance: self.alliance,
            joysticks,
        };
        if self.seq == 0xFFFF {
            self.seq = 0;
        } else {
            self.seq = self.seq + 1;
        }
        p
    }
}

/// The sequence counter after `n` ticks from `start`: each tick advances
/// it by one, wrapping at the 16-bit boundary.
pub open spec fn seq_after(start: u16, n: nat) -> u16
    decreases n,
{
    if n == 0 {
        start
    } else {
        ((seq_after(start, (n - 1) as nat) + 1) % 0x10000) as u16
    }
}

/// Law: with no external reset and no wrap, the sequence numbers observed
/// on `n` consecutive ticks from `start` are exactly `start, start + 1,
/// ..., start + n - 1`, regardless of per-tick transmission success (a
/// failed transmission still consumes a number). `seq_after(start, i)` is
/// the counter the `i`-th tick reads, which `control_packet` stamps into
/// that tick's packet.
pub proof fn lemma_sequence_counter(start: u16, n: nat)
    requires
        start + n <= 0x10000,
    ensures
        forall|i: nat| i < n ==> seq_after(start, i) == start + i,
    decreases n,
{
    if n > 0 {
        let m = (n - 1) as nat;
        lemma_sequence_counter(start, m);
        if m > 0 {
            assert(seq_after(start, (m - 1) as nat) == start + m - 1);
            lemma_small_mod((start + m) as nat, 0x10000);
            assert(seq_after(start, m) == ((seq_after(start, (m - 1) as nat) + 1) % 0x10000) as u16);
            assert(seq_after(start, m) == start + m);
        }
        assert forall|i: nat| i < n implies seq_after(start, i) == start + i by {
            if i < m {
                assert(seq_after(start, i) == start + i);
            }
        }
    }
}

/// Law: the counter law with the 16-bit wrap accounted for and no
/// restriction on the inputs: after `n` ticks from `start` the counter
/// reads `(start + n) % 0x10000`.
pub proof fn lemma_sequence_counter_wrapping(start: u16, n: nat)
    ensures
        seq_after(start, n) == ((start + n) % 0x10000) as u16,
    decreases n,
{
    if n == 0 {
        lemma_small_mod(start as nat, 0x10000);
    } else {
        lemma_sequence_counter_wrapping(start, (n - 1) as nat);
        let x = start + n - 1;
        lemma_mod_bound(x, 0x10000);
        lemma_small_mod(1nat, 0x10000);
        lemma_add_mod_noop(x, 1, 0x10000);
        assert(seq_after(start, n) == ((x % 0x10000 + 1) % 0x10000) as u16);
        assert((x % 0x10000 + 1int % 0x10000) % 0x10000 == (x + 1) % 0x10000);
    }
}

} // verus!
