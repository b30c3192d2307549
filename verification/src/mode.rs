//! The operating-mode state machine: decoding a typed mode from status
//! bits by a fixed priority order, and encoding a desired mode into
//! control bits.

use crate::flags::{Control, Status, MODE_AUTO, MODE_TELEOP, MODE_TEST};
use vstd::prelude::*;

verus! {

/// The operating mode the controller runs in, considered separately from
/// whether it is enabled. Derived only from inbound status bits; the
/// application requests a desired mode, which becomes outbound control bits.
#[derive(Debug, Copy, Clone, PartialEq, Eq, Structural)]
pub enum Mode {
    Autonomous,
    Teleoperated,
    Test,
}

/// The mode a status byte denotes, total over all byte values.
///
/// Precedence: `TELEOP` over `AUTO` over `TEST` over none. A byte with
/// several mode bits set is a transitional or malformed state and resolves
/// deterministically to the highest-priority bit; no bit set means the
/// controller reports "disabled/no mode", which is not an error.
pub open spec fn mode_of_status_bits(bits: u8) -> Option<Mode> {
    if bits & MODE_TELEOP != 0 {
        Some(Mode::Teleoperated)
    } else if bits & MODE_AUTO != 0 {
        Some(Mode::Autonomous)
    } else if bits & MODE_TEST != 0 {
        Some(Mode::Test)
    } else {
        None
    }
}

/// The control bits that request the given mode: exactly that mode's bit.
pub open spec fn control_bits_of_mode(m: Mode) -> u8 {
    match m {
        Mode::Teleoperated => MODE_TELEOP,
        Mode::Autonomous => MODE_AUTO,
        Mode::Test => MODE_TEST,
    }
}

impl Mode {
    /// Decodes the mode of the controller from the given status byte.
    pub fn from_status(status: Status) -> (r: Option<Mode>)
        ensures
            r == mode_of_status_bits(status.bits),
    {
        if status.contains(MODE_TELEOP) {
            Some(Mode::Teleoperated)
        } else if status.contains(MODE_AUTO) {
            Some(Mode::Autonomous)
        } else if status.contains(MODE_TEST) {
            Some(Mode::Test)
        } else {
            None
        }
    }

    /// Converts this mode into the control bits that request it, for use
    /// when constructing an outbound control byte. Total, no failure case.
    pub fn to_control(self) -> (r: Control)
        ensures
            r.bits == control_bits_of_mode(self),
    {
        match self {
            Mode::Teleoperated => Control::new(MODE_TELEOP),
            Mode::Autonomous => Control::new(MODE_AUTO),
            Mode::Test => Control::new(MODE_TEST),
        }
    }
}

/// Law: mode decoding is total and deterministic, and resolves by the fixed
/// priority `TELEOP > AUTO > TEST > none` even when several mode bits are set.
pub proof fn lemma_mode_decode_precedence(bits: u8)
    ensures
        bits & MODE_TELEOP != 0 ==> mode_of_status_bits(bits) == Some(Mode::Teleoperated),
        bits & MODE_TELEOP == 0 && bits & MODE_AUTO != 0 ==> mode_of_status_bits(bits) == Some(
            Mode::Autonomous,
        ),
        bits & MODE_TELEOP == 0 && bits & MODE_AUTO == 0 && bits & MODE_TEST != 0
            ==> mode_of_status_bits(bits) == Some(Mode::Test),
        bits & (MODE_TELEOP | MODE_AUTO | MODE_TEST) == 0 ==> mode_of_status_bits(bits) is None,
{
    assert(bits & (0x04u8 | 0x02 | 0x01) == 0 ==> bits & 0x04u8 == 0 && bits & 0x02u8 == 0 && bits
        & 0x01u8 == 0) by (bit_vector);
}

/// Law: encoding a mode into control bits and reading those bits back as a
/// status byte yields the same mode (round trip for the clean single-bit case).
pub proof fn lemma_mode_round_trip(m: Mode)
    ensures
        mode_of_status_bits(control_bits_of_mode(m)) == Some(m),
{
    assert(0x04u8 & 0x04 != 0) by (bit_vector);
    assert(0x02u8 & 0x04 == 0 && 0x02u8 & 0x02 != 0) by (bit_vector);
    assert(0x01u8 & 0x04 == 0 && 0x01u8 & 0x02 == 0 && 0x01u8 & 0x01 != 0) by (bit_vector);
}

} // verus!
