//! Bit-flag wire values: the status byte reported by the controller, the
//! control byte sent to it, and the alliance/station identity.

use vstd::prelude::*;

verus! {

/// Mask of the `TEST` mode flag (shared bit position in status and control bytes).
pub const MODE_TEST: u8 = 0x01;
/// Mask of the `AUTO` mode flag.
pub const MODE_AUTO: u8 = 0x02;
/// Mask of the `TELEOP` mode flag.
pub const MODE_TELEOP: u8 = 0x04;
/// Mask of the enabled flag in a control byte.
pub const ENABLED: u8 = 0x08;
/// Mask of the brownout flag in a status byte.
pub const BROWNOUT: u8 = 0x10;
/// Mask of the user-code-started flag in the diagnostics byte.
pub const CODE_START: u8 = 0x20;
/// Mask of the emergency-stop flag.
pub const ESTOP: u8 = 0x80;

/// Status bit flags reported by the controller in an inbound datagram.
///
/// Any byte value is a valid status: meaningless bit combinations are
/// carried through unchanged and resolved by priority at decode time,
/// never rejected.
#[derive(Debug, Copy, Clone, PartialEq, Eq, Structural)]
pub struct Status {
    pub bits: u8,
}

impl Status {
    /// Wraps an arbitrary wire byte; total over all byte values.
    pub fn new(bits: u8) -> (r: Status)
        ensures
            r.bits == bits,
    {
        Status { bits }
    }

    /// Tests whether any bit of `mask` is set in the flags: a bitwise AND
    /// membership test.
    pub fn contains(&self, mask: u8) -> (r: bool)
        ensures
            r == (self.bits & mask != 0),
    {
        self.bits & mask != 0
    }
}

/// Control bit flags carried in an outbound control packet.
#[derive(Debug, Copy, Clone, PartialEq, Eq, Structural)]
pub struct Control {
    pub bits: u8,
}

impl Control {
    /// Wraps a control byte; total over all byte values.
    pub fn new(bits: u8) -> (r: Control)
        ensures
            r.bits == bits,
    {
        Control { bits }
    }

    /// Bitwise AND membership test against `mask`.
    pub fn contains(&self, mask: u8) -> (r: bool)
        ensures
            r == (self.bits & mask != 0),
    {
        self.bits & mask != 0
    }
}

/// Alliance color: which side of the field the client represents.
#[derive(Debug, Copy, Clone, PartialEq, Eq, Structural)]
pub enum AllianceColor {
    Red,
    Blue,
}

/// Alliance identity: color plus station number 1..=3, one of six positions.
/// Set by the application, never inferred from the wire.
#[derive(Debug, Copy, Clone, PartialEq, Eq, Structural)]
pub struct Alliance {
    pub color: AllianceColor,
    pub station: u8,
}

impl Alliance {
    /// A valid alliance has a station number between 1 and 3.
    pub open spec fn wf(self) -> bool {
        1 <= self.station <= 3
    }

    /// Wire encoding of the position: red stations map to 0..=2,
    /// blue stations to 3..=5.
    pub open spec fn spec_position(self) -> u8 {
        if self.color == AllianceColor::Red {
            (self.station - 1) as u8
        } else {
            (self.station + 2) as u8
        }
    }

    /// Red alliance at the given station.
    pub fn new_red(station: u8) -> (r: Alliance)
        requires
            1 <= station <= 3,
        ensures
            r.color == AllianceColor::Red,
            r.station == station,
            r.wf(),
    {
        Alliance { color: AllianceColor::Red, station }
    }

    /// Blue alliance at the given station.
    pub fn new_blue(station: u8) -> (r: Alliance)
        requires
            1 <= station <= 3,
        ensures
            r.color == AllianceColor::Blue,
            r.station == station,
            r.wf(),
    {
        Alliance { color: AllianceColor::Blue, station }
    }

    /// The single-byte position encoding used in the control packet.
    pub fn position(&self) -> (r: u8)
        requires
            self.wf(),
        ensures
            r == self.spec_position(),
    {
        match self.color {
            AllianceColor::Red => self.station - 1,
            AllianceColor::Blue => self.station + 2,
        }
    }

    /// Whether this alliance is red.
    pub fn is_red(&self) -> (r: bool)
        ensures
            r == (self.color == AllianceColor::Red),
    {
        match self.color {
            AllianceColor::Red => true,
            AllianceColor::Blue => false,
        }
    }
}

} // verus!
