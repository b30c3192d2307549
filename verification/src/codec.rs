//! Stateless codec for the datagram channel: typed outbound control
//! packets and inbound status packets, and their byte-level wire forms.
//!
//! The channel is datagram-oriented: one inbound datagram is one packet,
//! so a short read is a malformed datagram, never a partial one. Decoding
//! therefore fails outright on malformed input instead of signalling
//! "need more data"; signalling incompleteness would make the datagram
//! reader assume nothing remains and silently stop decoding.

use crate::flags::{Alliance, Control, Status};
use vstd::prelude::*;

verus! {

/// First byte after the sequence number of every datagram: the protocol
/// revision this client speaks.
pub const PROTOCOL_VERSION: u8 = 0x01;

/// Why an inbound datagram failed to decode.
#[derive(Debug, Copy, Clone, PartialEq, Eq, Structural)]
pub enum CodecError {
    /// The datagram is shorter than a status packet.
    TooShort,
    /// The version byte does not match the protocol revision.
    BadVersion,
}

/// Outbound control packet: everything one tick of the sender transmits.
/// The joystick sections are opaque per-device byte records supplied by
/// the input-device collaborator; their inner layout is not this crate's
/// concern and they are appended to the wire form in order.
pub struct UdpControlPacket {
    pub seq: u16,
    pub control: Control,
    pub request: u8,
    pub alliance: Alliance,
    pub joysticks: Vec<Vec<u8>>,
}

/// Inbound status packet: the controller's reported flags and diagnostics.
/// The diagnostic scalars are passed through unmodified.
#[derive(Debug, Copy, Clone, PartialEq, Eq, Structural)]
pub struct UdpResponsePacket {
    pub seq: u16,
    pub status: Status,
    pub trace: u8,
    pub battery_high: u8,
    pub battery_low: u8,
    pub request: u8,
}

/// The concatenation of a sequence of per-device byte records.
pub open spec fn flat_of(s: Seq<Vec<u8>>) -> Seq<u8>
    decreases s.len(),
{
    if s.len() == 0 {
        Seq::empty()
    } else {
        flat_of(s.drop_last()) + s.last()@
    }
}

proof fn lemma_flat_of_take_step(s: Seq<Vec<u8>>, i: int)
    requires
        0 <= i < s.len(),
    ensures
        flat_of(s.take(i + 1)) == flat_of(s.take(i)) + s[i]@,
{
    assert(s.take(i + 1).drop_last() =~= s.take(i));
    assert(s.take(i + 1).last() == s[i]);
}

impl UdpControlPacket {
    /// A well-formed control packet carries a valid alliance.
    pub open spec fn wf(self) -> bool {
        self.alliance.wf()
    }

    /// The six-byte header of the wire form: big-endian sequence number,
    /// protocol version, control byte, request byte, alliance position.
    pub open spec fn spec_header(self) -> Seq<u8> {
        seq![
            (self.seq >> 8) as u8,
            self.seq as u8,
            PROTOCOL_VERSION,
            self.control.bits,
            self.request,
            self.alliance.spec_position(),
        ]
    }

    /// The full wire form: header followed by the joystick sections in order.
    pub open spec fn spec_encoded(self) -> Seq<u8> {
        self.spec_header() + flat_of(self.joysticks@)
    }

    /// Serializes this packet; total on well-formed packets, no failure case.
    pub fn encode(&self) -> (r: Vec<u8>)
        requires
            self.wf(),
        ensures
            r@ == self.spec_encoded(),
    {
        let mut r: Vec<u8> = Vec::new();
        r.push((self.seq >> 8) as u8);
        r.push(self.seq as u8);
        r.push(PROTOCOL_VERSION);
        r.push(self.control.bits);
        r.push(self.request);
        r.push(self.alliance.position());
        assert(r@ =~= self.spec_header());
        let n = self.joysticks.len();
        assert(self.joysticks@.take(0int) =~= Seq::empty());
        for i in 0..n
            invariant
                n == self.joysticks@.len(),
                r@ == self.spec_header() + flat_of(self.joysticks@.take(i as int)),
        {
            r.extend_from_slice(self.joysticks[i].as_slice());
            proof {
                lemma_flat_of_take_step(self.joysticks@, i as int);
            }
        }
        assert(self.joysticks@.take(n as int) =~= self.joysticks@);
        r
    }
}

/// The packet a byte sequence decodes to, or the error it is rejected with.
///
/// A datagram decodes successfully exactly when it is at least eight bytes
/// long and its version byte matches the protocol revision; a successful
/// decode consumes the whole datagram, trailing bytes included.
pub open spec fn spec_decode(s: Seq<u8>) -> Result<UdpResponsePacket, CodecError> {
    if s.len() < 8 {
        Err(CodecError::TooShort)
    } else if s[2] != PROTOCOL_VERSION {
        Err(CodecError::BadVersion)
    } else {
        Ok(
            UdpResponsePacket {
                seq: ((s[0] as int) * 256 + (s[1] as int)) as u16,
                status: Status { bits: s[3] },
                trace: s[4],
                battery_high: s[5],
                battery_low: s[6],
                request: s[7],
            },
        )
    }
}

impl UdpResponsePacket {
    /// Parses one inbound status datagram from the front of `src`. On
    /// success the whole datagram is consumed; on failure the datagram is
    /// left untouched for the caller to drop.
    pub fn decode(src: &mut Vec<u8>) -> (r: Result<UdpResponsePacket, CodecError>)
        ensures
            r == spec_decode(old(src)@),
            r is Ok ==> final(src)@ == Seq::<u8>::empty(),
            r is Err ==> final(src)@ == old(src)@,
    {
        if src.len() < 8 {
            return Err(CodecError::TooShort);
        }
        if src[2] != PROTOCOL_VERSION {
            return Err(CodecError::BadVersion);
        }
        let seq: u16 = (src[0] as u16) * 256 + (src[1] as u16);
        let packet = UdpResponsePacket {
            seq,
            status: Status::new(src[3]),
            trace: src[4],
            battery_high: src[5],
            battery_low: src[6],
            request: src[7],
        };
        src.clear();
        Ok(packet)
    }
}

/// The codec's decode result: a successfully parsed packet is wrapped in
/// `Some`; "no data yet" (`Ok(None)`) is never produced, by design.
pub open spec fn spec_codec_decode(s: Seq<u8>) -> Result<
    Option<UdpResponsePacket>,
    CodecError,
> {
    match spec_decode(s) {
        Ok(p) => Ok(Some(p)),
        Err(e) => Err(e),
    }
}

/// The codec for datagram traffic to and from the controller: stateless
/// transforms between byte buffers and typed packets.
pub struct DsUdpCodec;

impl DsUdpCodec {
    /// Attempts to parse one inbound status packet from the front of the
    /// buffer. Never returns `Ok(None)`: on malformed input it fails
    /// outright, because a short datagram read can never be completed by
    /// a later read (see the module documentation).
    pub fn decode(&mut self, src: &mut Vec<u8>) -> (r: Result<
        Option<UdpResponsePacket>,
        CodecError,
    >)
        ensures
            r == spec_codec_decode(old(src)@),
            r is Ok ==> final(src)@ == Seq::<u8>::empty(),
            r is Err ==> final(src)@ == old(src)@,
    {
        match UdpResponsePacket::decode(src) {
            Ok(packet) => Ok(Some(packet)),
            Err(e) => Err(e),
        }
    }

    /// Serializes one outbound control packet onto the end of `dst`;
    /// always succeeds (the input is already a well-formed typed value).
    pub fn encode(&mut self, item: &UdpControlPacket, dst: &mut Vec<u8>) -> (r: Result<
        (),
        CodecError,
    >)
        requires
            item.wf(),
        ensures
            r is Ok,
            final(dst)@ == old(dst)@ + item.spec_encoded(),
    {
        let bytes = item.encode();
        dst.extend_from_slice(bytes.as_slice());
        Ok(())
    }
}

/// Law: the wire format is symmetric where the two directions overlap.
/// Feeding the encoding of a well-formed control packet through an
/// inbound-shaped decode recovers the same sequence number, and the byte
/// decoded as status flags is exactly the encoded control byte.
pub proof fn lemma_format_symmetry(p: UdpControlPacket)
    requires
        p.wf(),
        flat_of(p.joysticks@).len() >= 2,
    ensures
        spec_decode(p.spec_encoded()) is Ok,
        spec_decode(p.spec_encoded()).unwrap().seq == p.seq,
        spec_decode(p.spec_encoded()).unwrap().status.bits == p.control.bits,
{
    let s = p.spec_encoded();
    assert(s[0] == (p.seq >> 8) as u8);
    assert(s[1] == p.seq as u8);
    assert(s[2] == PROTOCOL_VERSION);
    assert(s[3] == p.control.bits);
    let sq = p.seq;
    let hi = (sq >> 8) as u8;
    let lo = sq as u8;
    assert((hi as int) * 256 + (lo as int) == sq) by (bit_vector)
        requires
            hi == (sq >> 8) as u8,
            lo == sq as u8,
    ;
}

} // verus!
