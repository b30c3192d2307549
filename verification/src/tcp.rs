//! Stream-side session state: connection status and the resumable
//! partial-parse buffer for the reliable console/event channel.
//!
//! The stream delivers arbitrary-sized byte chunks whose boundaries need
//! not align with message boundaries. Each message travels as a two-byte
//! big-endian length prefix followed by its body; bytes that do not yet
//! form a complete message are retained across reads, and complete
//! messages are handed out strictly in arrival order.

use vstd::arithmetic::div_mod::lemma_fundamental_div_mod;
use vstd::prelude::*;

verus! {

/// One complete console/event message received over (or to be sent over)
/// the reliable stream: the message body, without its length prefix.
#[derive(Debug, Clone, PartialEq, Eq)]
pub struct TcpPacket {
    pub data: Vec<u8>,
}

/// The complete messages at the front of a byte stream, in order: a
/// two-byte big-endian length prefix and that many body bytes each,
/// stopping at the first message whose bytes have not all arrived.
pub open spec fn spec_messages(b: Seq<u8>) -> Seq<Seq<u8>>
    decreases b.len(),
{
    if b.len() < 2 {
        Seq::empty()
    } else {
        let n = (b[0] as int) * 256 + (b[1] as int);
        if b.len() < 2 + n {
            Seq::empty()
        } else {
            seq![b.subrange(2, 2 + n)] + spec_messages(b.skip(2 + n))
        }
    }
}

/// The bytes left after taking every complete message off the front of a
/// byte stream: the trailing partial message, possibly empty.
pub open spec fn spec_remainder(b: Seq<u8>) -> Seq<u8>
    decreases b.len(),
{
    if b.len() < 2 {
        b
    } else {
        let n = (b[0] as int) * 256 + (b[1] as int);
        if b.len() < 2 + n {
            b
        } else {
            spec_remainder(b.skip(2 + n))
        }
    }
}

/// The wire form of one outbound message: big-endian length, then body.
pub open spec fn spec_framed(m: Seq<u8>) -> Seq<u8> {
    seq![(m.len() as int / 256) as u8, (m.len() as int % 256) as u8] + m
}

impl TcpPacket {
    /// Serializes this message for the stream: length prefix, then body.
    pub fn encode(&self) -> (r: Vec<u8>)
        requires
            self.data@.len() <= 0xFFFF,
        ensures
            r@ == spec_framed(self.data@),
    {
        let mut r: Vec<u8> = Vec::new();
        let len = self.data.len();
        r.push((len / 256) as u8);
        r.push((len % 256) as u8);
        r.extend_from_slice(self.data.as_slice());
        assert(r@ =~= spec_framed(self.data@));
        r
    }
}

/// Mutable stream-side state: whether the stream is currently connected,
/// and the partial-parse buffer of bytes received but not yet forming a
/// complete message.
pub struct TcpState {
    pub connected: bool,
    pub buffer: Vec<u8>,
}

impl TcpState {
    /// Fresh stream state: disconnected, empty partial buffer.
    pub fn new() -> (r: TcpState)
        ensures
            !r.connected,
            r.buffer@ == Seq::<u8>::empty(),
    {
        TcpState { connected: false, buffer: Vec::new() }
    }

    /// Records a freshly accepted stream: message parsing resumes from an
    /// empty partial buffer, discarding any fragment of the old stream.
    pub fn on_connect(&mut self)
        ensures
            final(self).connected,
            final(self).buffer@ == Seq::<u8>::empty(),
    {
        self.connected = true;
        self.buffer = Vec::new();
    }

    /// Records loss of the stream connection; the datagram path is
    /// unaffected and reconnection is an external collaborator's concern.
    pub fn on_disconnect(&mut self)
        ensures
            !final(self).connected,
            final(self).buffer@ == old(self).buffer@,
    {
        self.connected = false;
    }

    /// Handles one chunk read from the stream: appends it to the partial
    /// buffer and takes every now-complete message off the front, in
    /// arrival order. The caller invokes the registered consumer exactly
    /// once per returned message; bytes of a still-incomplete message stay
    /// buffered for the next read.
    pub fn handle_chunk(&mut self, chunk: &Vec<u8>) -> (msgs: Vec<TcpPacket>)
        ensures
            msgs@.map_values(|m: TcpPacket| m.data@) == spec_messages(old(self).buffer@ + chunk@),
            final(self).buffer@ == spec_remainder(old(self).buffer@ + chunk@),
            final(self).connected == old(self).connected,
    {
        let ghost full0 = old(self).buffer@ + chunk@;
        self.buffer.extend_from_slice(chunk.as_slice());
        assert(self.buffer@ =~= full0);
        let mut msgs: Vec<TcpPacket> = Vec::new();
        let mut i: usize = 0;
        assert(full0.skip(0) =~= full0);
        loop
            invariant
                self.buffer@ == full0,
                self.connected == old(self).connected,
                i <= self.buffer.len(),
                spec_messages(full0) == msgs@.map_values(|m: TcpPacket| m.data@) + spec_messages(
                    full0.skip(i as int),
                ),
                spec_remainder(full0) == spec_remainder(full0.skip(i as int)),
            ensures
                self.buffer@ == full0,
                self.connected == old(self).connected,
                i <= self.buffer.len(),
                spec_messages(full0) == msgs@.map_values(|m: TcpPacket| m.data@),
                spec_remainder(full0) == full0.skip(i as int),
            decreases self.buffer.len() - i,
        {
            let ghost rest = full0.skip(i as int);
            if self.buffer.len() - i < 2 {
                assert(spec_messages(rest) =~= Seq::<Seq<u8>>::empty());
                assert(msgs@.map_values(|m: TcpPacket| m.data@) + Seq::<Seq<u8>>::empty()
                    =~= msgs@.map_values(|m: TcpPacket| m.data@));
                break;
            }
            let n: usize = (self.buffer[i] as usize) * 256 + (self.buffer[i + 1] as usize);
            assert(rest[0] == full0[i as int] && rest[1] == full0[i + 1]);
            if self.buffer.len() - i - 2 < n {
                assert(spec_messages(rest) =~= Seq::<Seq<u8>>::empty());
                assert(msgs@.map_values(|m: TcpPacket| m.data@) + Seq::<Seq<u8>>::empty()
                    =~= msgs@.map_values(|m: TcpPacket| m.data@));
                break;
            }
            let mut data: Vec<u8> = Vec::new();
            let mut j: usize = 0;
            while j < n
                invariant
                    i + 2 + n <= self.buffer.len(),
                    j <= n,
                    self.buffer@ == full0,
                    data@ == full0.subrange(i + 2, i + 2 + j),
                decreases n - j,
            {
                data.push(self.buffer[i + 2 + j]);
                assert(data@ =~= full0.subrange(i + 2, i + 2 + (j + 1)));
                j = j + 1;
            }
            proof {
                assert(rest.subrange(2, 2 + n) =~= full0.subrange(i + 2, i + 2 + n));
                assert(rest.skip(2 + n) =~= full0.skip(i + 2 + n));
                assert(spec_messages(rest) == seq![data@] + spec_messages(full0.skip(i + 2 + n)));
                assert(spec_remainder(rest) == spec_remainder(full0.skip(i + 2 + n)));
            }
            let ghost prev = msgs@;
            let ghost body = data@;
            msgs.push(TcpPacket { data });
            proof {
                let f = |m: TcpPacket| m.data@;
                assert(msgs@.map_values(f) =~= prev.map_values(f).push(body));
                assert(prev.map_values(f).push(body) + spec_messages(full0.skip(i + 2 + n))
                    =~= prev.map_values(f) + (seq![body] + spec_messages(full0.skip(i + 2 + n))));
            }
            i = i + 2 + n;
        }
        let tail = self.buffer.split_off(i);
        self.buffer = tail;
        msgs
    }
}

/// Law: parsing is resumable. Splitting a byte stream anywhere and feeding
/// the pieces through the parse in turn — carrying the remainder of the
/// first piece into the second — yields exactly the messages and remainder
/// of the unsplit stream, in the same order.
pub proof fn lemma_resumable_parse(a: Seq<u8>, b: Seq<u8>)
    ensures
        spec_messages(a + b) == spec_messages(a) + spec_messages(spec_remainder(a) + b),
        spec_remainder(a + b) == spec_remainder(spec_remainder(a) + b),
    decreases a.len(),
{
    if a.len() < 2 {
        assert(spec_remainder(a) == a);
        assert(spec_messages(a) + spec_messages(a + b) =~= spec_messages(a + b));
    } else {
        let n = (a[0] as int) * 256 + (a[1] as int);
        if a.len() < 2 + n && a.len() + b.len() < 2 + n {
            // the first message is incomplete even with the new chunk
            assert((a + b)[0] == a[0] && (a + b)[1] == a[1]);
            assert(spec_messages(a + b) =~= Seq::<Seq<u8>>::empty());
            assert(spec_remainder(a) == a);
            assert(spec_messages(a) + spec_messages(a + b) =~= spec_messages(a + b));
        } else if a.len() < 2 + n {
            // the new chunk completes the first message
            assert((a + b)[0] == a[0] && (a + b)[1] == a[1]);
            assert(spec_remainder(a) == a);
            assert(spec_messages(a) =~= Seq::<Seq<u8>>::empty());
            assert(spec_remainder(a) + b =~= a + b);
            assert(spec_messages(a) + spec_messages(a + b) =~= spec_messages(a + b));
        } else {
            // a whole message lies within the first piece
            assert((a + b)[0] == a[0] && (a + b)[1] == a[1]);
            assert((a + b).subrange(2, 2 + n) =~= a.subrange(2, 2 + n));
            assert((a + b).skip(2 + n) =~= a.skip(2 + n) + b);
            lemma_resumable_parse(a.skip(2 + n), b);
            assert(spec_messages(a + b) == seq![a.subrange(2, 2 + n)] + (spec_messages(
                a.skip(2 + n),
            ) + spec_messages(spec_remainder(a.skip(2 + n)) + b)));
            assert(spec_messages(a) + spec_messages(spec_remainder(a) + b) =~= seq![
                a.subrange(2, 2 + n),
            ] + (spec_messages(a.skip(2 + n)) + spec_messages(spec_remainder(a.skip(2 + n)) + b)));
        }
    }
}

/// Law: framing then parsing is the identity. A single framed message,
/// arriving whole, parses to exactly that message with nothing left over.
pub proof fn lemma_frame_round_trip(m: Seq<u8>)
    requires
        m.len() <= 0xFFFF,
    ensures
        spec_messages(spec_framed(m)) == seq![m],
        spec_remainder(spec_framed(m)) == Seq::<u8>::empty(),
{
    let b = spec_framed(m);
    let len = m.len() as int;
    lemma_fundamental_div_mod(len, 256);
    assert(0 <= len / 256 <= 255) by (nonlinear_arith)
        requires
            0 <= len <= 0xFFFF,
    ;
    assert(0 <= len % 256 <= 255);
    assert(b[0] == (len / 256) as u8 && b[1] == (len % 256) as u8);
    assert(b[0] as int == len / 256 && b[1] as int == len % 256);
    assert((b[0] as int) * 256 + (b[1] as int) == len);
    assert(b.len() == 2 + len);
    assert(b.subrange(2, 2 + len) =~= m);
    assert(b.skip(2 + len) =~= Seq::<u8>::empty());
    assert(spec_messages(Seq::<u8>::empty()) == Seq::<Seq<u8>>::empty());
    assert(spec_remainder(Seq::<u8>::empty()) == Seq::<u8>::empty());
    assert(spec_messages(b) == seq![m] + Seq::<Seq<u8>>::empty());
    assert(seq![m] + Seq::<Seq<u8>>::empty() =~= seq![m]);
}

} // verus!
