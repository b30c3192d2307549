use ds::codec::{CodecError, DsUdpCodec, UdpControlPacket, UdpResponsePacket, PROTOCOL_VERSION};
use ds::flags::{Alliance, Control, ENABLED, MODE_TELEOP};

fn sample_packet() -> UdpControlPacket {
    UdpControlPacket {
        seq: 0x0102,
        control: Control::new(MODE_TELEOP | ENABLED),
        request: 0,
        alliance: Alliance::new_red(1),
        joysticks: vec![vec![0xAA], vec![0xBB, 0xCC]],
    }
}

#[test]
fn encode_exact_wire_bytes() {
    let bytes = sample_packet().encode();
    assert_eq!(
        bytes,
        vec![0x01, 0x02, PROTOCOL_VERSION, MODE_TELEOP | ENABLED, 0x00, 0x00, 0xAA, 0xBB, 0xCC]
    );
}

#[test]
fn encode_blue_station_position() {
    let mut p = sample_packet();
    p.alliance = Alliance::new_blue(3);
    let bytes = p.encode();
    assert_eq!(bytes[5], 5);
}

#[test]
fn encode_appends_to_destination() {
    let mut codec = DsUdpCodec;
    let mut dst = vec![0xFF];
    let p = sample_packet();
    assert!(codec.encode(&p, &mut dst).is_ok());
    assert_eq!(dst[0], 0xFF);
    assert_eq!(&dst[1..], &p.encode()[..]);
}

#[test]
fn decode_well_formed_datagram() {
    let mut src = vec![0x01, 0x02, PROTOCOL_VERSION, MODE_TELEOP, 0x20, 12, 128, 0x00];
    let packet = UdpResponsePacket::decode(&mut src).unwrap();
    assert_eq!(packet.seq, 0x0102);
    assert_eq!(packet.status.bits, MODE_TELEOP);
    assert_eq!(packet.trace, 0x20);
    assert_eq!(packet.battery_high, 12);
    assert_eq!(packet.battery_low, 128);
    assert_eq!(packet.request, 0x00);
    // A successful decode consumes the whole datagram.
    assert!(src.is_empty());
}

#[test]
fn decode_truncated_datagram_fails_without_consuming() {
    let mut src = vec![0x01, 0x02, PROTOCOL_VERSION, 0x00, 0x00, 0x00, 0x00];
    let before = src.clone();
    assert_eq!(UdpResponsePacket::decode(&mut src), Err(CodecError::TooShort));
    assert_eq!(src, before);
}

#[test]
fn decode_bad_version_fails_without_consuming() {
    let mut src = vec![0x01, 0x02, 0x7F, 0x00, 0x00, 0x00, 0x00, 0x00];
    let before = src.clone();
    assert_eq!(UdpResponsePacket::decode(&mut src), Err(CodecError::BadVersion));
    assert_eq!(src, before);
}

#[test]
fn codec_decode_never_signals_incomplete() {
    // The codec fails on malformed datagrams and wraps every success in
    // `Some`: `Ok(None)` ("need more data") is never produced.
    let mut codec = DsUdpCodec;
    let mut good = vec![0x00, 0x07, PROTOCOL_VERSION, 0x00, 0x00, 0x00, 0x00, 0x00];
    match codec.decode(&mut good) {
        Ok(Some(p)) => assert_eq!(p.seq, 7),
        other => panic!("expected a parsed packet, got {:?}", other),
    }
    let mut short = vec![0x00];
    assert_eq!(codec.decode(&mut short), Err(CodecError::TooShort));
}

#[test]
fn format_symmetry_round_trip() {
    // Encoding an outbound packet and decoding the bytes as an inbound
    // datagram recovers the sequence number and the control bits.
    let p = sample_packet();
    let mut bytes = p.encode();
    let decoded = UdpResponsePacket::decode(&mut bytes).unwrap();
    assert_eq!(decoded.seq, p.seq);
    assert_eq!(decoded.status.bits, p.control.bits);
}
