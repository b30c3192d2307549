use ds::flags::{Alliance, AllianceColor, ENABLED, MODE_AUTO, MODE_TELEOP};
use ds::mode::Mode;
use ds::send::SendState;

#[test]
fn first_tick_disabled_no_mode() {
    // Session constructed with alliance Red/1, disabled, no mode: the first
    // tick's packet carries that identity, control bits zero, sequence zero.
    let mut state = SendState::new(Alliance::new_red(1));
    let packet = state.control_packet(vec![]);
    assert_eq!(packet.seq, 0);
    assert_eq!(packet.control.bits, 0);
    assert_eq!(packet.alliance.color, AllianceColor::Red);
    assert_eq!(packet.alliance.station, 1);
}

#[test]
fn enabling_teleop_before_second_tick() {
    let mut state = SendState::new(Alliance::new_red(1));
    let _ = state.control_packet(vec![]);
    state.set_enabled(true);
    state.set_mode(Some(Mode::Teleoperated));
    let packet = state.control_packet(vec![]);
    assert_eq!(packet.seq, 1);
    assert_eq!(packet.control.bits, MODE_TELEOP | ENABLED);
}

#[test]
fn desired_mode_without_enable_sends_mode_bit_only() {
    let mut state = SendState::new(Alliance::new_blue(2));
    state.set_mode(Some(Mode::Autonomous));
    let packet = state.control_packet(vec![]);
    assert_eq!(packet.control.bits, MODE_AUTO);
}

#[test]
fn sequence_numbers_are_consecutive_over_ticks() {
    let mut state = SendState::new(Alliance::new_red(3));
    let mut observed = Vec::new();
    for _ in 0..6 {
        observed.push(state.control_packet(vec![]).seq);
    }
    assert_eq!(observed, vec![0, 1, 2, 3, 4, 5]);
}

#[test]
fn sequence_counter_wraps_at_sixteen_bits() {
    let mut state = SendState::new(Alliance::new_red(1));
    state.seq = 0xFFFF;
    let last = state.control_packet(vec![]);
    assert_eq!(last.seq, 0xFFFF);
    let wrapped = state.control_packet(vec![]);
    assert_eq!(wrapped.seq, 0);
}

#[test]
fn packet_carries_joystick_sections_in_order() {
    let mut state = SendState::new(Alliance::new_red(1));
    let packet = state.control_packet(vec![vec![1, 2], vec![3]]);
    assert_eq!(packet.joysticks, vec![vec![1, 2], vec![3]]);
    let bytes = packet.encode();
    assert_eq!(&bytes[6..], &[1, 2, 3]);
}

#[test]
fn set_alliance_changes_later_packets() {
    let mut state = SendState::new(Alliance::new_red(1));
    state.set_alliance(Alliance::new_blue(1));
    let packet = state.control_packet(vec![]);
    assert_eq!(packet.alliance.color, AllianceColor::Blue);
    assert_eq!(packet.encode()[5], 3);
}
