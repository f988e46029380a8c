use rsnav_proto::{Error, RSNavState};

fn encode(s: &RSNavState) -> Vec<u8> {
    let mut out = Vec::new();
    s.serialize(&mut out);
    out
}

fn state_from_bits(bits: u16) -> RSNavState {
    RSNavState {
        led_bar: bits & 1 != 0,
        led_bar_low_mode: bits & 2 != 0,
        high_beam: bits & 4 != 0,
        led_bar_active: bits & 8 != 0,
        reverse_camera: bits & 16 != 0,
        reverse_lights: bits & 32 != 0,
        reverse: bits & 64 != 0,
        reverse_lights_active: bits & 128 != 0,
        trunk_lights: bits & 256 != 0,
    }
}

#[test]
fn new_state_is_all_off() {
    let s = RSNavState::new();
    assert_eq!(s, state_from_bits(0));
    assert_eq!(RSNavState::default(), s);
    assert_eq!(encode(&s), vec![0, 0]);
}

#[test]
fn state_round_trip_every_state() {
    for bits in 0..512u16 {
        let s = state_from_bits(bits);
        let bytes = encode(&s);
        assert_eq!(bytes.len(), 2);
        assert_eq!(RSNavState::deserialize(&bytes), Ok(s));
    }
}

#[test]
fn state_bit_layout() {
    let mut s = RSNavState::new();
    s.high_beam = true;
    s.reverse_lights_active = true;
    s.trunk_lights = true;
    assert_eq!(encode(&s), vec![0b0100, 0b1_1000]);
    let all = state_from_bits(511);
    assert_eq!(encode(&all), vec![0x0f, 0x1f]);
}

#[test]
fn state_unused_bits_ignored() {
    assert_eq!(RSNavState::deserialize(&[0xf0, 0xe0]), Ok(RSNavState::new()));
    assert_eq!(RSNavState::deserialize(&[0xff, 0xff, 0x55]), Ok(state_from_bits(511)));
}

#[test]
fn state_short_input_fails() {
    assert_eq!(RSNavState::deserialize(&[]), Err(Error::StateDeserializeFailed));
    assert_eq!(RSNavState::deserialize(&[1]), Err(Error::StateDeserializeFailed));
}

#[test]
fn reverse_off_clears_lights_and_camera() {
    for bits in 0..512u16 {
        let mut s = state_from_bits(bits);
        s.reverse(false);
        assert!(!s.reverse_lights);
        assert!(!s.reverse_camera);
        assert!(!s.reverse);
    }
}

#[test]
fn reverse_then_lights_active_turns_lights_on() {
    let mut s = RSNavState::new();
    s.reverse(true);
    assert!(s.reverse_camera);
    assert!(!s.reverse_lights);
    s.set_reverse_lights_active(true);
    assert!(s.reverse_lights);
}

#[test]
fn reverse_lights_active_then_reverse() {
    let mut s = RSNavState::new();
    s.set_reverse_lights_active(true);
    assert!(!s.reverse_lights);
    s.reverse(true);
    assert!(s.reverse_lights);
    s.set_reverse_lights_active(false);
    assert!(!s.reverse_lights);
    assert!(s.reverse_camera);
}

#[test]
fn led_bar_follows_high_beam_when_active() {
    let mut s = RSNavState::new();
    s.set_led_bar_active(true);
    s.high_beam(true);
    assert!(s.led_bar);
    s.high_beam(false);
    assert!(!s.led_bar);
}

#[test]
fn led_bar_activation_takes_high_beam() {
    let mut s = RSNavState::new();
    s.high_beam(true);
    assert!(!s.led_bar);
    s.set_led_bar_active(true);
    assert!(s.led_bar);
    s.set_led_bar_active(false);
    assert!(!s.led_bar);
    assert!(s.high_beam);
}

#[test]
fn high_beam_off_clears_forced_led_bar() {
    let mut s = RSNavState::new();
    s.force_led_bar(true);
    assert!(s.led_bar);
    s.set_trunk_lights(true);
    s.set_led_bar_low_mode(true);
    assert!(s.led_bar);
    s.high_beam(true);
    assert!(s.led_bar);
    s.high_beam(false);
    assert!(!s.led_bar);
}

#[test]
fn forced_outputs_stay_until_rederived() {
    let mut s = RSNavState::new();
    s.force_reverse_lights(true);
    s.force_reverse_camera(true);
    s.set_led_bar_active(false);
    assert!(s.reverse_lights && s.reverse_camera);
    s.reverse(true);
    assert!(!s.reverse_lights);
    assert!(s.reverse_camera);
}

#[test]
fn operations_are_idempotent() {
    for bits in 0..512u16 {
        for on in [false, true] {
            let s = state_from_bits(bits);
            let ops: [fn(&mut RSNavState, bool); 9] = [
                RSNavState::set_led_bar_active,
                RSNavState::set_led_bar_low_mode,
                RSNavState::force_led_bar,
                RSNavState::set_trunk_lights,
                RSNavState::set_reverse_lights_active,
                RSNavState::force_reverse_lights,
                RSNavState::force_reverse_camera,
                RSNavState::reverse,
                RSNavState::high_beam,
            ];
            for op in ops {
                let mut once = s;
                op(&mut once, on);
                let mut twice = once;
                op(&mut twice, on);
                assert_eq!(once, twice);
            }
        }
    }
}

#[test]
fn low_mode_and_trunk_are_independent() {
    let mut s = RSNavState::new();
    s.set_led_bar_low_mode(true);
    s.set_trunk_lights(true);
    assert_eq!(encode(&s), vec![0b10, 0b1_0000]);
    s.set_trunk_lights(false);
    assert!(s.led_bar_low_mode);
    assert!(!s.trunk_lights);
}
