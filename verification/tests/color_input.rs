use niko::color::Color;
use niko::input::Input;
use niko::key::Key;

#[test]
fn color_new_and_channels_round_trip() {
    let c = Color::new(10, 20, 30, 40);
    assert_eq!(c.channels(), (10, 20, 30, 40));
}

#[test]
fn rgb_is_fully_opaque() {
    let c = Color::rgb(1, 2, 3);
    assert_eq!(c.channels(), (1, 2, 3, 255));
}

#[test]
fn color_arithmetic_is_channelwise() {
    let a = Color::new(10, 20, 30, 40);
    let b = Color::new(1, 2, 3, 4);
    assert_eq!(a.add(b).channels(), (11, 22, 33, 44));
    assert_eq!(a.sub(b).channels(), (9, 18, 27, 36));
    assert_eq!(a.mul(b).channels(), (10, 40, 90, 160));
    assert_eq!(a.div(b).channels(), (10, 10, 10, 10));
}

#[test]
fn keys_go_down_and_up() {
    let mut input = Input::new();
    assert!(!input.is_key_down(Key::A));
    input.set_key(Key::A);
    input.set_key(Key::Space);
    assert!(input.is_key_down(Key::A));
    assert!(input.is_key_down(Key::Space));
    assert!(!input.is_key_down(Key::B));
    input.reset_key(Key::A);
    assert!(!input.is_key_down(Key::A));
    assert!(input.is_key_down(Key::Space));
}

#[test]
fn setting_a_key_twice_is_harmless() {
    let mut input = Input::new();
    input.set_key(Key::W);
    input.set_key(Key::W);
    input.reset_key(Key::W);
    assert!(!input.is_key_down(Key::W));
}
