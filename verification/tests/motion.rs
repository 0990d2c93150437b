use bevy_in_app::motion::{
    android_motion_changes, change_input, ios_motion_inputs, release_input, scan_code, ArrowKey,
    ButtonState, IosKeyboardInput, KeyChange, LogicalKey, Tilt,
};

fn change(key: ArrowKey, state: ButtonState) -> KeyChange {
    KeyChange { key, state }
}

fn ios(scan_code: u32, state: ButtonState, key: ArrowKey) -> IosKeyboardInput {
    IosKeyboardInput { scan_code, state, key_code: Some(key) }
}

#[test]
fn android_negative_tilt_presses_right() {
    assert_eq!(
        android_motion_changes(Tilt::Negative),
        vec![change(ArrowKey::Left, ButtonState::Released), change(ArrowKey::Right, ButtonState::Pressed)]
    );
}

#[test]
fn android_positive_tilt_presses_left() {
    assert_eq!(
        android_motion_changes(Tilt::Positive),
        vec![change(ArrowKey::Right, ButtonState::Released), change(ArrowKey::Left, ButtonState::Pressed)]
    );
}

#[test]
fn android_level_releases_both() {
    assert_eq!(
        android_motion_changes(Tilt::Level),
        vec![change(ArrowKey::Left, ButtonState::Released), change(ArrowKey::Right, ButtonState::Released)]
    );
}

#[test]
fn ios_scan_codes() {
    assert_eq!(scan_code(ArrowKey::Left), 123);
    assert_eq!(scan_code(ArrowKey::Right), 124);
}

#[test]
fn ios_release_input() {
    assert_eq!(release_input(ArrowKey::Left), ios(123, ButtonState::Released, ArrowKey::Left));
    assert_eq!(release_input(ArrowKey::Right), ios(124, ButtonState::Released, ArrowKey::Right));
}

#[test]
fn ios_positive_tilt_presses_right() {
    assert_eq!(
        ios_motion_inputs(Tilt::Positive),
        vec![ios(123, ButtonState::Released, ArrowKey::Left), ios(124, ButtonState::Pressed, ArrowKey::Right)]
    );
}

#[test]
fn ios_negative_tilt_presses_left() {
    assert_eq!(
        ios_motion_inputs(Tilt::Negative),
        vec![ios(124, ButtonState::Released, ArrowKey::Right), ios(123, ButtonState::Pressed, ArrowKey::Left)]
    );
}

#[test]
fn ios_level_releases_both() {
    assert_eq!(
        ios_motion_inputs(Tilt::Level),
        vec![ios(123, ButtonState::Released, ArrowKey::Left), ios(124, ButtonState::Released, ArrowKey::Right)]
    );
}

#[test]
fn change_input_goes_to_the_single_window() {
    let event = change_input(&[77], ArrowKey::Left, ButtonState::Pressed).unwrap();
    assert_eq!(event.logical_key, LogicalKey::ArrowLeft);
    assert_eq!(event.state, ButtonState::Pressed);
    assert_eq!(event.key_code, ArrowKey::Left);
    assert_eq!(event.window, 77);
    assert!(!event.repeat);
    assert_eq!(event.text, None);
    let event = change_input(&[5], ArrowKey::Right, ButtonState::Released).unwrap();
    assert_eq!(event.logical_key, LogicalKey::ArrowRight);
    assert_eq!(event.state, ButtonState::Released);
}

#[test]
fn change_input_needs_exactly_one_window() {
    assert_eq!(change_input(&[], ArrowKey::Left, ButtonState::Pressed), None);
    assert_eq!(change_input(&[1, 2], ArrowKey::Left, ButtonState::Pressed), None);
}
