//! Steering by tilting the device: what the arrow keys do when the device
//! tilts one way or the other, on Android and on iOS, and the keyboard events
//! that carry those key changes to the single Bevy window.
//!
//! How far the device tilts is measured outside this module; a motion reaches
//! it as a `Tilt`: past the platform's threshold in one direction or the
//! other, or within it.

use vstd::prelude::*;

verus! {

/// The two arrow keys that steer.
#[derive(Clone, Copy, Debug, PartialEq, Eq, Structural)]
pub enum ArrowKey {
    Left,
    Right,
}

/// Whether a key goes down or up.
#[derive(Clone, Copy, Debug, PartialEq, Eq, Structural)]
pub enum ButtonState {
    Pressed,
    Released,
}

/// Which way the device is tilted along its x axis.
#[derive(Clone, Copy, Debug, PartialEq, Eq, Structural)]
pub enum Tilt {
    /// Below minus the threshold.
    Negative,
    /// Within the threshold on either side.
    Level,
    /// Above the threshold.
    Positive,
}

/// A key going down or up.
#[derive(Clone, Copy, Debug, PartialEq, Eq, Structural)]
pub struct KeyChange {
    pub key: ArrowKey,
    pub state: ButtonState,
}

/// The logical key that a keyboard event reports.
#[derive(Clone, Copy, Debug, PartialEq, Eq, Structural)]
pub enum LogicalKey {
    ArrowLeft,
    ArrowRight,
}

/// A keyboard event sent to a Bevy window.
#[derive(Debug, PartialEq, Eq)]
pub struct KeyboardInput {
    pub logical_key: LogicalKey,
    pub state: ButtonState,
    pub key_code: ArrowKey,
    /// The bits of the window entity.
    pub window: u64,
    pub repeat: bool,
    pub text: Option<String>,
}

/// A keyboard event of the iOS build, which names keys by scan code too.
#[derive(Clone, Copy, Debug, PartialEq, Eq, Structural)]
pub struct IosKeyboardInput {
    pub scan_code: u32,
    pub state: ButtonState,
    pub key_code: Option<ArrowKey>,
}

/// The scan code of an arrow key on iOS: 123 for left, 124 for right.
pub open spec fn spec_scan_code(key: ArrowKey) -> u32 {
    match key {
        ArrowKey::Left => 123,
        ArrowKey::Right => 124,
    }
}

/// The key changes of a motion on Android: tilted negative, the left key is
/// released and the right one pressed; tilted positive, the right key is
/// released and the left one pressed; level, both are released.
pub open spec fn spec_android_changes(tilt: Tilt) -> Seq<KeyChange> {
    match tilt {
        Tilt::Negative => seq![
            KeyChange { key: ArrowKey::Left, state: ButtonState::Released },
            KeyChange { key: ArrowKey::Right, state: ButtonState::Pressed },
        ],
        Tilt::Positive => seq![
            KeyChange { key: ArrowKey::Right, state: ButtonState::Released },
            KeyChange { key: ArrowKey::Left, state: ButtonState::Pressed },
        ],
        Tilt::Level => seq![
            KeyChange { key: ArrowKey::Left, state: ButtonState::Released },
            KeyChange { key: ArrowKey::Right, state: ButtonState::Released },
        ],
    }
}

/// The iOS event that releases `key`.
pub open spec fn spec_release_input(key: ArrowKey) -> IosKeyboardInput {
    IosKeyboardInput { scan_code: spec_scan_code(key), state: ButtonState::Released, key_code: Some(key) }
}

/// The iOS event that presses `key`.
pub open spec fn spec_press_input(key: ArrowKey) -> IosKeyboardInput {
    IosKeyboardInput { scan_code: spec_scan_code(key), state: ButtonState::Pressed, key_code: Some(key) }
}

/// The events of a motion on iOS: tilted positive, the left key is released
/// and the right one pressed; tilted negative, the right key is released and
/// the left one pressed; level, both are released.
pub open spec fn spec_ios_inputs(tilt: Tilt) -> Seq<IosKeyboardInput> {
    match tilt {
        Tilt::Positive => seq![spec_release_input(ArrowKey::Left), spec_press_input(ArrowKey::Right)],
        Tilt::Negative => seq![spec_release_input(ArrowKey::Right), spec_press_input(ArrowKey::Left)],
        Tilt::Level => seq![spec_release_input(ArrowKey::Left), spec_release_input(ArrowKey::Right)],
    }
}

/// The logical key of an arrow key's event.
pub open spec fn spec_logical_key(key: ArrowKey) -> LogicalKey {
    match key {
        ArrowKey::Left => LogicalKey::ArrowLeft,
        ArrowKey::Right => LogicalKey::ArrowRight,
    }
}

/// The scan code of an arrow key on iOS.
pub fn scan_code(key: ArrowKey) -> (code: u32)
    ensures
        code == spec_scan_code(key),
{
    match key {
        ArrowKey::Left => 123,
        ArrowKey::Right => 124,
    }
}

/// The key changes that a motion causes on Android.
pub fn android_motion_changes(tilt: Tilt) -> (changes: Vec<KeyChange>)
    ensures
        changes@ == spec_android_changes(tilt),
{
    let (first, second) = match tilt {
        Tilt::Negative => (
            KeyChange { key: ArrowKey::Left, state: ButtonState::Released },
            KeyChange { key: ArrowKey::Right, state: ButtonState::Pressed },
        ),
        Tilt::Positive => (
            KeyChange { key: ArrowKey::Right, state: ButtonState::Released },
            KeyChange { key: ArrowKey::Left, state: ButtonState::Pressed },
        ),
        Tilt::Level => (
            KeyChange { key: ArrowKey::Left, state: ButtonState::Released },
            KeyChange { key: ArrowKey::Right, state: ButtonState::Released },
        ),
    };
    let mut changes: Vec<KeyChange> = Vec::new();
    changes.push(first);
    changes.push(second);
    assert(changes@ =~= spec_android_changes(tilt));
    changes
}

/// The iOS event that releases `key`.
pub fn release_input(key: ArrowKey) -> (input: IosKeyboardInput)
    ensures
        input == spec_release_input(key),
{
    IosKeyboardInput { scan_code: scan_code(key), state: ButtonState::Released, key_code: Some(key) }
}

/// The events that a motion causes on iOS, in the order they are sent.
pub fn ios_motion_inputs(tilt: Tilt) -> (inputs: Vec<IosKeyboardInput>)
    ensures
        inputs@ == spec_ios_inputs(tilt),
{
    let mut inputs: Vec<IosKeyboardInput> = Vec::new();
    let mut input = IosKeyboardInput { scan_code: 0, state: ButtonState::Pressed, key_code: None };
    match tilt {
        Tilt::Positive => {
            inputs.push(release_input(ArrowKey::Left));
            input.scan_code = scan_code(ArrowKey::Right);
            input.key_code = Some(ArrowKey::Right);
        },
        Tilt::Negative => {
            inputs.push(release_input(ArrowKey::Right));
            input.scan_code = scan_code(ArrowKey::Left);
            input.key_code = Some(ArrowKey::Left);
        },
        Tilt::Level => {
            inputs.push(release_input(ArrowKey::Left));
            inputs.push(release_input(ArrowKey::Right));
        },
    }
    if input.key_code.is_some() {
        inputs.push(input);
    }
    assert(inputs@ =~= spec_ios_inputs(tilt));
    inputs
}

/// The keyboard event that carries a key change to the window, sent only
/// when there is exactly one window (given by the bits of its entity).
pub fn change_input(windows: &[u64], key_code: ArrowKey, state: ButtonState) -> (input: Option<KeyboardInput>)
    ensures
        windows@.len() == 1 <==> input is Some,
        input matches Some(event) ==> {
            &&& event.logical_key == spec_logical_key(key_code)
            &&& event.state == state
            &&& event.key_code == key_code
            &&& event.window == windows@[0]
            &&& !event.repeat
            &&& event.text is None
        },
{
    if windows.len() == 1 {
        let logical_key = match key_code {
            ArrowKey::Left => LogicalKey::ArrowLeft,
            ArrowKey::Right => LogicalKey::ArrowRight,
        };
        Some(KeyboardInput {
            logical_key,
            state,
            key_code,
            window: windows[0],
            repeat: false,
            text: None,
        })
    } else {
        None
    }
}

/// A motion on Android presses at most one arrow key, and only after
/// releasing the other one; when the device is level it presses none.
pub proof fn lemma_android_motion_steers_one_way(tilt: Tilt)
    ensures
        forall|i: int| 0 <= i < spec_android_changes(tilt).len()
            && #[trigger] spec_android_changes(tilt)[i].state == ButtonState::Pressed
            ==> i == 1 && spec_android_changes(tilt)[0].state == ButtonState::Released
                && spec_android_changes(tilt)[0].key != spec_android_changes(tilt)[1].key,
        tilt == Tilt::Level ==> forall|i: int| 0 <= i < spec_android_changes(tilt).len()
            ==> #[trigger] spec_android_changes(tilt)[i].state == ButtonState::Released,
{
}

/// A motion on iOS presses at most one arrow key, and only after releasing
/// the other; when the device is level it presses none.
pub proof fn lemma_ios_motion_steers_one_way(tilt: Tilt)
    ensures
        forall|i: int| 0 <= i < spec_ios_inputs(tilt).len()
            && #[trigger] spec_ios_inputs(tilt)[i].state == ButtonState::Pressed
            ==> i == 1 && spec_ios_inputs(tilt)[0].state == ButtonState::Released
                && spec_ios_inputs(tilt)[0].key_code != spec_ios_inputs(tilt)[1].key_code,
        tilt == Tilt::Level ==> forall|i: int| 0 <= i < spec_ios_inputs(tilt).len()
            ==> #[trigger] spec_ios_inputs(tilt)[i].state == ButtonState::Released,
        forall|i: int| 0 <= i < spec_ios_inputs(tilt).len()
            ==> ((#[trigger] spec_ios_inputs(tilt)[i]).key_code matches Some(k)
                && spec_ios_inputs(tilt)[i].scan_code == spec_scan_code(k)),
{
}

} // verus!
