use clipwallet::hotkey::grabber::{
    handle_event, keycode_to_key, sync_modifiers, TapDecision, TapEvent, TapEventKind,
};
use clipwallet::hotkey::{ChordDetector, HotkeyAction, Key};

fn ev(kind: TapEventKind, keycode: u16, cmd: bool, opt: bool) -> TapEvent {
    TapEvent { kind, keycode, autorepeat: false, cmd, opt, shift: false }
}

fn flags(cmd: bool, opt: bool, shift: bool) -> TapEvent {
    TapEvent { kind: TapEventKind::FlagsChanged, keycode: 0, autorepeat: false, cmd, opt, shift }
}

const PASS: TapDecision = TapDecision { pass_through: true, action: None };
const SWALLOW: TapDecision = TapDecision { pass_through: false, action: None };

#[test]
fn keycodes_map_to_keys() {
    assert_eq!(keycode_to_key(8), Some(Key::KeyC));
    assert_eq!(keycode_to_key(9), Some(Key::KeyV));
    assert_eq!(keycode_to_key(7), Some(Key::KeyX));
    assert_eq!(keycode_to_key(18), Some(Key::Num1));
    assert_eq!(keycode_to_key(23), Some(Key::Num5));
    assert_eq!(keycode_to_key(22), Some(Key::Num6));
    assert_eq!(keycode_to_key(25), Some(Key::Num9));
    assert_eq!(keycode_to_key(29), Some(Key::Num0));
    assert_eq!(keycode_to_key(48), Some(Key::Tab));
    assert_eq!(keycode_to_key(53), Some(Key::Escape));
    assert_eq!(keycode_to_key(126), Some(Key::UpArrow));
    assert_eq!(keycode_to_key(10), None);
    assert_eq!(keycode_to_key(55), None);
}

#[test]
fn sync_modifiers_mirrors_flags() {
    let mut d = ChordDetector::new();
    sync_modifiers(&mut d, true, true, false);
    assert!(d.cmd());
    assert!(d.opt());
    d.key_down(Key::MetaRight);
    sync_modifiers(&mut d, false, true, false);
    assert!(!d.cmd());
    assert!(d.opt());
}

#[test]
fn flag_changes_always_pass() {
    let mut d = ChordDetector::new();
    assert_eq!(handle_event(&mut d, &flags(true, true, false), true), PASS);
    assert!(d.cmd() && d.opt());
}

#[test]
fn plain_keys_pass_through() {
    let mut d = ChordDetector::new();
    assert_eq!(handle_event(&mut d, &ev(TapEventKind::KeyDown, 8, true, false), true), PASS);
    assert_eq!(handle_event(&mut d, &ev(TapEventKind::KeyUp, 8, true, false), true), PASS);
}

#[test]
fn static_copy_chord_fires_on_release_and_is_swallowed() {
    let mut d = ChordDetector::new();
    handle_event(&mut d, &flags(true, true, false), true);
    // hold digit 2, then press and release C
    assert_eq!(handle_event(&mut d, &ev(TapEventKind::KeyDown, 19, true, true), true), SWALLOW);
    assert_eq!(handle_event(&mut d, &ev(TapEventKind::KeyDown, 8, true, true), true), SWALLOW);
    assert_eq!(
        handle_event(&mut d, &ev(TapEventKind::KeyUp, 8, true, true), true),
        TapDecision { pass_through: false, action: Some(HotkeyAction::StaticCopy(2)) }
    );
}

#[test]
fn dynamic_tab_fires_on_press() {
    let mut d = ChordDetector::new();
    handle_event(&mut d, &flags(true, true, false), false);
    assert_eq!(
        handle_event(&mut d, &ev(TapEventKind::KeyDown, 48, true, true), false),
        TapDecision { pass_through: false, action: Some(HotkeyAction::DynamicNavigateNext) }
    );
    // autorepeat under the chord is swallowed without firing
    let repeat = TapEvent { autorepeat: true, ..ev(TapEventKind::KeyDown, 48, true, true) };
    assert_eq!(handle_event(&mut d, &repeat, false), SWALLOW);
    // a second key down without release does not fire either
    assert_eq!(handle_event(&mut d, &ev(TapEventKind::KeyDown, 48, true, true), false), SWALLOW);
    assert_eq!(handle_event(&mut d, &ev(TapEventKind::KeyUp, 48, true, true), false), SWALLOW);
    assert_eq!(
        handle_event(&mut d, &ev(TapEventKind::KeyDown, 48, true, true), false),
        TapDecision { pass_through: false, action: Some(HotkeyAction::DynamicNavigateNext) }
    );
}

#[test]
fn shift_tab_via_flags() {
    let mut d = ChordDetector::new();
    handle_event(&mut d, &flags(true, true, true), true);
    assert_eq!(
        handle_event(&mut d, &ev(TapEventKind::KeyDown, 48, true, true), true),
        TapDecision { pass_through: false, action: Some(HotkeyAction::StaticNavigatePrev) }
    );
}

#[test]
fn unknown_keycode_passes_under_chord() {
    let mut d = ChordDetector::new();
    handle_event(&mut d, &flags(true, true, false), true);
    assert_eq!(handle_event(&mut d, &ev(TapEventKind::KeyDown, 10, true, true), true), PASS);
    assert_eq!(handle_event(&mut d, &ev(TapEventKind::KeyUp, 10, true, true), true), PASS);
}

#[test]
fn other_events_pass() {
    let mut d = ChordDetector::new();
    assert_eq!(handle_event(&mut d, &ev(TapEventKind::Other, 8, true, true), true), PASS);
}
