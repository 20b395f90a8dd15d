use clipwallet::hotkey::{ChordDetector, HotkeyAction, Key};

fn with_keys(keys: &[Key]) -> ChordDetector {
    let mut d = ChordDetector::new();
    for k in keys {
        d.key_down(*k);
    }
    d
}

#[test]
fn new_detector_holds_no_modifiers() {
    let d = ChordDetector::new();
    assert!(!d.cmd());
    assert!(!d.opt());
}

#[test]
fn either_side_counts_as_modifier() {
    let d = with_keys(&[Key::MetaRight, Key::AltGr]);
    assert!(d.cmd());
    assert!(d.opt());
    let mut d = with_keys(&[Key::MetaLeft, Key::Alt]);
    d.key_up(Key::MetaLeft);
    assert!(!d.cmd());
    assert!(d.opt());
}

#[test]
fn key_down_twice_then_up_once_releases() {
    let mut d = ChordDetector::new();
    d.key_down(Key::MetaLeft);
    d.key_down(Key::MetaLeft);
    d.key_up(Key::MetaLeft);
    assert!(!d.cmd());
}

#[test]
fn nothing_fires_without_cmd_and_opt() {
    let mut d = with_keys(&[Key::MetaLeft, Key::Tab]);
    assert_eq!(d.evaluate_press(&Key::Tab, true), None);
    let d = with_keys(&[Key::Alt, Key::KeyC, Key::Num1]);
    assert_eq!(d.evaluate_release(&Key::KeyC, true), None);
}

#[test]
fn tab_navigates_next_in_both_modes() {
    let mut d = with_keys(&[Key::MetaLeft, Key::Alt, Key::Tab]);
    assert_eq!(d.evaluate_press(&Key::Tab, true), Some(HotkeyAction::StaticNavigateNext));
    let mut d = with_keys(&[Key::MetaLeft, Key::Alt, Key::Tab]);
    assert_eq!(d.evaluate_press(&Key::Tab, false), Some(HotkeyAction::DynamicNavigateNext));
}

#[test]
fn shift_tab_navigates_prev() {
    let mut d = with_keys(&[Key::MetaLeft, Key::Alt, Key::ShiftLeft, Key::Tab]);
    assert_eq!(d.evaluate_press(&Key::Tab, true), Some(HotkeyAction::StaticNavigatePrev));
    let mut d = with_keys(&[Key::MetaLeft, Key::Alt, Key::ShiftRight, Key::Tab]);
    assert_eq!(d.evaluate_press(&Key::Tab, false), Some(HotkeyAction::DynamicNavigatePrev));
}

#[test]
fn tab_fires_once_until_released() {
    let mut d = with_keys(&[Key::MetaLeft, Key::Alt, Key::Tab]);
    assert_eq!(d.evaluate_press(&Key::Tab, false), Some(HotkeyAction::DynamicNavigateNext));
    assert_eq!(d.evaluate_press(&Key::Tab, false), None);
    d.key_up(Key::Tab);
    d.key_down(Key::Tab);
    assert_eq!(d.evaluate_press(&Key::Tab, false), Some(HotkeyAction::DynamicNavigateNext));
}

#[test]
fn tab_with_escape_held_deletes() {
    let mut d = with_keys(&[Key::MetaLeft, Key::Alt, Key::Escape, Key::Tab]);
    assert_eq!(d.evaluate_press(&Key::Tab, true), Some(HotkeyAction::StaticDeleteCurrent));
}

#[test]
fn escape_with_tab_held_deletes_even_after_tab_fired() {
    let mut d = with_keys(&[Key::MetaLeft, Key::Alt, Key::Tab]);
    assert_eq!(d.evaluate_press(&Key::Tab, false), Some(HotkeyAction::DynamicNavigateNext));
    d.key_down(Key::Escape);
    assert_eq!(d.evaluate_press(&Key::Escape, false), Some(HotkeyAction::DynamicDeleteCurrent));
}

#[test]
fn escape_alone_does_nothing() {
    let mut d = with_keys(&[Key::MetaLeft, Key::Alt, Key::Escape]);
    assert_eq!(d.evaluate_press(&Key::Escape, true), None);
}

#[test]
fn other_keys_do_nothing_on_press() {
    let mut d = with_keys(&[Key::MetaLeft, Key::Alt, Key::KeyC]);
    assert_eq!(d.evaluate_press(&Key::KeyC, true), None);
}

#[test]
fn static_release_needs_digit() {
    let d = with_keys(&[Key::MetaLeft, Key::Alt, Key::KeyC]);
    assert_eq!(d.evaluate_release(&Key::KeyC, true), None);
    let d = with_keys(&[Key::MetaLeft, Key::Alt, Key::KeyC, Key::Num3]);
    assert_eq!(d.evaluate_release(&Key::KeyC, true), Some(HotkeyAction::StaticCopy(3)));
    let d = with_keys(&[Key::MetaLeft, Key::Alt, Key::KeyX, Key::Num9]);
    assert_eq!(d.evaluate_release(&Key::KeyX, true), Some(HotkeyAction::StaticCut(9)));
    let d = with_keys(&[Key::MetaLeft, Key::Alt, Key::KeyV, Key::Num1]);
    assert_eq!(d.evaluate_release(&Key::KeyV, true), Some(HotkeyAction::StaticPaste(1)));
}

#[test]
fn lowest_held_digit_wins() {
    let d = with_keys(&[Key::MetaLeft, Key::Alt, Key::Num7, Key::Num4, Key::KeyV]);
    assert_eq!(d.evaluate_release(&Key::KeyV, true), Some(HotkeyAction::StaticPaste(4)));
}

#[test]
fn digit_zero_is_not_a_slot() {
    let d = with_keys(&[Key::MetaLeft, Key::Alt, Key::Num0, Key::KeyC]);
    assert_eq!(d.evaluate_release(&Key::KeyC, true), None);
}

#[test]
fn dynamic_release_ignores_digits() {
    let d = with_keys(&[Key::MetaLeft, Key::Alt]);
    assert_eq!(d.evaluate_release(&Key::KeyC, false), Some(HotkeyAction::DynamicCopy));
    assert_eq!(d.evaluate_release(&Key::KeyX, false), Some(HotkeyAction::DynamicCut));
    assert_eq!(d.evaluate_release(&Key::KeyV, false), Some(HotkeyAction::DynamicPaste));
    assert_eq!(d.evaluate_release(&Key::KeyA, false), None);
}

#[test]
fn tab_stays_consumed_across_other_calls() {
    let mut d = with_keys(&[Key::MetaLeft, Key::Alt, Key::Tab]);
    assert!(d.evaluate_press(&Key::Tab, true).is_some());
    d.key_down(Key::ShiftLeft);
    d.key_up(Key::ShiftLeft);
    d.key_down(Key::KeyC);
    let _ = d.evaluate_release(&Key::KeyC, false);
    let _ = d.evaluate_press(&Key::Escape, true);
    assert_eq!(d.evaluate_press(&Key::Tab, true), None);
    assert_eq!(d.evaluate_press(&Key::Tab, false), None);
}
