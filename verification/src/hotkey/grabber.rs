//! Decisions of the keyboard event tap.
//!
//! Modifier keys (Cmd, Opt, Shift) arrive as flag changes, never as key
//! downs or ups. A key event under Cmd+Opt is swallowed so that it never
//! reaches the focused application; autorepeat key downs under Cmd+Opt
//! are swallowed without firing again.

use crate::hotkey::chord::{
    digit_key, cmd_held, opt_held, shift_held, press_action, press_consumes_tab, release_action, ChordDetector, HotkeyAction, Key,
};
use vstd::prelude::*;

verus! {

/// The kind of a keyboard event delivered to the tap.
#[derive(Clone, Copy, Debug, PartialEq, Eq, Structural)]
pub enum TapEventKind {
    FlagsChanged,
    KeyDown,
    KeyUp,
    Other,
}

/// What the tap reads from one keyboard event.
#[derive(Clone, Copy, Debug, PartialEq, Eq, Structural)]
pub struct TapEvent {
    pub kind: TapEventKind,
    /// The hardware key code.
    pub keycode: u16,
    /// The event is an autorepeat of a held key.
    pub autorepeat: bool,
    /// The Command flag is set.
    pub cmd: bool,
    /// The Option (Alternate) flag is set.
    pub opt: bool,
    /// The Shift flag is set.
    pub shift: bool,
}

/// What the tap does with one event: let it through to the system or
/// swallow it, and which action (if any) to hand to the engine.
#[derive(Clone, Copy, Debug, PartialEq, Eq, Structural)]
pub struct TapDecision {
    pub pass_through: bool,
    pub action: Option<HotkeyAction>,
}

/// macOS hardware key codes of the keys the tap understands.
pub open spec fn key_of_code(code: u16) -> Option<Key> {
    match code {
        0 => Some(Key::KeyA),
        1 => Some(Key::KeyS),
        2 => Some(Key::KeyD),
        3 => Some(Key::KeyF),
        4 => Some(Key::KeyH),
        5 => Some(Key::KeyG),
        6 => Some(Key::KeyZ),
        7 => Some(Key::KeyX),
        8 => Some(Key::KeyC),
        9 => Some(Key::KeyV),
        11 => Some(Key::KeyB),
        12 => Some(Key::KeyQ),
        13 => Some(Key::KeyW),
        14 => Some(Key::KeyE),
        15 => Some(Key::KeyR),
        16 => Some(Key::KeyY),
        17 => Some(Key::KeyT),
        31 => Some(Key::KeyO),
        32 => Some(Key::KeyU),
        34 => Some(Key::KeyI),
        35 => Some(Key::KeyP),
        37 => Some(Key::KeyL),
        38 => Some(Key::KeyJ),
        40 => Some(Key::KeyK),
        45 => Some(Key::KeyN),
        46 => Some(Key::KeyM),
        18 => Some(Key::Num1),
        19 => Some(Key::Num2),
        20 => Some(Key::Num3),
        21 => Some(Key::Num4),
        23 => Some(Key::Num5),
        22 => Some(Key::Num6),
        26 => Some(Key::Num7),
        28 => Some(Key::Num8),
        25 => Some(Key::Num9),
        29 => Some(Key::Num0),
        48 => Some(Key::Tab),
        53 => Some(Key::Escape),
        36 => Some(Key::Return),
        51 => Some(Key::Backspace),
        49 => Some(Key::Space),
        123 => Some(Key::LeftArrow),
        124 => Some(Key::RightArrow),
        125 => Some(Key::DownArrow),
        126 => Some(Key::UpArrow),
        _ => None,
    }
}

/// The held keys after mirroring the modifier flags: a set flag holds the
/// left-hand key, a clear flag releases both sides.
pub open spec fn synced_modifiers(held: Set<Key>, cmd: bool, opt: bool, shift: bool) -> Set<Key> {
    let h1 = if cmd {
        held.insert(Key::MetaLeft)
    } else {
        held.remove(Key::MetaLeft).remove(Key::MetaRight)
    };
    let h2 = if opt {
        h1.insert(Key::Alt)
    } else {
        h1.remove(Key::Alt).remove(Key::AltGr)
    };
    if shift {
        h2.insert(Key::ShiftLeft)
    } else {
        h2.remove(Key::ShiftLeft).remove(Key::ShiftRight)
    }
}

/// The detector state (held keys, Tab consumed) after an event.
pub open spec fn state_after_event(held: Set<Key>, tab_consumed: bool, ev: TapEvent) -> (Set<Key>, bool) {
    match ev.kind {
        TapEventKind::FlagsChanged => (synced_modifiers(held, ev.cmd, ev.opt, ev.shift), tab_consumed),
        TapEventKind::KeyDown => {
            if ev.autorepeat && ev.cmd && ev.opt {
                (held, tab_consumed)
            } else {
                match key_of_code(ev.keycode) {
                    None => (held, tab_consumed),
                    Some(k) => {
                        let h = held.insert(k);
                        if ev.cmd && ev.opt {
                            (h, press_consumes_tab(h, tab_consumed, k))
                        } else {
                            (h, tab_consumed)
                        }
                    },
                }
            }
        },
        TapEventKind::KeyUp => match key_of_code(ev.keycode) {
            None => (held, tab_consumed),
            Some(k) => (held.remove(k), if k == Key::Tab { false } else { tab_consumed }),
        },
        TapEventKind::Other => (held, tab_consumed),
    }
}

/// What the tap does with an event, given the detector state before it.
pub open spec fn decision_for_event(held: Set<Key>, tab_consumed: bool, ev: TapEvent, mode_static: bool)
    -> TapDecision
{
    let chord = ev.cmd && ev.opt;
    match ev.kind {
        TapEventKind::KeyDown => {
            if ev.autorepeat && chord {
                TapDecision { pass_through: false, action: None }
            } else {
                match key_of_code(ev.keycode) {
                    None => TapDecision { pass_through: true, action: None },
                    Some(k) => if chord {
                        TapDecision {
                            pass_through: false,
                            action: press_action(held.insert(k), tab_consumed, k, mode_static),
                        }
                    } else {
                        TapDecision { pass_through: true, action: None }
                    },
                }
            }
        },
        TapEventKind::KeyUp => match key_of_code(ev.keycode) {
            None => TapDecision { pass_through: true, action: None },
            Some(k) => if chord {
                TapDecision { pass_through: false, action: release_action(held, k, mode_static) }
            } else {
                TapDecision { pass_through: true, action: None }
            },
        },
        _ => TapDecision { pass_through: true, action: None },
    }
}

/// Map a macOS hardware key code to a key.
pub fn keycode_to_key(code: u16) -> (r: Option<Key>)
    ensures
        r == key_of_code(code),
{
    match code {
        0 => Some(Key::KeyA),
        1 => Some(Key::KeyS),
        2 => Some(Key::KeyD),
        3 => Some(Key::KeyF),
        4 => Some(Key::KeyH),
        5 => Some(Key::KeyG),
        6 => Some(Key::KeyZ),
        7 => Some(Key::KeyX),
        8 => Some(Key::KeyC),
        9 => Some(Key::KeyV),
        11 => Some(Key::KeyB),
        12 => Some(Key::KeyQ),
        13 => Some(Key::KeyW),
        14 => Some(Key::KeyE),
        15 => Some(Key::KeyR),
        16 => Some(Key::KeyY),
        17 => Some(Key::KeyT),
        31 => Some(Key::KeyO),
        32 => Some(Key::KeyU),
        34 => Some(Key::KeyI),
        35 => Some(Key::KeyP),
        37 => Some(Key::KeyL),
        38 => Some(Key::KeyJ),
        40 => Some(Key::KeyK),
        45 => Some(Key::KeyN),
        46 => Some(Key::KeyM),
        18 => Some(Key::Num1),
        19 => Some(Key::Num2),
        20 => Some(Key::Num3),
        21 => Some(Key::Num4),
        23 => Some(Key::Num5),
        22 => Some(Key::Num6),
        26 => Some(Key::Num7),
        28 => Some(Key::Num8),
        25 => Some(Key::Num9),
        29 => Some(Key::Num0),
        48 => Some(Key::Tab),
        53 => Some(Key::Escape),
        36 => Some(Key::Return),
        51 => Some(Key::Backspace),
        49 => Some(Key::Space),
        123 => Some(Key::LeftArrow),
        124 => Some(Key::RightArrow),
        125 => Some(Key::DownArrow),
        126 => Some(Key::UpArrow),
        _ => None,
    }
}

/// Mirror the modifier flags of a flag-change event into the detector.
pub fn sync_modifiers(detector: &mut ChordDetector, cmd: bool, opt: bool, shift: bool)
    ensures
        final(detector).held_keys() == synced_modifiers(old(detector).held_keys(), cmd, opt, shift),
        final(detector).is_tab_consumed() == old(detector).is_tab_consumed(),
{
    if cmd {
        detector.key_down(Key::MetaLeft);
    } else {
        detector.key_up(Key::MetaLeft);
        detector.key_up(Key::MetaRight);
    }
    if opt {
        detector.key_down(Key::Alt);
    } else {
        detector.key_up(Key::Alt);
        detector.key_up(Key::AltGr);
    }
    if shift {
        detector.key_down(Key::ShiftLeft);
    } else {
        detector.key_up(Key::ShiftLeft);
        detector.key_up(Key::ShiftRight);
    }
}

/// Update the detector with one event and decide whether the event goes
/// through and which action it fires.
pub fn handle_event(detector: &mut ChordDetector, event: &TapEvent, mode_static: bool) -> (d: TapDecision)
    ensures
        d == decision_for_event(
            old(detector).held_keys(),
            old(detector).is_tab_consumed(),
            *event,
            mode_static,
        ),
        (final(detector).held_keys(), final(detector).is_tab_consumed()) == state_after_event(
            old(detector).held_keys(),
            old(detector).is_tab_consumed(),
            *event,
        ),
{
    let chord = event.cmd && event.opt;
    match event.kind {
        // Flag changes carry Cmd / Opt / Shift; they always go through.
        TapEventKind::FlagsChanged => {
            sync_modifiers(detector, event.cmd, event.opt, event.shift);
            TapDecision { pass_through: true, action: None }
        },
        TapEventKind::KeyDown => {
            // A held key repeats its key down; under Cmd+Opt the repeat
            // is swallowed without firing again.
            if event.autorepeat && chord {
                return TapDecision { pass_through: false, action: None };
            }
            let key = match keycode_to_key(event.keycode) {
                Some(k) => k,
                None => return TapDecision { pass_through: true, action: None },
            };
            detector.key_down(key);
            if chord {
                // Tab and Esc fire on press; the key never reaches the system.
                let action = detector.evaluate_press(&key, mode_static);
                return TapDecision { pass_through: false, action };
            }
            TapDecision { pass_through: true, action: None }
        },
        // C / V / X fire on release, while Cmd+Opt are still held.
        TapEventKind::KeyUp => {
            let key = match keycode_to_key(event.keycode) {
                Some(k) => k,
                None => return TapDecision { pass_through: true, action: None },
            };
            let action = if chord {
                detector.evaluate_release(&key, mode_static)
            } else {
                None
            };
            detector.key_up(key);
            TapDecision { pass_through: !chord, action }
        },
        TapEventKind::Other => TapDecision { pass_through: true, action: None },
    }
}

// ── Laws ──────────────────────────────────────────────────────────────

/// An action only ever comes with an event that is swallowed, so a
/// hotkey never also reaches the focused application.
pub proof fn law_action_only_when_swallowed(held: Set<Key>, tab_consumed: bool, ev: TapEvent, mode_static: bool)
    ensures
        decision_for_event(held, tab_consumed, ev, mode_static).action is Some
            ==> !decision_for_event(held, tab_consumed, ev, mode_static).pass_through,
{
}

/// Modifier changes, and every event without both Cmd and Opt set, go
/// through untouched and fire nothing.
pub proof fn law_plain_events_pass(held: Set<Key>, tab_consumed: bool, ev: TapEvent, mode_static: bool)
    requires
        ev.kind == TapEventKind::FlagsChanged || !(ev.cmd && ev.opt),
    ensures
        decision_for_event(held, tab_consumed, ev, mode_static).pass_through,
        decision_for_event(held, tab_consumed, ev, mode_static).action is None,
{
}

/// Under Cmd+Opt, key downs of known keys and all autorepeats are
/// swallowed; an autorepeat fires nothing and leaves the detector as it
/// was.
pub proof fn law_chord_key_downs_swallowed(held: Set<Key>, tab_consumed: bool, ev: TapEvent, mode_static: bool)
    requires
        ev.kind == TapEventKind::KeyDown,
        ev.cmd,
        ev.opt,
        ev.autorepeat || key_of_code(ev.keycode) is Some,
    ensures
        !decision_for_event(held, tab_consumed, ev, mode_static).pass_through,
        ev.autorepeat ==> decision_for_event(held, tab_consumed, ev, mode_static).action is None
            && state_after_event(held, tab_consumed, ev) == (held, tab_consumed),
{
}

/// Key codes the tap does not know go through and leave the detector as
/// it was.
pub proof fn law_unknown_keys_ignored(held: Set<Key>, tab_consumed: bool, ev: TapEvent, mode_static: bool)
    requires
        ev.kind == TapEventKind::KeyDown || ev.kind == TapEventKind::KeyUp,
        key_of_code(ev.keycode) is None,
        !(ev.kind == TapEventKind::KeyDown && ev.autorepeat && ev.cmd && ev.opt),
    ensures
        decision_for_event(held, tab_consumed, ev, mode_static) == (TapDecision {
            pass_through: true,
            action: None,
        }),
        state_after_event(held, tab_consumed, ev) == (held, tab_consumed),
{
}

/// The modifier flags are mirrored exactly: after a flag change, Cmd,
/// Opt and Shift count as held exactly when their flags are set.
pub proof fn law_modifiers_mirror_flags(held: Set<Key>, cmd: bool, opt: bool, shift: bool)
    ensures
        cmd_held(synced_modifiers(held, cmd, opt, shift)) == cmd,
        opt_held(synced_modifiers(held, cmd, opt, shift)) == opt,
        shift_held(synced_modifiers(held, cmd, opt, shift)) == shift,
{
}

/// macOS virtual key codes of the digit keys 1-9 (kVK_ANSI_1 ... kVK_ANSI_9).
pub open spec fn macos_digit_codes() -> Seq<u16> {
    seq![0x12u16, 0x13u16, 0x14u16, 0x15u16, 0x17u16, 0x16u16, 0x1Au16, 0x1Cu16, 0x19u16]
}

/// Each key code maps to the key it denotes: the digit codes to the digit
/// printed on the key, and the codes of C, X, V, Tab and Esc (kVK_ANSI_C,
/// kVK_ANSI_X, kVK_ANSI_V, kVK_Tab, kVK_Escape) to those keys.
pub proof fn law_key_codes_denote_keys(n: int)
    requires
        1 <= n <= 9,
    ensures
        key_of_code(macos_digit_codes()[n - 1]) == Some(digit_key(n)),
        key_of_code(0x08) == Some(Key::KeyC),
        key_of_code(0x07) == Some(Key::KeyX),
        key_of_code(0x09) == Some(Key::KeyV),
        key_of_code(0x30) == Some(Key::Tab),
        key_of_code(0x35) == Some(Key::Escape),
{
}

/// The key codes of macOS keyboards (kVK_ANSI_A ... kVK_ANSI_Z,
/// kVK_ANSI_0 ... kVK_ANSI_9, kVK_Tab, kVK_Escape, kVK_Return,
/// kVK_Delete, kVK_Space and the four arrows) with the keys they denote.
pub open spec fn macos_key_codes() -> Seq<(u16, Key)> {
    seq![
        (0x00u16, Key::KeyA), (0x0Bu16, Key::KeyB), (0x08u16, Key::KeyC), (0x02u16, Key::KeyD),
        (0x0Eu16, Key::KeyE), (0x03u16, Key::KeyF), (0x05u16, Key::KeyG), (0x04u16, Key::KeyH),
        (0x22u16, Key::KeyI), (0x26u16, Key::KeyJ), (0x28u16, Key::KeyK), (0x25u16, Key::KeyL),
        (0x2Eu16, Key::KeyM), (0x2Du16, Key::KeyN), (0x1Fu16, Key::KeyO), (0x23u16, Key::KeyP),
        (0x0Cu16, Key::KeyQ), (0x0Fu16, Key::KeyR), (0x01u16, Key::KeyS), (0x11u16, Key::KeyT),
        (0x20u16, Key::KeyU), (0x09u16, Key::KeyV), (0x0Du16, Key::KeyW), (0x07u16, Key::KeyX),
        (0x10u16, Key::KeyY), (0x06u16, Key::KeyZ),
        (0x1Du16, Key::Num0), (0x12u16, Key::Num1), (0x13u16, Key::Num2), (0x14u16, Key::Num3),
        (0x15u16, Key::Num4), (0x17u16, Key::Num5), (0x16u16, Key::Num6), (0x1Au16, Key::Num7),
        (0x1Cu16, Key::Num8), (0x19u16, Key::Num9),
        (0x30u16, Key::Tab), (0x35u16, Key::Escape), (0x24u16, Key::Return),
        (0x33u16, Key::Backspace), (0x31u16, Key::Space),
        (0x7Bu16, Key::LeftArrow), (0x7Cu16, Key::RightArrow), (0x7Du16, Key::DownArrow),
        (0x7Eu16, Key::UpArrow),
    ]
}

/// The tap knows exactly the listed key codes, each as the key it
/// denotes; every other code is unknown.
pub proof fn law_key_table(code: u16)
    ensures
        forall|i: int| 0 <= i < macos_key_codes().len() ==> key_of_code(#[trigger] macos_key_codes()[i].0)
            == Some(macos_key_codes()[i].1),
        key_of_code(code) is Some ==> exists|i: int| 0 <= i < macos_key_codes().len()
            && #[trigger] macos_key_codes()[i].0 == code,
{
    let t = macos_key_codes();
    assert forall|i: int| 0 <= i < t.len() implies key_of_code(#[trigger] t[i].0) == Some(t[i].1) by {
        reveal_with_fuel(key_of_code, 1);
    }
    if key_of_code(code) is Some {
        let i: int = if code == 0x00 { 0 } else if code == 0x0B { 1 } else if code == 0x08 { 2 }
            else if code == 0x02 { 3 } else if code == 0x0E { 4 } else if code == 0x03 { 5 }
            else if code == 0x05 { 6 } else if code == 0x04 { 7 } else if code == 0x22 { 8 }
            else if code == 0x26 { 9 } else if code == 0x28 { 10 } else if code == 0x25 { 11 }
            else if code == 0x2E { 12 } else if code == 0x2D { 13 } else if code == 0x1F { 14 }
            else if code == 0x23 { 15 } else if code == 0x0C { 16 } else if code == 0x0F { 17 }
            else if code == 0x01 { 18 } else if code == 0x11 { 19 } else if code == 0x20 { 20 }
            else if code == 0x09 { 21 } else if code == 0x0D { 22 } else if code == 0x07 { 23 }
            else if code == 0x10 { 24 } else if code == 0x06 { 25 } else if code == 0x1D { 26 }
            else if code == 0x12 { 27 } else if code == 0x13 { 28 } else if code == 0x14 { 29 }
            else if code == 0x15 { 30 } else if code == 0x17 { 31 } else if code == 0x16 { 32 }
            else if code == 0x1A { 33 } else if code == 0x1C { 34 } else if code == 0x19 { 35 }
            else if code == 0x30 { 36 } else if code == 0x35 { 37 } else if code == 0x24 { 38 }
            else if code == 0x33 { 39 } else if code == 0x31 { 40 } else if code == 0x7B { 41 }
            else if code == 0x7C { 42 } else if code == 0x7D { 43 } else { 44 };
        assert(t[i].0 == code);
    }
}

/// A key-up of a known key releases that key whatever the modifier flags
/// of the event: only the pass/swallow decision and the action depend on
/// Cmd+Opt.
pub proof fn law_key_up_releases_key(held: Set<Key>, tab_consumed: bool, ev: TapEvent, k: Key)
    requires
        ev.kind == TapEventKind::KeyUp,
        key_of_code(ev.keycode) == Some(k),
    ensures
        state_after_event(held, tab_consumed, ev).0 == held.remove(k),
        !state_after_event(held, tab_consumed, ev).0.contains(k),
        state_after_event(held, tab_consumed, ev).1 == (k != Key::Tab && tab_consumed),
{
}

/// A key pressed and released, with any modifier flags on either event,
/// leaves the held keys as a detector that never saw it would have them.
pub proof fn law_typed_key_leaves_no_trace(
    held: Set<Key>,
    tab_consumed: bool,
    down: TapEvent,
    up: TapEvent,
)
    requires
        down.kind == TapEventKind::KeyDown,
        up.kind == TapEventKind::KeyUp,
        down.keycode == up.keycode,
        key_of_code(down.keycode) is Some,
        !held.contains(key_of_code(down.keycode).unwrap()),
    ensures
        ({
            let mid = state_after_event(held, tab_consumed, down);
            state_after_event(mid.0, mid.1, up).0 == held
        }),
{
    let k = key_of_code(down.keycode).unwrap();
    let mid = state_after_event(held, tab_consumed, down);
    assert(mid.0 == held || mid.0 == held.insert(k));
    assert(mid.0.remove(k) =~= held);
}

/// A Cmd+Opt chord of a digit key and C, X or V, typed on the keys that
/// carry those labels, names the slot printed on the digit key, in static
/// mode, whatever keys were typed and released before.
pub proof fn law_digit_chord_names_slot(held: Set<Key>, tab_consumed: bool, n: int, up: TapEvent)
    requires
        1 <= n <= 9,
        cmd_held(held),
        opt_held(held),
        held.contains(key_of_code(macos_digit_codes()[n - 1]).unwrap()),
        forall|m: int| 1 <= m <= 9 && m != n ==> !held.contains(#[trigger] digit_key(m)),
        up.kind == TapEventKind::KeyUp,
        up.cmd,
        up.opt,
        up.keycode == 0x08,
    ensures
        decision_for_event(held, tab_consumed, up, true) == (TapDecision {
            pass_through: false,
            action: Some(HotkeyAction::StaticCopy(n as usize)),
        }),
{
    law_key_codes_denote_keys(n);
    crate::hotkey::chord::law_digit_names_slot(held, n);
}

} // verus!
