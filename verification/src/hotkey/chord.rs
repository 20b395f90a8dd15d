//! ChordDetector: tracks which keys are held and turns Cmd+Opt chords
//! into clipboard actions.

use vstd::prelude::*;

verus! {

/// The keys that the event tap reports, including the modifiers.
#[derive(Clone, Copy, Debug, PartialEq, Eq, Structural)]
pub enum Key {
    KeyA, KeyB, KeyC, KeyD, KeyE, KeyF, KeyG, KeyH, KeyI, KeyJ, KeyK, KeyL, KeyM,
    KeyN, KeyO, KeyP, KeyQ, KeyR, KeyS, KeyT, KeyU, KeyV, KeyW, KeyX, KeyY, KeyZ,
    Num0, Num1, Num2, Num3, Num4, Num5, Num6, Num7, Num8, Num9,
    Tab, Escape, Return, Backspace, Space,
    LeftArrow, RightArrow, DownArrow, UpArrow,
    MetaLeft, MetaRight, Alt, AltGr, ShiftLeft, ShiftRight,
}

#[derive(Debug, Clone, Copy, PartialEq, Eq, Structural)]
pub enum HotkeyAction {
    // Static mode
    StaticCopy(usize),
    StaticPaste(usize),
    StaticCut(usize),
    StaticNavigateNext,
    StaticNavigatePrev,
    StaticDeleteCurrent,

    // Dynamic mode
    DynamicCopy,
    DynamicCut,
    /// Cmd+Opt+V in dynamic mode: pastes the cursor entry.
    DynamicPaste,
    DynamicNavigateNext,
    DynamicNavigatePrev,
    DynamicDeleteCurrent,

    // Internal
    CursorReset,
}

// ── The chord rules, over the set of held keys ────────────────────────

/// Cmd (either side) is held.
pub open spec fn cmd_held(held: Set<Key>) -> bool {
    held.contains(Key::MetaLeft) || held.contains(Key::MetaRight)
}

/// Opt (Alt or AltGr) is held.
pub open spec fn opt_held(held: Set<Key>) -> bool {
    held.contains(Key::Alt) || held.contains(Key::AltGr)
}

/// Shift (either side) is held.
pub open spec fn shift_held(held: Set<Key>) -> bool {
    held.contains(Key::ShiftLeft) || held.contains(Key::ShiftRight)
}

/// The lowest digit 1-9 whose key is held.
pub open spec fn lowest_digit_held(held: Set<Key>) -> Option<usize> {
    if held.contains(Key::Num1) {
        Some(1)
    } else if held.contains(Key::Num2) {
        Some(2)
    } else if held.contains(Key::Num3) {
        Some(3)
    } else if held.contains(Key::Num4) {
        Some(4)
    } else if held.contains(Key::Num5) {
        Some(5)
    } else if held.contains(Key::Num6) {
        Some(6)
    } else if held.contains(Key::Num7) {
        Some(7)
    } else if held.contains(Key::Num8) {
        Some(8)
    } else if held.contains(Key::Num9) {
        Some(9)
    } else {
        None
    }
}

pub open spec fn delete_action(mode_static: bool) -> HotkeyAction {
    if mode_static {
        HotkeyAction::StaticDeleteCurrent
    } else {
        HotkeyAction::DynamicDeleteCurrent
    }
}

/// The action a key press fires, given the held keys (the pressed key
/// among them) and whether the current Tab press has already fired.
pub open spec fn press_action(held: Set<Key>, tab_consumed: bool, key: Key, mode_static: bool)
    -> Option<HotkeyAction>
{
    if !cmd_held(held) || !opt_held(held) {
        None
    } else if key == Key::Tab {
        if tab_consumed {
            None
        } else if held.contains(Key::Escape) {
            Some(delete_action(mode_static))
        } else if shift_held(held) {
            Some(
                if mode_static {
                    HotkeyAction::StaticNavigatePrev
                } else {
                    HotkeyAction::DynamicNavigatePrev
                },
            )
        } else {
            Some(
                if mode_static {
                    HotkeyAction::StaticNavigateNext
                } else {
                    HotkeyAction::DynamicNavigateNext
                },
            )
        }
    } else if key == Key::Escape && held.contains(Key::Tab) {
        Some(delete_action(mode_static))
    } else {
        None
    }
}

/// Whether the Tab press is consumed after a key press.
pub open spec fn press_consumes_tab(held: Set<Key>, tab_consumed: bool, key: Key) -> bool {
    if cmd_held(held) && opt_held(held) && key == Key::Tab {
        true
    } else {
        tab_consumed
    }
}

/// The action a key release fires: C, X and V, with Cmd+Opt held (and,
/// in static mode, a digit naming the slot).
pub open spec fn release_action(held: Set<Key>, key: Key, mode_static: bool) -> Option<HotkeyAction> {
    if !cmd_held(held) || !opt_held(held) {
        None
    } else if key == Key::KeyC {
        if mode_static {
            match lowest_digit_held(held) {
                Some(d) => Some(HotkeyAction::StaticCopy(d)),
                None => None,
            }
        } else {
            Some(HotkeyAction::DynamicCopy)
        }
    } else if key == Key::KeyX {
        if mode_static {
            match lowest_digit_held(held) {
                Some(d) => Some(HotkeyAction::StaticCut(d)),
                None => None,
            }
        } else {
            Some(HotkeyAction::DynamicCut)
        }
    } else if key == Key::KeyV {
        if mode_static {
            match lowest_digit_held(held) {
                Some(d) => Some(HotkeyAction::StaticPaste(d)),
                None => None,
            }
        } else {
            Some(HotkeyAction::DynamicPaste)
        }
    } else {
        None
    }
}

/// The calls on a detector, with their arguments.
pub enum DetectorOp {
    KeyDown(Key),
    KeyUp(Key),
    EvaluatePress(Key, bool),
    EvaluateRelease(Key, bool),
}

/// The detector state (held keys, Tab consumed) after one call.
pub open spec fn detector_after(held: Set<Key>, tab_consumed: bool, op: DetectorOp) -> (Set<Key>, bool) {
    match op {
        DetectorOp::KeyDown(k) => (held.insert(k), tab_consumed),
        DetectorOp::KeyUp(k) => (held.remove(k), if k == Key::Tab { false } else { tab_consumed }),
        DetectorOp::EvaluatePress(k, _) => (held, press_consumes_tab(held, tab_consumed, k)),
        DetectorOp::EvaluateRelease(_, _) => (held, tab_consumed),
    }
}

/// The detector state after a sequence of calls, first to last.
pub open spec fn detector_after_all(held: Set<Key>, tab_consumed: bool, ops: Seq<DetectorOp>) -> (Set<Key>, bool)
    decreases ops.len(),
{
    if ops.len() == 0 {
        (held, tab_consumed)
    } else {
        let next = detector_after(held, tab_consumed, ops[0]);
        detector_after_all(next.0, next.1, ops.drop_first())
    }
}

pub struct ChordDetector {
    held: Vec<Key>,
    /// Keeps Tab from firing again while it is held down.
    tab_consumed: bool,
}

impl ChordDetector {
    /// The set of keys currently held.
    pub closed spec fn held_keys(self) -> Set<Key> {
        self.held@.to_set()
    }

    /// Whether the current Tab press has already fired.
    pub closed spec fn is_tab_consumed(self) -> bool {
        self.tab_consumed
    }

    pub fn new() -> (d: Self)
        ensures
            d.held_keys() == Set::<Key>::empty(),
            !d.is_tab_consumed(),
    {
        let d = ChordDetector { held: Vec::new(), tab_consumed: false };
        assert(d.held@.to_set() =~= Set::<Key>::empty());
        d
    }

    fn holds(&self, key: Key) -> (b: bool)
        ensures
            b == self.held_keys().contains(key),
    {
        let mut i: usize = 0;
        while i < self.held.len()
            invariant
                i <= self.held@.len(),
                forall|j: int| 0 <= j < i ==> self.held@[j] != key,
            decreases self.held@.len() - i,
        {
            if self.held[i] == key {
                assert(self.held@.contains(key));
                return true;
            }
            i = i + 1;
        }
        false
    }

    pub fn key_down(&mut self, key: Key)
        ensures
            final(self).held_keys() == old(self).held_keys().insert(key),
            final(self).is_tab_consumed() == old(self).is_tab_consumed(),
            (final(self).held_keys(), final(self).is_tab_consumed()) == detector_after(
                old(self).held_keys(),
                old(self).is_tab_consumed(),
                DetectorOp::KeyDown(key),
            ),
    {
        if !self.holds(key) {
            self.held.push(key);
        }
        assert(self.held@.to_set() =~= old(self).held@.to_set().insert(key)) by {
            if old(self).held@.contains(key) {
                assert(self.held@ == old(self).held@);
            } else {
                assert(self.held@ == old(self).held@.push(key));
                assert(self.held@[old(self).held@.len() as int] == key);
                assert forall|x: Key| old(self).held@.contains(x) implies self.held@.contains(x) by {
                    let j = choose|j: int| 0 <= j < old(self).held@.len() && old(self).held@[j] == x;
                    assert(self.held@[j] == x);
                }
                assert forall|x: Key| self.held@.contains(x) implies old(self).held@.contains(x) || x == key by {
                    let j = choose|j: int| 0 <= j < self.held@.len() && self.held@[j] == x;
                    if j < old(self).held@.len() {
                        assert(old(self).held@[j] == x);
                    }
                }
            }
        }
    }

    pub fn key_up(&mut self, key: Key)
        ensures
            final(self).held_keys() == old(self).held_keys().remove(key),
            final(self).is_tab_consumed() == if key == Key::Tab {
                false
            } else {
                old(self).is_tab_consumed()
            },
            (final(self).held_keys(), final(self).is_tab_consumed()) == detector_after(
                old(self).held_keys(),
                old(self).is_tab_consumed(),
                DetectorOp::KeyUp(key),
            ),
    {
        if key == Key::Tab {
            self.tab_consumed = false;  // re-arm so the next press fires again
        }
        let mut kept: Vec<Key> = Vec::new();
        let mut i: usize = 0;
        while i < self.held.len()
            invariant
                i <= self.held@.len(),
                self.held@ == old(self).held@,
                forall|x: Key|
                    kept@.contains(x) <==> (x != key && exists|j: int|
                        0 <= j < i && #[trigger] self.held@[j] == x),
            decreases self.held@.len() - i,
        {
            let k = self.held[i];
            let ghost prev = kept@;
            if k != key {
                kept.push(k);
            }
            proof {
                assert forall|x: Key| kept@.contains(x) <==> (prev.contains(x) || (x == k && k != key)) by {
                    if kept@.contains(x) && !(x == k && k != key) {
                        let m = choose|m: int| 0 <= m < kept@.len() && kept@[m] == x;
                        assert(prev[m] == x);
                    }
                    if prev.contains(x) {
                        let m = choose|m: int| 0 <= m < prev.len() && prev[m] == x;
                        assert(kept@[m] == x);
                    }
                    if x == k && k != key {
                        assert(kept@[kept@.len() - 1] == x);
                    }
                }
                assert forall|x: Key|
                    kept@.contains(x) <==> (x != key && exists|j: int|
                        0 <= j < i + 1 && #[trigger] self.held@[j] == x) by {
                    if x != key && exists|j: int| 0 <= j < i + 1 && #[trigger] self.held@[j] == x {
                        let j = choose|j: int| 0 <= j < i + 1 && #[trigger] self.held@[j] == x;
                        if j < i {
                            assert(prev.contains(x));
                        }
                    }
                    if kept@.contains(x) {
                        if prev.contains(x) {
                            assert(x != key && exists|j: int| 0 <= j < i && #[trigger] self.held@[j] == x);
                        } else {
                            assert(self.held@[i as int] == x);
                        }
                    }
                }
            }
            i = i + 1;
        }
        self.held = kept;
        assert(self.held@.to_set() =~= old(self).held@.to_set().remove(key));
    }

    // ── Modifier helpers ──────────────────────────────────────────────

    pub fn cmd(&self) -> (b: bool)
        ensures
            b == cmd_held(self.held_keys()),
    {
        self.holds(Key::MetaLeft) || self.holds(Key::MetaRight)
    }

    pub fn opt(&self) -> (b: bool)
        ensures
            b == opt_held(self.held_keys()),
    {
        self.holds(Key::Alt) || self.holds(Key::AltGr)
    }

    fn shift(&self) -> (b: bool)
        ensures
            b == shift_held(self.held_keys()),
    {
        self.holds(Key::ShiftLeft) || self.holds(Key::ShiftRight)
    }

    // ── Called on key press ───────────────────────────────────────────
    // Only Tab (and Esc with Tab held) fire on press, one action per
    // physical press. C / V / X are handled on release.

    pub fn evaluate_press(&mut self, key: &Key, mode_static: bool) -> (r: Option<HotkeyAction>)
        ensures
            r == press_action(old(self).held_keys(), old(self).is_tab_consumed(), *key, mode_static),
            final(self).held_keys() == old(self).held_keys(),
            final(self).is_tab_consumed() == press_consumes_tab(
                old(self).held_keys(),
                old(self).is_tab_consumed(),
                *key,
            ),
            (final(self).held_keys(), final(self).is_tab_consumed()) == detector_after(
                old(self).held_keys(),
                old(self).is_tab_consumed(),
                DetectorOp::EvaluatePress(*key, mode_static),
            ),
    {
        if !self.cmd() || !self.opt() {
            return None;
        }
        if *key == Key::Tab {
            if self.tab_consumed {
                return None;  // ignore held-down repeats
            }
            let delete = self.holds(Key::Escape);
            let back = self.shift();
            self.tab_consumed = true;
            if delete {
                Some(
                    if mode_static {
                        HotkeyAction::StaticDeleteCurrent
                    } else {
                        HotkeyAction::DynamicDeleteCurrent
                    },
                )
            } else if back {
                Some(
                    if mode_static {
                        HotkeyAction::StaticNavigatePrev
                    } else {
                        HotkeyAction::DynamicNavigatePrev
                    },
                )
            } else {
                Some(
                    if mode_static {
                        HotkeyAction::StaticNavigateNext
                    } else {
                        HotkeyAction::DynamicNavigateNext
                    },
                )
            }
        } else if *key == Key::Escape && self.holds(Key::Tab) {
            Some(
                if mode_static {
                    HotkeyAction::StaticDeleteCurrent
                } else {
                    HotkeyAction::DynamicDeleteCurrent
                },
            )
        } else {
            None
        }
    }

    // ── Called on key release ─────────────────────────────────────────
    // C / V / X fire here: the key is pressed and released while Cmd+Opt
    // stay held.

    pub fn evaluate_release(&self, key: &Key, mode_static: bool) -> (r: Option<HotkeyAction>)
        ensures
            r == release_action(self.held_keys(), *key, mode_static),
    {
        if !self.cmd() || !self.opt() {
            return None;
        }
        match key {
            Key::KeyC => {
                if mode_static {
                    match self.digit_held() {
                        Some(d) => Some(HotkeyAction::StaticCopy(d)),
                        None => None,
                    }
                } else {
                    Some(HotkeyAction::DynamicCopy)
                }
            },
            Key::KeyX => {
                if mode_static {
                    match self.digit_held() {
                        Some(d) => Some(HotkeyAction::StaticCut(d)),
                        None => None,
                    }
                } else {
                    Some(HotkeyAction::DynamicCut)
                }
            },
            // Static: Cmd+Opt+V+[1-9] pastes from the numbered slot.
            // Dynamic: Cmd+Opt+V pastes the cursor entry.
            Key::KeyV => {
                if mode_static {
                    match self.digit_held() {
                        Some(d) => Some(HotkeyAction::StaticPaste(d)),
                        None => None,
                    }
                } else {
                    Some(HotkeyAction::DynamicPaste)
                }
            },
            _ => None,
        }
    }

    /// The lowest digit key 1-9 that is held.
    fn digit_held(&self) -> (r: Option<usize>)
        ensures
            r == lowest_digit_held(self.held_keys()),
    {
        let digits: [Key; 9] = [
            Key::Num1,
            Key::Num2,
            Key::Num3,
            Key::Num4,
            Key::Num5,
            Key::Num6,
            Key::Num7,
            Key::Num8,
            Key::Num9,
        ];
        let mut i: usize = 0;
        while i < 9
            invariant
                i <= 9,
                digits@ == seq![Key::Num1, Key::Num2, Key::Num3, Key::Num4, Key::Num5, Key::Num6, Key::Num7, Key::Num8, Key::Num9],
                forall|j: int| 0 <= j < i ==> !self.held_keys().contains(#[trigger] digits@[j]),
            decreases 9 - i,
        {
            if self.holds(digits[i]) {
                return Some(i + 1);
            }
            i = i + 1;
        }
        None
    }
}

// ── Laws ──────────────────────────────────────────────────────────────

/// Nothing fires unless both Cmd and Opt are held.
pub proof fn law_needs_cmd_and_opt(held: Set<Key>, tab_consumed: bool, key: Key, mode_static: bool)
    requires
        !cmd_held(held) || !opt_held(held),
    ensures
        press_action(held, tab_consumed, key, mode_static) is None,
        release_action(held, key, mode_static) is None,
{
}

/// Tab fires once per physical press: with Cmd+Opt held, a Tab press
/// that fired consumes Tab, and every further Tab press is ignored
/// until Tab is released, which re-arms it.
pub proof fn law_tab_fires_once_per_press(held: Set<Key>, tab_consumed: bool, mode_static: bool)
    requires
        cmd_held(held),
        opt_held(held),
    ensures
        press_consumes_tab(held, tab_consumed, Key::Tab),
        press_action(held, press_consumes_tab(held, tab_consumed, Key::Tab), Key::Tab, mode_static)
            is None,
        press_action(held, false, Key::Tab, mode_static) is Some,
{
}

/// Static mode only ever yields static actions, and every slot it names
/// is one of 1-9; dynamic mode only ever yields dynamic actions.
pub proof fn law_actions_match_mode(held: Set<Key>, tab_consumed: bool, key: Key, mode_static: bool)
    ensures
        press_action(held, tab_consumed, key, mode_static) matches Some(a) ==> is_static_action(a)
            == mode_static,
        release_action(held, key, mode_static) matches Some(a) ==> is_static_action(a)
            == mode_static && action_slot_in_range(a),
{
}

/// Once a Tab press has fired, whatever calls follow (key downs, key ups
/// of other keys, further presses and releases), the held Tab stays
/// consumed, so no further Tab press fires in either mode until Tab is
/// released: at most one action per physical Tab press.
pub proof fn law_tab_once_across_calls(
    held: Set<Key>,
    tab_consumed: bool,
    mode_static: bool,
    ops: Seq<DetectorOp>,
    later_mode: bool,
)
    requires
        press_action(held, tab_consumed, Key::Tab, mode_static) is Some,
        forall|i: int| 0 <= i < ops.len() ==> ops[i] != DetectorOp::KeyUp(Key::Tab),
    ensures
        ({
            let after = detector_after_all(
                held,
                press_consumes_tab(held, tab_consumed, Key::Tab),
                ops,
            );
            after.1 && press_action(after.0, after.1, Key::Tab, later_mode) is None
        }),
{
    lemma_tab_stays_consumed(held, ops);
}

proof fn lemma_tab_stays_consumed(held: Set<Key>, ops: Seq<DetectorOp>)
    requires
        forall|i: int| 0 <= i < ops.len() ==> ops[i] != DetectorOp::KeyUp(Key::Tab),
    ensures
        detector_after_all(held, true, ops).1,
    decreases ops.len(),
{
    if ops.len() > 0 {
        assert(ops[0] != DetectorOp::KeyUp(Key::Tab));
        let next = detector_after(held, true, ops[0]);
        assert(next.1);
        assert forall|i: int| 0 <= i < ops.drop_first().len() implies ops.drop_first()[i]
            != DetectorOp::KeyUp(Key::Tab) by {
            assert(ops.drop_first()[i] == ops[i + 1]);
        }
        lemma_tab_stays_consumed(next.0, ops.drop_first());
    }
}

/// The key printed with digit `n` (1-9), as the top row of the keyboard
/// labels them.
pub open spec fn digit_key(n: int) -> Key {
    if n == 1 {
        Key::Num1
    } else if n == 2 {
        Key::Num2
    } else if n == 3 {
        Key::Num3
    } else if n == 4 {
        Key::Num4
    } else if n == 5 {
        Key::Num5
    } else if n == 6 {
        Key::Num6
    } else if n == 7 {
        Key::Num7
    } else if n == 8 {
        Key::Num8
    } else {
        Key::Num9
    }
}

/// With Cmd+Opt held and exactly one digit key 1-9 held, releasing C, X
/// or V in static mode copies into, cuts into or pastes from the slot
/// whose number is the digit on that key.
pub proof fn law_digit_names_slot(held: Set<Key>, n: int)
    requires
        1 <= n <= 9,
        cmd_held(held),
        opt_held(held),
        held.contains(digit_key(n)),
        forall|m: int| 1 <= m <= 9 && m != n ==> !held.contains(#[trigger] digit_key(m)),
    ensures
        release_action(held, Key::KeyC, true) == Some(HotkeyAction::StaticCopy(n as usize)),
        release_action(held, Key::KeyX, true) == Some(HotkeyAction::StaticCut(n as usize)),
        release_action(held, Key::KeyV, true) == Some(HotkeyAction::StaticPaste(n as usize)),
{
    assert(digit_key(1) == Key::Num1 && digit_key(2) == Key::Num2 && digit_key(3) == Key::Num3);
    assert(digit_key(4) == Key::Num4 && digit_key(5) == Key::Num5 && digit_key(6) == Key::Num6);
    assert(digit_key(7) == Key::Num7 && digit_key(8) == Key::Num8 && digit_key(9) == Key::Num9);
}

/// Pressing any key other than Tab leaves the Tab latch as it was: only a
/// Tab press consumes Tab.
pub proof fn law_only_tab_consumes_tab(held: Set<Key>, tab_consumed: bool, key: Key, mode_static: bool)
    requires
        key != Key::Tab,
    ensures
        press_consumes_tab(held, tab_consumed, key) == tab_consumed,
        detector_after(held, tab_consumed, DetectorOp::EvaluatePress(key, mode_static)).1
            == tab_consumed,
{
}

/// Once Tab has been released, no chord of other keys (copies, cuts,
/// pastes, Esc, key downs and ups) stops the next Cmd+Opt+Tab press from
/// firing: the latch only closes on a Tab press.
pub proof fn law_tab_armed_until_pressed(
    held: Set<Key>,
    ops: Seq<DetectorOp>,
    mode_static: bool,
)
    requires
        forall|i: int| 0 <= i < ops.len() ==> !(#[trigger] ops[i] matches DetectorOp::EvaluatePress(
            Key::Tab,
            _,
        )),
    ensures
        ({
            let after = detector_after_all(held, false, ops);
            !after.1 && (cmd_held(after.0) && opt_held(after.0) ==> press_action(
                after.0,
                after.1,
                Key::Tab,
                mode_static,
            ) is Some)
        }),
    decreases ops.len(),
{
    if ops.len() > 0 {
        assert(!(ops[0] matches DetectorOp::EvaluatePress(Key::Tab, _)));
        assert forall|i: int| 0 <= i < ops.drop_first().len() implies !(
        #[trigger] ops.drop_first()[i] matches DetectorOp::EvaluatePress(Key::Tab, _)) by {
            assert(ops.drop_first()[i] == ops[i + 1]);
        }
        let next = detector_after(held, false, ops[0]);
        assert(!next.1);
        law_tab_armed_until_pressed(next.0, ops.drop_first(), mode_static);
    }
}

/// With Cmd+Opt held and Tab armed (Esc not held), Tab navigates
/// forward and Shift+Tab backward, in the mode's own actions.
pub proof fn law_tab_direction(held: Set<Key>, mode_static: bool)
    requires
        cmd_held(held),
        opt_held(held),
        !held.contains(Key::Escape),
    ensures
        !shift_held(held) ==> press_action(held, false, Key::Tab, mode_static) == Some(
            if mode_static {
                HotkeyAction::StaticNavigateNext
            } else {
                HotkeyAction::DynamicNavigateNext
            },
        ),
        shift_held(held) ==> press_action(held, false, Key::Tab, mode_static) == Some(
            if mode_static {
                HotkeyAction::StaticNavigatePrev
            } else {
                HotkeyAction::DynamicNavigatePrev
            },
        ),
{
}

/// In dynamic mode, releasing C, X or V under Cmd+Opt copies, cuts or
/// pastes, whatever digits are held; releasing any other key fires
/// nothing, in either mode.
pub proof fn law_release_keys(held: Set<Key>, key: Key, mode_static: bool)
    requires
        cmd_held(held),
        opt_held(held),
    ensures
        release_action(held, Key::KeyC, false) == Some(HotkeyAction::DynamicCopy),
        release_action(held, Key::KeyX, false) == Some(HotkeyAction::DynamicCut),
        release_action(held, Key::KeyV, false) == Some(HotkeyAction::DynamicPaste),
        key != Key::KeyC && key != Key::KeyX && key != Key::KeyV ==> release_action(
            held,
            key,
            mode_static,
        ) is None,
{
}

/// In static mode, releasing C, X or V with no digit 1-9 held fires
/// nothing: there is no slot to act on.
pub proof fn law_static_needs_digit(held: Set<Key>, key: Key)
    requires
        forall|m: int| 1 <= m <= 9 ==> !held.contains(#[trigger] digit_key(m)),
    ensures
        release_action(held, key, true) is None,
{
    assert(digit_key(1) == Key::Num1 && digit_key(2) == Key::Num2 && digit_key(3) == Key::Num3);
    assert(digit_key(4) == Key::Num4 && digit_key(5) == Key::Num5 && digit_key(6) == Key::Num6);
    assert(digit_key(7) == Key::Num7 && digit_key(8) == Key::Num8 && digit_key(9) == Key::Num9);
}

/// Whether an action belongs to static mode.
pub open spec fn is_static_action(a: HotkeyAction) -> bool {
    match a {
        HotkeyAction::StaticCopy(_) | HotkeyAction::StaticPaste(_) | HotkeyAction::StaticCut(_)
        | HotkeyAction::StaticNavigateNext | HotkeyAction::StaticNavigatePrev
        | HotkeyAction::StaticDeleteCurrent => true,
        _ => false,
    }
}

/// Every slot number an action carries is one of 1-9.
pub open spec fn action_slot_in_range(a: HotkeyAction) -> bool {
    match a {
        HotkeyAction::StaticCopy(d) | HotkeyAction::StaticPaste(d) | HotkeyAction::StaticCut(d) => 1
            <= d <= 9,
        _ => true,
    }
}

/// Pressing and releasing a key that was not held leaves the held set
/// as it was.
pub proof fn law_press_release_restores(held: Set<Key>, key: Key)
    requires
        !held.contains(key),
    ensures
        held.insert(key).remove(key) == held,
{
    assert(held.insert(key).remove(key) =~= held);
}

/// Esc together with Tab deletes, whichever of the two is pressed last
/// (a Tab press that already fired aside).
pub proof fn law_tab_escape_deletes(held: Set<Key>, mode_static: bool)
    requires
        cmd_held(held),
        opt_held(held),
        held.contains(Key::Tab),
        held.contains(Key::Escape),
    ensures
        press_action(held, false, Key::Tab, mode_static) == Some(delete_action(mode_static)),
        press_action(held, true, Key::Escape, mode_static) == Some(delete_action(mode_static)),
{
}

} // verus!
