//! Engine: turns hotkey actions into changes of the clipboard state and
//! into the outside work that follows them.
//!
//! The engine decides; the driver around it does the outside work. A copy
//! or cut first needs the selection captured (inject Cmd+C / Cmd+X, then
//! read the system clipboard), after which the driver hands the captured
//! entry back through `store_capture`. Otherwise the engine names the
//! entry to put on the system clipboard and whether Cmd+V follows.

use crate::clip::{same_payload, ClipEntry};
use crate::hotkey::chord::{action_slot_in_range, HotkeyAction};
use crate::ram::{cursor_after_delete, ring_next, ring_prev, RamStore};
use crate::static_store::{after_op, valid_slot, SlotOp};
use vstd::prelude::*;

verus! {

/// Where an entry to be synced lives.
#[derive(Clone, Copy, Debug, PartialEq, Eq, Structural)]
pub enum ClipSource {
    /// A static slot, 1-based.
    StaticSlot(usize),
    /// An index into the dynamic ring (0 is the newest).
    Ring(usize),
}

/// The outside work that follows an action.
#[derive(Clone, Copy, Debug, PartialEq, Eq, Structural)]
pub enum EngineStep {
    /// Nothing more to do.
    Nothing,
    /// Inject Cmd+C (or Cmd+X when `cut`), read the system clipboard and
    /// hand what was read to `store_capture`.
    Capture { cut: bool },
    /// Put the entry on the system clipboard.
    Sync(ClipSource),
    /// Put the entry on the system clipboard, let it settle, inject Cmd+V.
    SyncThenPaste(ClipSource),
    /// Put the entry on the system clipboard and inject Cmd+V once the
    /// hotkey's modifiers have been released.
    SyncThenPasteLater(ClipSource),
}

pub struct Engine {
    pub ram: RamStore,
}

/// The dynamic part of the store is the same in both states.
pub open spec fn same_dynamic(a: RamStore, b: RamStore) -> bool {
    &&& a.ring() == b.ring()
    &&& a.dynamic_cursor == b.dynamic_cursor
    &&& a.cursor_moved_ms == b.cursor_moved_ms
}

/// The static part of the store is the same in both states.
pub open spec fn same_static(a: RamStore, b: RamStore) -> bool {
    a.static_slots == b.static_slots
}

/// Whether an action copies or cuts into the store.
pub open spec fn is_capture(a: HotkeyAction) -> bool {
    match a {
        HotkeyAction::StaticCopy(_) | HotkeyAction::StaticCut(_) | HotkeyAction::DynamicCopy
        | HotkeyAction::DynamicCut => true,
        _ => false,
    }
}

/// The entry a source names in the store, if there is one.
pub open spec fn entry_at(ram: RamStore, src: ClipSource) -> Option<ClipEntry> {
    match src {
        ClipSource::StaticSlot(n) => if valid_slot(n as int) {
            ram.static_slots.slots@[n - 1]
        } else {
            None
        },
        ClipSource::Ring(i) => if i < ram.ring().len() {
            Some(ram.ring()[i as int])
        } else {
            None
        },
    }
}

/// The step that syncs the entry under the dynamic cursor, if any.
pub open spec fn sync_ring_cursor(ram: RamStore) -> EngineStep {
    if ram.ring().len() == 0 {
        EngineStep::Nothing
    } else {
        EngineStep::Sync(ClipSource::Ring(ram.dynamic_cursor))
    }
}

/// Every entry a step asks to sync exists in the store.
pub open spec fn step_names_entry(step: EngineStep, ram: RamStore) -> bool {
    match step {
        EngineStep::Sync(src) | EngineStep::SyncThenPaste(src) | EngineStep::SyncThenPasteLater(
            src,
        ) => entry_at(ram, src) is Some,
        _ => true,
    }
}

impl Engine {
    pub open spec fn wf(self) -> bool {
        self.ram.wf()
    }

    /// An engine over the given store.
    pub fn new(ram: RamStore) -> (e: Self)
        ensures
            e.ram == ram,
    {
        Engine { ram }
    }

    /// Apply an action to the store and say what outside work follows.
    pub fn handle(&mut self, action: HotkeyAction, now_ms: u64) -> (step: EngineStep)
        requires
            old(self).wf(),
            action_slot_in_range(action),
        ensures
            final(self).wf(),
            step_names_entry(step, final(self).ram),
            match action {
                HotkeyAction::StaticCopy(_) => step == (EngineStep::Capture { cut: false })
                    && final(self).ram == old(self).ram,
                HotkeyAction::StaticCut(_) => step == (EngineStep::Capture { cut: true })
                    && final(self).ram == old(self).ram,
                HotkeyAction::DynamicCopy => step == (EngineStep::Capture { cut: false })
                    && final(self).ram == old(self).ram,
                HotkeyAction::DynamicCut => step == (EngineStep::Capture { cut: true })
                    && final(self).ram == old(self).ram,
                HotkeyAction::StaticPaste(n) => {
                    &&& final(self).ram == old(self).ram
                    &&& step == if old(self).ram.static_slots.slots@[n - 1] is Some {
                        EngineStep::SyncThenPaste(ClipSource::StaticSlot(n))
                    } else {
                        EngineStep::Nothing
                    }
                },
                HotkeyAction::StaticNavigateNext | HotkeyAction::StaticNavigatePrev => {
                    let forward = action == HotkeyAction::StaticNavigateNext;
                    &&& same_dynamic(final(self).ram, old(self).ram)
                    &&& final(self).ram.static_slots == after_op(
                        old(self).ram.static_slots,
                        if forward {
                            SlotOp::CursorNext
                        } else {
                            SlotOp::CursorPrev
                        },
                    )
                    &&& final(self).ram.static_slots.slots == old(self).ram.static_slots.slots
                    &&& match old(self).ram.static_slots.landing(forward) {
                        Some(i) => final(self).ram.static_slots.cursor == i && step
                            == EngineStep::Sync(ClipSource::StaticSlot((i + 1) as usize)),
                        None => final(self).ram.static_slots.cursor
                            == old(self).ram.static_slots.cursor && step == EngineStep::Nothing,
                    }
                },
                HotkeyAction::StaticDeleteCurrent => {
                    &&& same_dynamic(final(self).ram, old(self).ram)
                    &&& final(self).ram.static_slots.cursor == old(self).ram.static_slots.cursor
                    &&& final(self).ram.static_slots.slots@
                        == old(self).ram.static_slots.slots@.update(
                        old(self).ram.static_slots.cursor as int,
                        None,
                    )
                    &&& step == EngineStep::Nothing
                },
                HotkeyAction::DynamicPaste => {
                    &&& final(self).ram == old(self).ram
                    &&& step == if old(self).ram.ring().len() == 0 {
                        EngineStep::Nothing
                    } else {
                        EngineStep::SyncThenPasteLater(
                            ClipSource::Ring(old(self).ram.dynamic_cursor),
                        )
                    }
                },
                HotkeyAction::DynamicNavigateNext | HotkeyAction::DynamicNavigatePrev => {
                    let len = old(self).ram.ring().len() as int;
                    let c = old(self).ram.dynamic_cursor as int;
                    &&& same_static(final(self).ram, old(self).ram)
                    &&& final(self).ram.ring() == old(self).ram.ring()
                    &&& final(self).ram.dynamic_cursor == if action
                        == HotkeyAction::DynamicNavigateNext {
                        ring_next(c, len)
                    } else {
                        ring_prev(c, len)
                    }
                    &&& final(self).ram.cursor_moved_ms == if len == 0 {
                        old(self).ram.cursor_moved_ms
                    } else {
                        now_ms
                    }
                    &&& step == sync_ring_cursor(final(self).ram)
                },
                HotkeyAction::DynamicDeleteCurrent => {
                    let len = old(self).ram.ring().len();
                    &&& same_static(final(self).ram, old(self).ram)
                    &&& final(self).ram.cursor_moved_ms == old(self).ram.cursor_moved_ms
                    &&& len == 0 ==> final(self).ram == old(self).ram
                    &&& len > 0 ==> final(self).ram.ring() == old(self).ram.ring().remove(
                        old(self).ram.dynamic_cursor as int,
                    ) && final(self).ram.dynamic_cursor == cursor_after_delete(
                        old(self).ram.dynamic_cursor as int,
                        len - 1,
                    )
                    &&& step == sync_ring_cursor(final(self).ram)
                },
                HotkeyAction::CursorReset => {
                    &&& same_static(final(self).ram, old(self).ram)
                    &&& final(self).ram.ring() == old(self).ram.ring()
                    &&& final(self).ram.cursor_moved_ms == old(self).ram.cursor_moved_ms
                    &&& final(self).ram.dynamic_cursor == 0
                    &&& step == if old(self).ram.dynamic_cursor != 0 {
                        EngineStep::Sync(ClipSource::Ring(0))
                    } else {
                        EngineStep::Nothing
                    }
                },
            },
    {
        match action {
            HotkeyAction::StaticCopy(_) => EngineStep::Capture { cut: false },
            HotkeyAction::StaticCut(_) => EngineStep::Capture { cut: true },
            HotkeyAction::StaticPaste(slot) => self.static_paste(slot),
            HotkeyAction::StaticNavigateNext => self.static_nav(1),
            HotkeyAction::StaticNavigatePrev => self.static_nav(-1),
            HotkeyAction::StaticDeleteCurrent => self.static_delete(),
            HotkeyAction::DynamicCopy => EngineStep::Capture { cut: false },
            HotkeyAction::DynamicCut => EngineStep::Capture { cut: true },
            HotkeyAction::DynamicPaste => self.dynamic_paste(),
            HotkeyAction::DynamicNavigateNext => self.dynamic_nav(1, now_ms),
            HotkeyAction::DynamicNavigatePrev => self.dynamic_nav(-1, now_ms),
            HotkeyAction::DynamicDeleteCurrent => self.dynamic_delete(),
            HotkeyAction::CursorReset => self.cursor_reset(),
        }
    }

    /// Store an entry captured for a copy or cut action: into its slot in
    /// static mode, or at the front of the ring in dynamic mode, which is
    /// then synced back to the system clipboard.
    pub fn store_capture(&mut self, action: HotkeyAction, entry: ClipEntry, now_ms: u64) -> (step:
        EngineStep)
        requires
            old(self).wf(),
            action_slot_in_range(action),
        ensures
            final(self).wf(),
            step_names_entry(step, final(self).ram),
            match action {
                HotkeyAction::StaticCopy(n) | HotkeyAction::StaticCut(n) => {
                    &&& same_dynamic(final(self).ram, old(self).ram)
                    &&& final(self).ram.static_slots.cursor == old(self).ram.static_slots.cursor
                    &&& final(self).ram.static_slots.slots@
                        == old(self).ram.static_slots.slots@.update(n - 1, Some(entry))
                    &&& step == EngineStep::Nothing
                },
                HotkeyAction::DynamicCopy | HotkeyAction::DynamicCut => {
                    &&& same_static(final(self).ram, old(self).ram)
                    &&& final(self).ram.ring() == seq![entry] + if old(self).ram.ring().len()
                        < crate::ram::RING_CAPACITY {
                        old(self).ram.ring()
                    } else {
                        old(self).ram.ring().drop_last()
                    }
                    &&& final(self).ram.dynamic_cursor == 0
                    &&& final(self).ram.cursor_moved_ms == now_ms
                    &&& step == EngineStep::Sync(ClipSource::Ring(0))
                },
                _ => final(self).ram == old(self).ram && step == EngineStep::Nothing,
            },
    {
        match action {
            HotkeyAction::StaticCopy(slot) | HotkeyAction::StaticCut(slot) => {
                self.ram.set_static(slot, entry);
                EngineStep::Nothing
            },
            HotkeyAction::DynamicCopy | HotkeyAction::DynamicCut => {
                let _evicted = self.ram.push_dynamic(entry, now_ms);
                EngineStep::Sync(ClipSource::Ring(0))
            },
            _ => EngineStep::Nothing,
        }
    }

    /// The entry a source names, if there is one.
    pub fn entry(&self, src: ClipSource) -> (r: Option<&ClipEntry>)
        requires
            self.wf(),
        ensures
            r == match entry_at(self.ram, src) {
                Some(e) => Some(&e),
                None => None::<&ClipEntry>,
            },
    {
        match src {
            ClipSource::StaticSlot(n) => {
                if n >= 1 && n <= crate::static_store::NUM_SLOTS {
                    self.ram.get_static(n)
                } else {
                    None
                }
            },
            ClipSource::Ring(i) => {
                if i < self.ram.dynamic_ring.len() {
                    Some(&self.ram.dynamic_ring[i])
                } else {
                    None
                }
            },
        }
    }

    // ── Dynamic operations ────────────────────────────────────────────

    /// Cmd+Opt+V: sync the cursor entry, then paste it once Cmd+Opt are up.
    fn dynamic_paste(&self) -> (step: EngineStep)
        requires
            self.wf(),
        ensures
            step == if self.ram.ring().len() == 0 {
                EngineStep::Nothing
            } else {
                EngineStep::SyncThenPasteLater(ClipSource::Ring(self.ram.dynamic_cursor))
            },
    {
        match self.ram.current_dynamic() {
            Some(_) => EngineStep::SyncThenPasteLater(ClipSource::Ring(self.ram.dynamic_cursor)),
            None => EngineStep::Nothing,
        }
    }

    /// Cmd+Opt+Tab / Shift+Tab: move the ring cursor and sync its entry.
    fn dynamic_nav(&mut self, direction: i32, now_ms: u64) -> (step: EngineStep)
        requires
            old(self).wf(),
        ensures
            final(self).wf(),
            same_static(final(self).ram, old(self).ram),
            final(self).ram.ring() == old(self).ram.ring(),
            final(self).ram.dynamic_cursor == if direction > 0 {
                ring_next(old(self).ram.dynamic_cursor as int, old(self).ram.ring().len() as int)
            } else {
                ring_prev(old(self).ram.dynamic_cursor as int, old(self).ram.ring().len() as int)
            },
            final(self).ram.cursor_moved_ms == if old(self).ram.ring().len() == 0 {
                old(self).ram.cursor_moved_ms
            } else {
                now_ms
            },
            step == sync_ring_cursor(final(self).ram),
    {
        if direction > 0 {
            self.ram.cursor_next(now_ms);
        } else {
            self.ram.cursor_prev(now_ms);
        }
        match self.ram.current_dynamic() {
            Some(_) => EngineStep::Sync(ClipSource::Ring(self.ram.dynamic_cursor)),
            None => EngineStep::Nothing,
        }
    }

    /// Cmd+Opt+Tab+Esc: delete the cursor entry and sync the one that
    /// takes its place.
    fn dynamic_delete(&mut self) -> (step: EngineStep)
        requires
            old(self).wf(),
        ensures
            final(self).wf(),
            same_static(final(self).ram, old(self).ram),
            final(self).ram.cursor_moved_ms == old(self).ram.cursor_moved_ms,
            old(self).ram.ring().len() == 0 ==> final(self).ram == old(self).ram,
            old(self).ram.ring().len() > 0 ==> final(self).ram.ring() == old(self).ram.ring().remove(
                old(self).ram.dynamic_cursor as int,
            ) && final(self).ram.dynamic_cursor == cursor_after_delete(
                old(self).ram.dynamic_cursor as int,
                old(self).ram.ring().len() - 1,
            ),
            step == sync_ring_cursor(final(self).ram),
    {
        self.ram.delete_at_cursor();
        match self.ram.current_dynamic() {
            Some(_) => EngineStep::Sync(ClipSource::Ring(self.ram.dynamic_cursor)),
            None => EngineStep::Nothing,
        }
    }

    /// Idle timeout: put the ring cursor back on the newest entry.
    fn cursor_reset(&mut self) -> (step: EngineStep)
        requires
            old(self).wf(),
        ensures
            final(self).wf(),
            same_static(final(self).ram, old(self).ram),
            final(self).ram.ring() == old(self).ram.ring(),
            final(self).ram.cursor_moved_ms == old(self).ram.cursor_moved_ms,
            final(self).ram.dynamic_cursor == 0,
            step == if old(self).ram.dynamic_cursor != 0 {
                EngineStep::Sync(ClipSource::Ring(0))
            } else {
                EngineStep::Nothing
            },
    {
        if self.ram.dynamic_cursor != 0 {
            self.ram.reset_cursor();
            match self.ram.current_dynamic() {
                Some(_) => EngineStep::Sync(ClipSource::Ring(0)),
                None => EngineStep::Nothing,
            }
        } else {
            EngineStep::Nothing
        }
    }

    // ── Static operations ─────────────────────────────────────────────

    /// Cmd+Opt+V+N: sync slot N and paste it.
    fn static_paste(&self, slot: usize) -> (step: EngineStep)
        requires
            valid_slot(slot as int),
        ensures
            step == if self.ram.static_slots.slots@[slot - 1] is Some {
                EngineStep::SyncThenPaste(ClipSource::StaticSlot(slot))
            } else {
                EngineStep::Nothing
            },
    {
        match self.ram.get_static(slot) {
            Some(_) => EngineStep::SyncThenPaste(ClipSource::StaticSlot(slot)),
            None => EngineStep::Nothing,
        }
    }

    /// Cmd+Opt+Tab / Shift+Tab: move the slot cursor to the next occupied
    /// slot and sync it.
    fn static_nav(&mut self, direction: i32) -> (step: EngineStep)
        requires
            old(self).wf(),
        ensures
            final(self).wf(),
            same_dynamic(final(self).ram, old(self).ram),
            final(self).ram.static_slots.slots == old(self).ram.static_slots.slots,
            final(self).ram.static_slots == after_op(
                old(self).ram.static_slots,
                if direction > 0 {
                    SlotOp::CursorNext
                } else {
                    SlotOp::CursorPrev
                },
            ),
            match old(self).ram.static_slots.landing(direction > 0) {
                Some(i) => final(self).ram.static_slots.cursor == i && step == EngineStep::Sync(
                    ClipSource::StaticSlot((i + 1) as usize),
                ),
                None => final(self).ram.static_slots.cursor == old(self).ram.static_slots.cursor
                    && step == EngineStep::Nothing,
            },
    {
        let landed = if direction > 0 {
            self.ram.static_slots.cursor_next()
        } else {
            self.ram.static_slots.cursor_prev()
        };
        match landed {
            Some(slot) => EngineStep::Sync(ClipSource::StaticSlot(slot)),
            None => EngineStep::Nothing,
        }
    }

    /// Cmd+Opt+Tab+Esc: empty the slot under the cursor.
    fn static_delete(&mut self) -> (step: EngineStep)
        requires
            old(self).wf(),
        ensures
            final(self).wf(),
            same_dynamic(final(self).ram, old(self).ram),
            final(self).ram.static_slots.cursor == old(self).ram.static_slots.cursor,
            final(self).ram.static_slots.slots@ == old(self).ram.static_slots.slots@.update(
                old(self).ram.static_slots.cursor as int,
                None,
            ),
            step == EngineStep::Nothing,
    {
        let slot = self.ram.static_slots.cursor + 1;
        self.ram.clear_static(slot);
        EngineStep::Nothing
    }

    // ── Vault ─────────────────────────────────────────────────────────

    /// The entry of static slot `slot` (1-based) as it goes to the vault:
    /// a copy marked encrypted, or `None` when the slot is empty. The slot
    /// keeps its entry until the vault has stored the copy (`vault_saved`).
    pub fn encrypt_slot(&mut self, slot: usize) -> (r: Option<ClipEntry>)
        requires
            old(self).wf(),
            valid_slot(slot as int),
        ensures
            final(self).ram == old(self).ram,
            match old(self).ram.static_slots.slots@[slot - 1] {
                None => r is None,
                Some(e) => r matches Some(c) && c.id == e.id && c.encrypted && same_payload(
                    c.data,
                    e.data,
                ),
            },
    {
        match self.ram.get_static(slot) {
            Some(entry) => Some(entry.encrypted_copy()),
            None => None,
        }
    }

    /// Report the vault's answer to saving slot `slot` (1-based): once the
    /// vault has stored the entry (`saved`), the slot is emptied; when the
    /// save failed, nothing changes and the slot keeps its entry.
    pub fn vault_saved(&mut self, slot: usize, saved: bool)
        requires
            old(self).wf(),
            valid_slot(slot as int),
        ensures
            final(self).wf(),
            !saved ==> final(self).ram == old(self).ram,
            saved ==> {
                &&& same_dynamic(final(self).ram, old(self).ram)
                &&& final(self).ram.static_slots.cursor == old(self).ram.static_slots.cursor
                &&& final(self).ram.static_slots.slots@
                    == old(self).ram.static_slots.slots@.update(slot - 1, None)
            },
    {
        if saved {
            self.ram.clear_static(slot);
        }
    }

    /// Put an entry loaded back from the vault into static slot `slot`
    /// (1-based), marked as no longer encrypted. When the vault could not
    /// load it (`None`), nothing changes.
    pub fn decrypt_slot(&mut self, slot: usize, loaded: Option<ClipEntry>)
        requires
            old(self).wf(),
            valid_slot(slot as int),
        ensures
            final(self).wf(),
            match loaded {
                None => final(self).ram == old(self).ram,
                Some(e) => {
                    &&& same_dynamic(final(self).ram, old(self).ram)
                    &&& final(self).ram.static_slots.cursor == old(self).ram.static_slots.cursor
                    &&& final(self).ram.static_slots.slots@
                        == old(self).ram.static_slots.slots@.update(
                        slot - 1,
                        Some(ClipEntry { encrypted: false, ..e }),
                    )
                },
            },
    {
        if let Some(mut entry) = loaded {
            entry.encrypted = false;
            self.ram.set_static(slot, entry);
        }
    }
}

// ── Laws ──────────────────────────────────────────────────────────────

/// Static mode: once a capture is stored into slot N, pasting slot N
/// syncs that slot, and that slot holds exactly the captured entry; no
/// other slot changed.
pub proof fn law_static_copy_then_paste(before: RamStore, after: RamStore, slot: int, entry: ClipEntry)
    requires
        valid_slot(slot),
        after.static_slots.slots@ == before.static_slots.slots@.update(slot - 1, Some(entry)),
    ensures
        after.static_slots.slots@[slot - 1] is Some,
        entry_at(after, ClipSource::StaticSlot(slot as usize)) == Some(entry),
        forall|other: int|
            valid_slot(other) && other != slot ==> entry_at(after, ClipSource::StaticSlot(other as usize))
                == entry_at(before, ClipSource::StaticSlot(other as usize)),
{
}

/// Dynamic mode: a stored capture becomes the newest ring entry under the
/// cursor, so the sync that follows, and a later Cmd+Opt+V, use exactly
/// the captured entry.
pub proof fn law_dynamic_copy_then_paste(before: RamStore, after: RamStore, entry: ClipEntry)
    requires
        before.wf(),
        after.ring() == seq![entry] + if before.ring().len() < crate::ram::RING_CAPACITY {
            before.ring()
        } else {
            before.ring().drop_last()
        },
        after.dynamic_cursor == 0,
    ensures
        after.ring().len() > 0,
        sync_ring_cursor(after) == EngineStep::Sync(ClipSource::Ring(0)),
        entry_at(after, ClipSource::Ring(after.dynamic_cursor)) == Some(entry),
{
}

/// Idle timeout: a cursor that is off the newest entry and has not moved
/// for the timeout counts as timed out; resetting it puts it on the
/// newest entry, which is the one synced.
pub proof fn law_timeout_resets_to_newest(before: RamStore, after: RamStore, now_ms: u64)
    requires
        before.wf(),
        before.dynamic_cursor != 0,
        now_ms >= before.cursor_moved_ms + crate::ram::CURSOR_TIMEOUT_MS,
        after.ring() == before.ring(),
        after.dynamic_cursor == 0,
    ensures
        entry_at(after, ClipSource::Ring(after.dynamic_cursor)) == Some(before.ring()[0]),
{
}

/// Static navigation in the engine moves the slot cursor exactly as the
/// slot store's own cursor move does, changes no slot, and syncs the slot
/// it lands on, which is occupied; when every slot is empty it stays put
/// and syncs nothing.
pub proof fn law_static_nav_matches_store(before: RamStore, after: RamStore, forward: bool, step: EngineStep)
    requires
        before.wf(),
        after.static_slots == after_op(
            before.static_slots,
            if forward {
                SlotOp::CursorNext
            } else {
                SlotOp::CursorPrev
            },
        ),
        step == match before.static_slots.landing(forward) {
            Some(i) => EngineStep::Sync(ClipSource::StaticSlot((i + 1) as usize)),
            None => EngineStep::Nothing,
        },
    ensures
        after.static_slots.slots == before.static_slots.slots,
        after.static_slots.wf(),
        step is Nothing <==> before.static_slots.all_empty(),
        step is Nothing ==> after.static_slots.cursor == before.static_slots.cursor,
        step matches EngineStep::Sync(src) ==> src == ClipSource::StaticSlot(
            (after.static_slots.cursor + 1) as usize,
        ) && entry_at(after, src) is Some,
{
    crate::static_store::law_landing_is_occupied(before.static_slots, forward);
    crate::static_store::law_landing_iff_not_empty(before.static_slots, forward);
}

/// Dynamic delete syncs the entry that followed the deleted one (the
/// next older entry), or the new oldest when the oldest was deleted.
pub proof fn law_dynamic_delete_syncs_next(before: RamStore, after: RamStore)
    requires
        before.wf(),
        before.ring().len() > 1,
        after.ring() == before.ring().remove(before.dynamic_cursor as int),
        after.dynamic_cursor == cursor_after_delete(
            before.dynamic_cursor as int,
            before.ring().len() - 1,
        ),
    ensures
        sync_ring_cursor(after) == EngineStep::Sync(ClipSource::Ring(after.dynamic_cursor)),
        entry_at(after, ClipSource::Ring(after.dynamic_cursor)) == Some(
            if before.dynamic_cursor + 1 < before.ring().len() {
                before.ring()[before.dynamic_cursor + 1]
            } else {
                before.ring()[before.dynamic_cursor - 1]
            },
        ),
{
    crate::ram::law_delete_keeps_cursor_on_next(before.ring(), before.dynamic_cursor as int);
}

} // verus!
