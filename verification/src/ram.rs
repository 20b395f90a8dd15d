//! RamStore: the in-memory clipboard state of both modes.
//!
//! Static mode keeps nine addressed slots (a `StaticSlotStore`). Dynamic
//! mode keeps a recency-ordered ring of at most fifty entries: every copy
//! pushes to the front (index 0, the newest), and once the ring is full
//! the oldest entry is evicted. A cursor walks the ring, forward towards
//! older entries and backward towards newer ones, wrapping at both ends;
//! after ten seconds without cursor movement it snaps back to the newest
//! entry.

use crate::clip::ClipEntry;
use crate::static_store::{valid_slot, StaticSlotStore};
use vstd::prelude::*;

verus! {

/// The most entries the dynamic ring holds.
pub const RING_CAPACITY: usize = 50;

/// Milliseconds without cursor movement after which the cursor resets.
pub const CURSOR_TIMEOUT_MS: u64 = 10_000;

/// The cursor one step towards older entries in a ring of `len` entries.
pub open spec fn ring_next(cursor: int, len: int) -> int {
    if len == 0 {
        0
    } else {
        (cursor + 1) % len
    }
}

/// The cursor one step towards newer entries in a ring of `len` entries.
pub open spec fn ring_prev(cursor: int, len: int) -> int {
    if len == 0 {
        0
    } else if cursor == 0 {
        len - 1
    } else {
        cursor - 1
    }
}

/// Where the cursor stands after the entry under it was removed, leaving
/// `len` entries.
pub open spec fn cursor_after_delete(cursor: int, len: int) -> int {
    if cursor < len {
        cursor
    } else if len == 0 {
        0
    } else {
        len - 1
    }
}

pub struct RamStore {
    /// Static mode's nine addressed slots and their Tab cursor.
    pub static_slots: StaticSlotStore,
    /// Dynamic mode's ring; index 0 is the newest entry.
    pub dynamic_ring: Vec<ClipEntry>,
    /// Dynamic mode's cursor into the ring.
    pub dynamic_cursor: usize,
    /// When the dynamic cursor last moved, in milliseconds.
    pub cursor_moved_ms: u64,
}

impl RamStore {
    /// The ring's entries, newest first.
    pub open spec fn ring(self) -> Seq<ClipEntry> {
        self.dynamic_ring@
    }

    /// The ring fits its capacity, the dynamic cursor points into it (or
    /// is 0 when it is empty), and the static store is well formed.
    pub open spec fn wf(self) -> bool {
        &&& self.ring().len() <= RING_CAPACITY
        &&& if self.ring().len() == 0 {
            self.dynamic_cursor == 0
        } else {
            self.dynamic_cursor < self.ring().len()
        }
        &&& self.static_slots.wf()
    }

    /// An empty store.
    pub fn new() -> (s: Self)
        ensures
            s.wf(),
            s.ring() == Seq::<ClipEntry>::empty(),
            s.dynamic_cursor == 0,
            s.cursor_moved_ms == 0,
            s.static_slots.cursor == 0,
            s.static_slots.all_empty(),
    {
        RamStore {
            static_slots: StaticSlotStore::new(),
            dynamic_ring: Vec::new(),
            dynamic_cursor: 0,
            cursor_moved_ms: 0,
        }
    }

    // ── Dynamic ring ──────────────────────────────────────────────────

    /// Number of entries in the ring.
    pub fn ring_len(&self) -> (n: usize)
        ensures
            n == self.ring().len(),
    {
        self.dynamic_ring.len()
    }

    /// Push `entry` to the front of the ring and put the cursor on it.
    /// When the ring was full, the oldest entry is evicted and returned.
    pub fn push_dynamic(&mut self, entry: ClipEntry, now_ms: u64) -> (evicted: Option<ClipEntry>)
        requires
            old(self).wf(),
        ensures
            final(self).wf(),
            old(self).ring().len() < RING_CAPACITY ==> {
                &&& final(self).ring() == seq![entry] + old(self).ring()
                &&& evicted is None
            },
            old(self).ring().len() == RING_CAPACITY ==> {
                &&& final(self).ring() == seq![entry] + old(self).ring().drop_last()
                &&& evicted == Some(old(self).ring().last())
            },
            final(self).dynamic_cursor == 0,
            final(self).cursor_moved_ms == now_ms,
            final(self).static_slots == old(self).static_slots,
    {
        self.dynamic_ring.insert(0, entry);
        let evicted = if self.dynamic_ring.len() > RING_CAPACITY {
            self.dynamic_ring.pop()
        } else {
            None
        };
        self.dynamic_cursor = 0;
        self.cursor_moved_ms = now_ms;
        proof {
            if old(self).ring().len() == RING_CAPACITY {
                assert(self.ring() =~= seq![entry] + old(self).ring().drop_last());
            } else {
                assert(self.ring() =~= seq![entry] + old(self).ring());
            }
        }
        evicted
    }

    /// The entry under the dynamic cursor, or `None` when the ring is empty.
    pub fn current_dynamic(&self) -> (r: Option<&ClipEntry>)
        requires
            self.wf(),
        ensures
            r == if self.ring().len() == 0 {
                None::<&ClipEntry>
            } else {
                Some(&self.ring()[self.dynamic_cursor as int])
            },
    {
        if self.dynamic_cursor < self.dynamic_ring.len() {
            Some(&self.dynamic_ring[self.dynamic_cursor])
        } else {
            None
        }
    }

    /// Move the cursor one entry towards older entries, wrapping from the
    /// oldest to the newest.
    pub fn cursor_next(&mut self, now_ms: u64)
        requires
            old(self).wf(),
        ensures
            final(self).wf(),
            final(self).ring() == old(self).ring(),
            final(self).static_slots == old(self).static_slots,
            final(self).dynamic_cursor == ring_next(
                old(self).dynamic_cursor as int,
                old(self).ring().len() as int,
            ),
            final(self).cursor_moved_ms == if old(self).ring().len() == 0 {
                old(self).cursor_moved_ms
            } else {
                now_ms
            },
    {
        let len = self.dynamic_ring.len();
        if len > 0 {
            self.dynamic_cursor = (self.dynamic_cursor + 1) % len;
            self.cursor_moved_ms = now_ms;
        }
    }

    /// Move the cursor one entry towards newer entries, wrapping from the
    /// newest to the oldest.
    pub fn cursor_prev(&mut self, now_ms: u64)
        requires
            old(self).wf(),
        ensures
            final(self).wf(),
            final(self).ring() == old(self).ring(),
            final(self).static_slots == old(self).static_slots,
            final(self).dynamic_cursor == ring_prev(
                old(self).dynamic_cursor as int,
                old(self).ring().len() as int,
            ),
            final(self).cursor_moved_ms == if old(self).ring().len() == 0 {
                old(self).cursor_moved_ms
            } else {
                now_ms
            },
    {
        let len = self.dynamic_ring.len();
        if len > 0 {
            self.dynamic_cursor = if self.dynamic_cursor == 0 {
                len - 1
            } else {
                self.dynamic_cursor - 1
            };
            self.cursor_moved_ms = now_ms;
        }
    }

    /// Remove the entry under the cursor. The cursor stays on the same
    /// index, now the next older entry, or on the new oldest entry when
    /// the removed one was the oldest.
    pub fn delete_at_cursor(&mut self)
        requires
            old(self).wf(),
        ensures
            final(self).wf(),
            final(self).static_slots == old(self).static_slots,
            final(self).cursor_moved_ms == old(self).cursor_moved_ms,
            old(self).ring().len() == 0 ==> *final(self) == *old(self),
            old(self).ring().len() > 0 ==> {
                &&& final(self).ring() == old(self).ring().remove(old(self).dynamic_cursor as int)
                &&& final(self).dynamic_cursor == cursor_after_delete(
                    old(self).dynamic_cursor as int,
                    final(self).ring().len() as int,
                )
            },
    {
        let len = self.dynamic_ring.len();
        if self.dynamic_cursor < len {
            self.dynamic_ring.remove(self.dynamic_cursor);
            let new_len = self.dynamic_ring.len();
            if self.dynamic_cursor >= new_len {
                self.dynamic_cursor = if new_len == 0 {
                    0
                } else {
                    new_len - 1
                };
            }
        }
    }

    /// Put the cursor back on the newest entry.
    pub fn reset_cursor(&mut self)
        requires
            old(self).wf(),
        ensures
            final(self).wf(),
            final(self).ring() == old(self).ring(),
            final(self).static_slots == old(self).static_slots,
            final(self).dynamic_cursor == 0,
            final(self).cursor_moved_ms == old(self).cursor_moved_ms,
    {
        self.dynamic_cursor = 0;
    }

    /// The cursor is off the newest entry and has not moved for the
    /// timeout.
    pub fn cursor_timed_out(&self, now_ms: u64) -> (b: bool)
        ensures
            b == (self.dynamic_cursor != 0 && now_ms >= self.cursor_moved_ms
                && now_ms - self.cursor_moved_ms >= CURSOR_TIMEOUT_MS),
    {
        self.dynamic_cursor != 0 && now_ms >= self.cursor_moved_ms && now_ms - self.cursor_moved_ms
            >= CURSOR_TIMEOUT_MS
    }

    // ── Static slots (1-based) ────────────────────────────────────────

    pub fn set_static(&mut self, slot: usize, entry: ClipEntry)
        requires
            valid_slot(slot as int),
        ensures
            final(self).static_slots.slots@ == old(self).static_slots.slots@.update(
                slot - 1,
                Some(entry),
            ),
            final(self).static_slots.cursor == old(self).static_slots.cursor,
            final(self).ring() == old(self).ring(),
            final(self).dynamic_cursor == old(self).dynamic_cursor,
            final(self).cursor_moved_ms == old(self).cursor_moved_ms,
    {
        self.static_slots.write(slot, entry);
    }

    pub fn get_static(&self, slot: usize) -> (r: Option<&ClipEntry>)
        requires
            valid_slot(slot as int),
        ensures
            r == match self.static_slots.slots@[slot - 1] {
                Some(e) => Some(&e),
                None => None::<&ClipEntry>,
            },
    {
        self.static_slots.read(slot)
    }

    pub fn clear_static(&mut self, slot: usize)
        requires
            valid_slot(slot as int),
        ensures
            final(self).static_slots.slots@ == old(self).static_slots.slots@.update(slot - 1, None),
            final(self).static_slots.cursor == old(self).static_slots.cursor,
            final(self).ring() == old(self).ring(),
            final(self).dynamic_cursor == old(self).dynamic_cursor,
            final(self).cursor_moved_ms == old(self).cursor_moved_ms,
    {
        self.static_slots.clear(slot);
    }
}

// ── Laws ──────────────────────────────────────────────────────────────

/// On a non-empty ring, one step towards older entries followed by one
/// step towards newer entries (or the reverse) returns to the start.
pub proof fn law_ring_next_prev_inverse(cursor: int, len: int)
    requires
        0 <= cursor < len,
    ensures
        ring_prev(ring_next(cursor, len), len) == cursor,
        ring_next(ring_prev(cursor, len), len) == cursor,
        0 <= ring_next(cursor, len) < len,
        0 <= ring_prev(cursor, len) < len,
{
    lemma_ring_next_value(cursor, len);
    lemma_ring_next_value(ring_prev(cursor, len), len);
}

/// One step towards older entries is one index further, or back to 0
/// from the oldest.
proof fn lemma_ring_next_value(cursor: int, len: int)
    requires
        0 <= cursor < len,
    ensures
        ring_next(cursor, len) == if cursor + 1 < len {
            cursor + 1
        } else {
            0
        },
{
    if cursor + 1 < len {
        vstd::arithmetic::div_mod::lemma_small_mod((cursor + 1) as nat, len as nat);
    } else {
        vstd::arithmetic::div_mod::lemma_mod_self_0(len);
    }
}

/// What was pushed last is the newest entry, under the cursor; what it
/// displaced moved one place older, and only the oldest can be evicted.
pub proof fn law_push_then_current(ring: Seq<ClipEntry>, entry: ClipEntry)
    requires
        ring.len() <= RING_CAPACITY,
    ensures
        ring.len() < RING_CAPACITY ==> (seq![entry] + ring)[0] == entry
            && (seq![entry] + ring).len() == ring.len() + 1
            && forall|i: int| 0 <= i < ring.len() ==> (seq![entry] + ring)[i + 1] == ring[i],
        ring.len() == RING_CAPACITY ==> (seq![entry] + ring.drop_last())[0] == entry
            && (seq![entry] + ring.drop_last()).len() == RING_CAPACITY
            && forall|i: int|
            0 <= i < ring.len() - 1 ==> (seq![entry] + ring.drop_last())[i + 1] == ring[i],
{
}

/// Deleting under the cursor removes exactly one entry and keeps the
/// order of the rest; the cursor stays within the ring.
pub proof fn law_delete_keeps_order(ring: Seq<ClipEntry>, cursor: int)
    requires
        0 <= cursor < ring.len(),
    ensures
        ring.remove(cursor).len() == ring.len() - 1,
        forall|i: int| 0 <= i < cursor ==> ring.remove(cursor)[i] == ring[i],
        forall|i: int| cursor <= i < ring.len() - 1 ==> ring.remove(cursor)[i] == ring[i + 1],
        ring.len() > 1 ==> 0 <= cursor_after_delete(cursor, ring.len() - 1) < ring.len() - 1,
{
}

/// Deleting under the cursor leaves the cursor on the entry that followed
/// the deleted one, at the same index; only when the oldest entry was
/// deleted does it move to the new oldest, and to 0 when the ring is left
/// empty.
pub proof fn law_delete_keeps_cursor_on_next(ring: Seq<ClipEntry>, cursor: int)
    requires
        0 <= cursor < ring.len(),
    ensures
        cursor + 1 < ring.len() ==> cursor_after_delete(cursor, ring.len() - 1) == cursor
            && ring.remove(cursor)[cursor_after_delete(cursor, ring.len() - 1)] == ring[cursor + 1],
        cursor + 1 == ring.len() && ring.len() > 1 ==> ring.remove(cursor)[cursor_after_delete(
            cursor,
            ring.len() - 1,
        )] == ring[cursor - 1],
        ring.len() == 1 ==> cursor_after_delete(cursor, 0) == 0,
{
}

/// Tab moves the ring cursor to the next older entry (one index on),
/// wrapping from the oldest to the newest; Shift+Tab moves to the next
/// newer entry (one index back), wrapping from the newest to the oldest.
pub proof fn law_ring_directions(cursor: int, len: int)
    requires
        0 <= cursor < len,
    ensures
        cursor + 1 < len ==> ring_next(cursor, len) == cursor + 1,
        cursor + 1 == len ==> ring_next(cursor, len) == 0,
        cursor > 0 ==> ring_prev(cursor, len) == cursor - 1,
        cursor == 0 ==> ring_prev(cursor, len) == len - 1,
{
    lemma_ring_next_value(cursor, len);
}

} // verus!
