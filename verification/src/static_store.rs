//! StaticSlotStore: nine fixed clipboard slots, addressed directly by
//! the digits 1-9.
//!
//! Slot N always lives at index N-1; slots are never reordered. A read
//! cursor moves over the occupied slots (Tab / Shift+Tab) and never
//! rearranges data.

use crate::clip::ClipEntry;
use vstd::prelude::*;

verus! {

pub const NUM_SLOTS: usize = 9;

pub struct StaticSlotStore {
    /// `slots[0]` is slot 1, `slots[8]` is slot 9; `None` is an empty slot.
    pub slots: [Option<ClipEntry>; NUM_SLOTS],
    /// Tab-cursor position, 0-based.
    pub cursor: usize,
}

/// Slot numbers that `write`, `read` and `clear` accept.
pub open spec fn valid_slot(slot: int) -> bool {
    1 <= slot <= NUM_SLOTS
}

/// The index reached from `c` after `k` cursor steps in one direction,
/// wrapping around the nine slots.
pub open spec fn step(c: int, k: int, forward: bool) -> int {
    if forward {
        (c + k) % (NUM_SLOTS as int)
    } else {
        (c - k) % (NUM_SLOTS as int)
    }
}

/// Number of occupied slots in a sequence of slots.
pub open spec fn count_occupied(s: Seq<Option<ClipEntry>>) -> nat
    decreases s.len(),
{
    if s.len() == 0 {
        0
    } else {
        count_occupied(s.drop_last()) + if s.last() is Some { 1nat } else { 0nat }
    }
}

/// The calls that change a store, with their arguments.
pub enum SlotOp {
    Write(usize, ClipEntry),
    Clear(usize),
    CursorNext,
    CursorPrev,
    DeleteAtCursor,
}

/// The store after one call.
pub open spec fn after_op(s: StaticSlotStore, op: SlotOp) -> StaticSlotStore {
    match op {
        SlotOp::Write(n, e) => if valid_slot(n as int) {
            StaticSlotStore {
                slots: vstd::array::spec_array_update(s.slots, n - 1, Some(e)),
                cursor: s.cursor,
            }
        } else {
            s
        },
        SlotOp::Clear(n) => if valid_slot(n as int) {
            StaticSlotStore { slots: vstd::array::spec_array_update(s.slots, n - 1, None), cursor: s.cursor }
        } else {
            s
        },
        SlotOp::CursorNext => match s.landing(true) {
            Some(i) => StaticSlotStore { slots: s.slots, cursor: i as usize },
            None => s,
        },
        SlotOp::CursorPrev => match s.landing(false) {
            Some(i) => StaticSlotStore { slots: s.slots, cursor: i as usize },
            None => s,
        },
        SlotOp::DeleteAtCursor => if s.cursor < NUM_SLOTS {
            StaticSlotStore {
                slots: vstd::array::spec_array_update(s.slots, s.cursor as int, None),
                cursor: s.cursor,
            }
        } else {
            s
        },
    }
}

/// The store after a sequence of calls, first to last.
pub open spec fn after_ops(s: StaticSlotStore, ops: Seq<SlotOp>) -> StaticSlotStore
    decreases ops.len(),
{
    if ops.len() == 0 {
        s
    } else {
        after_ops(after_op(s, ops[0]), ops.drop_first())
    }
}

/// Whether a call, made on store `s`, writes or empties slot `n`.
pub open spec fn touches_slot(s: StaticSlotStore, op: SlotOp, n: int) -> bool {
    match op {
        SlotOp::Write(m, _) => m == n,
        SlotOp::Clear(m) => m == n,
        SlotOp::DeleteAtCursor => s.cursor == n - 1,
        _ => false,
    }
}

/// None of the calls, each on the store the earlier ones left, writes or
/// empties slot `n`.
pub open spec fn spares_slot(s: StaticSlotStore, ops: Seq<SlotOp>, n: int) -> bool
    decreases ops.len(),
{
    ops.len() == 0 || (!touches_slot(s, ops[0], n) && spares_slot(after_op(s, ops[0]), ops.drop_first(), n))
}

impl StaticSlotStore {
    /// The cursor points at one of the nine slots.
    pub open spec fn wf(self) -> bool {
        self.cursor < NUM_SLOTS
    }

    /// Whether the slot at 0-based index `i` holds an entry.
    pub open spec fn occupied(self, i: int) -> bool {
        self.slots@[i] is Some
    }

    /// Every slot is empty.
    pub open spec fn all_empty(self) -> bool {
        forall|i: int| 0 <= i < NUM_SLOTS ==> !self.occupied(i)
    }

    /// `k` steps in the given direction reach the first occupied slot
    /// after the cursor (the cursor's own slot is reached last, at k == 9).
    pub open spec fn is_landing(self, k: int, forward: bool) -> bool {
        &&& 1 <= k <= NUM_SLOTS
        &&& self.occupied(step(self.cursor as int, k, forward))
        &&& forall|j: int| 1 <= j < k ==> !self.occupied(step(self.cursor as int, j, forward))
    }

    /// The 0-based index a cursor move in the given direction lands on,
    /// or `None` when every slot is empty.
    pub open spec fn landing(self, forward: bool) -> Option<int> {
        if exists|k: int| self.is_landing(k, forward) {
            Some(step(self.cursor as int, choose|k: int| self.is_landing(k, forward), forward))
        } else {
            None
        }
    }

    /// An empty store with the cursor on slot 1.
    pub fn new() -> (s: Self)
        ensures
            s.wf(),
            s.cursor == 0,
            s.all_empty(),
    {
        StaticSlotStore { slots: [None, None, None, None, None, None, None, None, None], cursor: 0 }
    }

    // ── Direct slot access ────────────────────────────────────────────

    /// Write `entry` to slot `slot` (1-based), overwriting what was there.
    pub fn write(&mut self, slot: usize, entry: ClipEntry)
        requires
            valid_slot(slot as int),
        ensures
            final(self).slots@ == old(self).slots@.update(slot - 1, Some(entry)),
            final(self).cursor == old(self).cursor,
            *final(self) == after_op(*old(self), SlotOp::Write(slot, entry)),
    {
        self.slots[slot - 1] = Some(entry);
        assert(self.slots =~= vstd::array::spec_array_update(old(self).slots, slot - 1, Some(entry)));
    }

    /// The entry in slot `slot` (1-based), or `None` if it is empty.
    pub fn read(&self, slot: usize) -> (r: Option<&ClipEntry>)
        requires
            valid_slot(slot as int),
        ensures
            r == match self.slots@[slot - 1] {
                Some(e) => Some(&e),
                None => None::<&ClipEntry>,
            },
    {
        self.slots[slot - 1].as_ref()
    }

    /// Empty slot `slot` (1-based).
    pub fn clear(&mut self, slot: usize)
        requires
            valid_slot(slot as int),
        ensures
            final(self).slots@ == old(self).slots@.update(slot - 1, None),
            final(self).cursor == old(self).cursor,
            *final(self) == after_op(*old(self), SlotOp::Clear(slot)),
    {
        self.slots[slot - 1] = None;
        assert(self.slots =~= vstd::array::spec_array_update(old(self).slots, slot - 1, None));
    }

    // ── Tab cursor navigation ─────────────────────────────────────────
    // The cursor skips empty slots. These return the 1-based slot number
    // the cursor landed on, or `None` when every slot is empty.

    /// Move the cursor forward to the next occupied slot.
    pub fn cursor_next(&mut self) -> (r: Option<usize>)
        requires
            old(self).cursor < usize::MAX,
        ensures
            old(self).wf() ==> final(self).wf(),
            final(self).slots@ == old(self).slots@,
            match old(self).landing(true) {
                Some(i) => r == Some((i + 1) as usize) && final(self).cursor == i,
                None => r is None && final(self).cursor == old(self).cursor,
            },
            r is None <==> old(self).all_empty(),
            *final(self) == after_op(*old(self), SlotOp::CursorNext),
    {
        self.move_cursor(1)
    }

    /// Move the cursor backward to the previous occupied slot.
    pub fn cursor_prev(&mut self) -> (r: Option<usize>)
        requires
            old(self).cursor <= NUM_SLOTS,
        ensures
            old(self).wf() ==> final(self).wf(),
            final(self).slots@ == old(self).slots@,
            match old(self).landing(false) {
                Some(i) => r == Some((i + 1) as usize) && final(self).cursor == i,
                None => r is None && final(self).cursor == old(self).cursor,
            },
            r is None <==> old(self).all_empty(),
            *final(self) == after_op(*old(self), SlotOp::CursorPrev),
    {
        self.move_cursor(-1)
    }

    fn move_cursor(&mut self, direction: i32) -> (r: Option<usize>)
        requires
            direction > 0 ==> old(self).cursor < usize::MAX,
            direction <= 0 ==> old(self).cursor <= NUM_SLOTS,
        ensures
            old(self).wf() ==> final(self).wf(),
            final(self).slots@ == old(self).slots@,
            match old(self).landing(direction > 0) {
                Some(i) => r == Some((i + 1) as usize) && final(self).cursor == i,
                None => r is None && final(self).cursor == old(self).cursor,
            },
            r is None <==> old(self).all_empty(),
            final(self).slots == old(self).slots,
    {
        let ghost forward = direction > 0;
        let ghost s0 = *self;
        let start = self.cursor;
        let ghost c0 = start as int % (NUM_SLOTS as int);
        let mut cur = self.cursor;
        let mut k: usize = 0;
        while k < NUM_SLOTS
            invariant
                *self == s0,
                s0 == *old(self),
                forward == (direction > 0),
                forward ==> start < usize::MAX,
                !forward ==> start <= NUM_SLOTS,
                start == s0.cursor,
                c0 == start as int % (NUM_SLOTS as int),
                k <= NUM_SLOTS,
                k == 0 ==> cur == start,
                k > 0 ==> cur as int == step(start as int, k as int, forward),
                forall|j: int| 1 <= j <= k ==> !s0.occupied(#[trigger] step(start as int, j, forward)),
            ensures
                *self == s0,
                forall|j: int|
                    1 <= j <= NUM_SLOTS ==> !s0.occupied(#[trigger] step(start as int, j, forward)),
            decreases NUM_SLOTS - k,
        {
            proof {
                lemma_step_mod(start as int, k as int, forward);
                lemma_step_mod(start as int, k + 1, forward);
                lemma_step_succ(c0, k as int, forward);
                if k == 0 && !forward {
                    lemma_mod_slots(start - 1);
                }
            }
            let next = if direction > 0 {
                (cur + 1) % NUM_SLOTS
            } else {
                if cur == 0 {
                    NUM_SLOTS - 1
                } else {
                    cur - 1
                }
            };
            cur = next;
            k = k + 1;
            if self.slots[cur].is_some() {
                proof {
                    assert(s0.is_landing(k as int, forward));
                    lemma_landing_unique(s0, k as int, forward);
                }
                self.cursor = cur;
                return Some(cur + 1);
            }
            if cur == start {
                proof {
                    lemma_step_returns(start as int, k as int, forward);
                }
                break;
            }
        }
        proof {
            lemma_all_empty_when_no_landing_step(s0, forward);
        }
        None
    }

    /// The cursor position as a 1-based slot number.
    pub fn cursor_slot(&self) -> (n: usize)
        requires
            self.cursor < usize::MAX,
        ensures
            n == self.cursor + 1,
    {
        self.cursor + 1
    }

    /// The entry at the cursor, or `None` if that slot is empty.
    pub fn cursor_entry(&self) -> (r: Option<&ClipEntry>)
        requires
            self.wf(),
        ensures
            r == match self.slots@[self.cursor as int] {
                Some(e) => Some(&e),
                None => None::<&ClipEntry>,
            },
    {
        self.slots[self.cursor].as_ref()
    }

    /// Empty the slot under the cursor; the cursor stays where it is.
    pub fn delete_at_cursor(&mut self)
        requires
            old(self).wf(),
        ensures
            final(self).slots@ == old(self).slots@.update(old(self).cursor as int, None),
            final(self).cursor == old(self).cursor,
            *final(self) == after_op(*old(self), SlotOp::DeleteAtCursor),
    {
        self.slots[self.cursor] = None;
        assert(self.slots =~= vstd::array::spec_array_update(
            old(self).slots,
            old(self).cursor as int,
            None,
        ));
    }

    // ── Status ────────────────────────────────────────────────────────

    /// How many of the nine slots hold an entry.
    pub fn occupied_count(&self) -> (n: usize)
        ensures
            n == count_occupied(self.slots@),
    {
        let mut n: usize = 0;
        let mut i: usize = 0;
        while i < NUM_SLOTS
            invariant
                i <= NUM_SLOTS,
                n == count_occupied(self.slots@.take(i as int)),
                n <= i,
            decreases NUM_SLOTS - i,
        {
            assert(self.slots@.take(i + 1).drop_last() =~= self.slots@.take(i as int));
            if self.slots[i].is_some() {
                n = n + 1;
            }
            i = i + 1;
        }
        assert(self.slots@.take(NUM_SLOTS as int) =~= self.slots@);
        n
    }

    /// Whether every slot is empty.
    pub fn is_empty(&self) -> (b: bool)
        ensures
            b == self.all_empty(),
    {
        let mut i: usize = 0;
        while i < NUM_SLOTS
            invariant
                i <= NUM_SLOTS,
                forall|j: int| 0 <= j < i ==> !self.occupied(j),
            decreases NUM_SLOTS - i,
        {
            if self.slots[i].is_some() {
                assert(self.occupied(i as int));
                return false;
            }
            i = i + 1;
        }
        true
    }
}

/// A landing step is unique, so `landing` picks it.
proof fn lemma_landing_unique(s: StaticSlotStore, k: int, forward: bool)
    requires
        s.is_landing(k, forward),
    ensures
        s.landing(forward) == Some(step(s.cursor as int, k, forward)),
{
    let c = choose|m: int| s.is_landing(m, forward);
    assert(s.is_landing(c, forward));
    if c < k {
        assert(!s.occupied(step(s.cursor as int, c, forward)));
    } else if c > k {
        assert(!s.occupied(step(s.cursor as int, k, forward)));
    }
}

/// One more step moves one slot further, wrapping at the ends.
proof fn lemma_step_succ(c: int, k: int, forward: bool)
    requires
        0 <= c < NUM_SLOTS,
        0 <= k < NUM_SLOTS,
    ensures
        0 <= step(c, k, forward) < NUM_SLOTS,
        0 <= step(c, k + 1, forward) < NUM_SLOTS,
        forward ==> step(c, k + 1, forward) == (step(c, k, forward) + 1) % (NUM_SLOTS as int),
        !forward ==> step(c, k + 1, forward) == if step(c, k, forward) == 0 {
            NUM_SLOTS - 1
        } else {
            step(c, k, forward) - 1
        },
{
    lemma_mod_slots(c + k);
    lemma_mod_slots(c + k + 1);
    lemma_mod_slots(c - k);
    lemma_mod_slots(c - k - 1);
}

/// Fewer than nine steps never return to the start.
proof fn lemma_step_returns(c: int, k: int, forward: bool)
    requires
        0 <= c < NUM_SLOTS,
        1 <= k <= NUM_SLOTS,
        step(c, k, forward) == c,
    ensures
        k == NUM_SLOTS,
{
    lemma_mod_slots(c + k);
    lemma_mod_slots(c - k);
}

/// Steps 1 through 9 reach every index.
proof fn lemma_step_reaches(c: int, i: int, forward: bool) -> (j: int)
    requires
        0 <= c < NUM_SLOTS,
        0 <= i < NUM_SLOTS,
    ensures
        1 <= j <= NUM_SLOTS,
        step(c, j, forward) == i,
{
    let j = if i == c {
        NUM_SLOTS as int
    } else if forward {
        if i > c { i - c } else { i + NUM_SLOTS - c }
    } else {
        if i < c { c - i } else { c + NUM_SLOTS - i }
    };
    lemma_mod_slots(c + j);
    lemma_mod_slots(c - j);
    j
}

/// When none of the nine steps reaches an occupied slot, every slot is
/// empty and there is no landing.
proof fn lemma_all_empty_when_no_landing_step(s: StaticSlotStore, forward: bool)
    requires
        forall|j: int| 1 <= j <= NUM_SLOTS ==> !s.occupied(#[trigger] step(s.cursor as int, j, forward)),
    ensures
        s.all_empty(),
        s.landing(forward) is None,
{
    assert forall|i: int| 0 <= i < NUM_SLOTS implies !s.occupied(i) by {
        let j = lemma_step_reaches(s.cursor as int % (NUM_SLOTS as int), i, forward);
        lemma_step_mod(s.cursor as int, j, forward);
        assert(!s.occupied(step(s.cursor as int, j, forward)));
    }
    if exists|k: int| s.is_landing(k, forward) {
        let k = choose|k: int| s.is_landing(k, forward);
        assert(!s.occupied(step(s.cursor as int, k, forward)));
    }
}

/// Steps 1 through 9 from any index in range reach indices in range.
proof fn lemma_steps_cover(c: int, forward: bool)
    requires
        0 <= c < NUM_SLOTS,
    ensures
        forall|j: int| 1 <= j <= NUM_SLOTS ==> 0 <= #[trigger] step(c, j, forward) < NUM_SLOTS,
        step(c, NUM_SLOTS as int, forward) == c,
{
    assert forall|j: int| 1 <= j <= NUM_SLOTS implies 0 <= #[trigger] step(c, j, forward) < NUM_SLOTS by {
        lemma_mod_slots(c + j);
        lemma_mod_slots(c - j);
    }
    lemma_mod_slots(c + NUM_SLOTS);
    lemma_mod_slots(c - NUM_SLOTS);
}


/// If `k` steps reach an occupied slot, some step is the landing one.
proof fn lemma_landing_exists(s: StaticSlotStore, k: int, forward: bool)
    requires
        1 <= k <= NUM_SLOTS,
        s.occupied(step(s.cursor as int, k, forward)),
    ensures
        exists|m: int| s.is_landing(m, forward),
    decreases k,
{
    if forall|j: int| 1 <= j < k ==> !s.occupied(step(s.cursor as int, j, forward)) {
        assert(s.is_landing(k, forward));
    } else {
        let j = choose|j: int| 1 <= j < k && s.occupied(step(s.cursor as int, j, forward));
        lemma_landing_exists(s, j, forward);
    }
}

/// Remainders modulo the slot count near the range of indices.
proof fn lemma_mod_slots(x: int)
    requires
        -(NUM_SLOTS as int) <= x < 2 * NUM_SLOTS,
    ensures
        x % (NUM_SLOTS as int) == if x < 0 {
            x + NUM_SLOTS
        } else if x < NUM_SLOTS {
            x
        } else {
            x - NUM_SLOTS
        },
{
}

/// Steps from any index depend only on its remainder modulo the slot count.
proof fn lemma_step_mod(c: int, k: int, forward: bool)
    requires
        c >= 0,
    ensures
        step(c, k, forward) == step(c % (NUM_SLOTS as int), k, forward),
{
    let m = NUM_SLOTS as int;
    vstd::arithmetic::div_mod::lemma_fundamental_div_mod(c, m);
    let q = c / m;
    if forward {
        vstd::arithmetic::div_mod::lemma_mod_multiples_vanish(q, c % m + k, m);
        assert(m * q + (c % m + k) == c + k);
    } else {
        vstd::arithmetic::div_mod::lemma_mod_multiples_vanish(q, c % m - k, m);
        assert(m * q + (c % m - k) == c - k);
    }
}

/// Walking `j` steps back from `k` steps forward is `k - j` steps forward.
proof fn lemma_step_back(c: int, k: int, j: int, forward: bool)
    requires
        0 <= c < NUM_SLOTS,
        0 <= j <= k <= NUM_SLOTS,
    ensures
        step(step(c, k, forward), j, !forward) == step(c, k - j, forward),
{
    if forward {
        lemma_mod_slots(c + k);
        lemma_mod_slots((c + k) % 9 - j);
        lemma_mod_slots(c + k - j);
    } else {
        lemma_mod_slots(c - k);
        lemma_mod_slots((c - k) % 9 + j);
        lemma_mod_slots(c - k + j);
    }
}

// ── Laws ──────────────────────────────────────────────────────────────

/// Reading a slot after writing it gives back what was written, and
/// writing one slot leaves every other slot as it was.
pub proof fn law_read_after_write(s: StaticSlotStore, slot: int, other: int, entry: ClipEntry)
    requires
        valid_slot(slot),
        valid_slot(other),
    ensures
        s.slots@.update(slot - 1, Some(entry))[slot - 1] == Some(entry),
        other != slot ==> s.slots@.update(slot - 1, Some(entry))[other - 1] == s.slots@[other - 1],
{
}

/// A call that does not write or empty slot `n` leaves it as it was.
proof fn lemma_op_keeps_slot(s: StaticSlotStore, op: SlotOp, n: int)
    requires
        valid_slot(n),
        !touches_slot(s, op, n),
    ensures
        after_op(s, op).slots@[n - 1] == s.slots@[n - 1],
{
    match op {
        SlotOp::Write(m, e) => {
            if valid_slot(m as int) {
                assert(after_op(s, op).slots@ == s.slots@.update(m - 1, Some(e)));
            }
        },
        SlotOp::Clear(m) => {
            if valid_slot(m as int) {
                assert(after_op(s, op).slots@ == s.slots@.update(m - 1, None));
            }
        },
        SlotOp::DeleteAtCursor => {
            if s.cursor < NUM_SLOTS {
                assert(after_op(s, op).slots@ == s.slots@.update(s.cursor as int, None));
            }
        },
        _ => {},
    }
}

/// Slots are addressed by number: calls that do not write or empty slot
/// `n` (writes and clears of other slots, cursor moves, deleting under a
/// cursor that is elsewhere) never move or alter what slot `n` holds.
pub proof fn law_slot_kept_across_calls(s: StaticSlotStore, ops: Seq<SlotOp>, n: int)
    requires
        valid_slot(n),
        spares_slot(s, ops, n),
    ensures
        after_ops(s, ops).slots@[n - 1] == s.slots@[n - 1],
    decreases ops.len(),
{
    if ops.len() > 0 {
        lemma_op_keeps_slot(s, ops[0], n);
        law_slot_kept_across_calls(after_op(s, ops[0]), ops.drop_first(), n);
    }
}

/// After `write(n, e)`, reading slot `n` gives `e` back, whatever calls
/// came in between, as long as none of them wrote or emptied slot `n`.
pub proof fn law_read_after_write_and_calls(s: StaticSlotStore, n: int, e: ClipEntry, ops: Seq<SlotOp>)
    requires
        valid_slot(n),
        spares_slot(after_op(s, SlotOp::Write(n as usize, e)), ops, n),
    ensures
        after_ops(after_op(s, SlotOp::Write(n as usize, e)), ops).slots@[n - 1] == Some(e),
{
    assert(after_op(s, SlotOp::Write(n as usize, e)).slots@ == s.slots@.update(n - 1, Some(e)));
    law_slot_kept_across_calls(after_op(s, SlotOp::Write(n as usize, e)), ops, n);
}

/// The cursor stays on one of the nine slots whatever calls are made, so
/// `cursor_entry` and `delete_at_cursor` always index a slot and
/// `cursor_slot` stays in 1-9.
pub proof fn law_cursor_stays_in_range(s: StaticSlotStore, ops: Seq<SlotOp>)
    requires
        s.wf(),
    ensures
        after_ops(s, ops).wf(),
    decreases ops.len(),
{
    if ops.len() > 0 {
        law_landing_is_occupied(s, true);
        law_landing_is_occupied(s, false);
        assert(after_op(s, ops[0]).wf());
        law_cursor_stays_in_range(after_op(s, ops[0]), ops.drop_first());
    }
}

/// A cleared slot reads back as empty, and clearing one slot leaves
/// every other slot as it was.
pub proof fn law_read_after_clear(s: StaticSlotStore, slot: int, other: int)
    requires
        valid_slot(slot),
        valid_slot(other),
    ensures
        s.slots@.update(slot - 1, None)[slot - 1] is None,
        other != slot ==> s.slots@.update(slot - 1, None)[other - 1] == s.slots@[other - 1],
{
}

/// The store is empty exactly when no slot is counted as occupied.
pub proof fn law_empty_iff_no_occupied(s: StaticSlotStore)
    ensures
        s.all_empty() <==> count_occupied(s.slots@) == 0,
{
    lemma_count_zero_iff_none(s.slots@);
    assert(s.slots@.len() == NUM_SLOTS);
    if s.all_empty() {
        assert forall|i: int| 0 <= i < s.slots@.len() implies s.slots@[i] is None by {
            assert(!s.occupied(i));
        }
    }
}

proof fn lemma_count_zero_iff_none(q: Seq<Option<ClipEntry>>)
    ensures
        count_occupied(q) == 0 <==> forall|i: int| 0 <= i < q.len() ==> q[i] is None,
    decreases q.len(),
{
    if q.len() > 0 {
        lemma_count_zero_iff_none(q.drop_last());
        if count_occupied(q) == 0 {
            assert forall|i: int| 0 <= i < q.len() implies q[i] is None by {
                if i < q.len() - 1 {
                    assert(q.drop_last()[i] == q[i]);
                }
            }
        }
        if forall|i: int| 0 <= i < q.len() ==> q[i] is None {
            assert forall|i: int| 0 <= i < q.drop_last().len() implies q.drop_last()[i] is None by {
                assert(q.drop_last()[i] == q[i]);
            }
            assert(q[q.len() - 1] is None);
        }
    }
}

/// Cursor navigation only ever lands on an occupied slot.
pub proof fn law_landing_is_occupied(s: StaticSlotStore, forward: bool)
    ensures
        s.landing(forward) matches Some(i) ==> 0 <= i < NUM_SLOTS && s.occupied(i),
{
    if s.landing(forward) is Some {
        let k = choose|k: int| s.is_landing(k, forward);
        assert(s.is_landing(k, forward));
    }
}

/// A cursor move lands somewhere exactly when some slot is occupied.
pub proof fn law_landing_iff_not_empty(s: StaticSlotStore, forward: bool)
    requires
        s.wf(),
    ensures
        s.landing(forward) is None <==> s.all_empty(),
{
    if s.all_empty() {
        if s.landing(forward) is Some {
            law_landing_is_occupied(s, forward);
        }
    } else {
        let i = choose|i: int| 0 <= i < NUM_SLOTS && s.occupied(i);
        let j = lemma_step_reaches(s.cursor as int, i, forward);
        lemma_landing_exists(s, j, forward);
    }
}

/// Tab lands on the very next slot when it is occupied, and Shift+Tab
/// on the very previous one, wrapping between slot 9 and slot 1.
pub proof fn law_adjacent_landing(s: StaticSlotStore)
    requires
        s.wf(),
    ensures
        s.occupied((s.cursor + 1) % 9) ==> s.landing(true) == Some((s.cursor + 1) % 9),
        s.occupied((s.cursor + 8) % 9) ==> s.landing(false) == Some((s.cursor + 8) % 9),
{
    let c = s.cursor as int;
    lemma_mod_slots(c + 1);
    lemma_mod_slots(c - 1);
    lemma_mod_slots(c + 8);
    if s.occupied((c + 1) % 9) {
        assert(s.is_landing(1, true));
        lemma_landing_unique(s, 1, true);
    }
    if s.occupied((c + 8) % 9) {
        assert(step(c, 1, false) == (c + 8) % 9);
        assert(s.is_landing(1, false));
        lemma_landing_unique(s, 1, false);
    }
}

/// From an occupied slot, one Tab followed by one Shift+Tab (or the
/// reverse) brings the cursor back to where it started.
pub proof fn law_move_then_move_back(s: StaticSlotStore, forward: bool)
    requires
        s.wf(),
        s.occupied(s.cursor as int),
    ensures
        s.landing(forward) matches Some(i) && (StaticSlotStore {
            cursor: i as usize,
            ..s
        }).landing(!forward) == Some(s.cursor as int),
{
    let c = s.cursor as int;
    lemma_step_succ(c, 0, forward);
    lemma_steps_cover(c, forward);
    lemma_landing_exists(s, NUM_SLOTS as int, forward);
    let k = choose|m: int| s.is_landing(m, forward);
    assert(s.is_landing(k, forward));
    lemma_landing_unique(s, k, forward);
    let i = step(c, k, forward);
    let t = StaticSlotStore { cursor: i as usize, ..s };
    lemma_step_back(c, k, k, forward);
    let back = !forward;
    assert forall|j: int| 1 <= j < k implies !t.occupied(#[trigger] step(t.cursor as int, j, back)) by {
        lemma_step_back(c, k, j, forward);
        assert(!s.occupied(step(c, k - j, forward)));
    }
    assert(step(c, 0, forward) == c);
    assert(t.is_landing(k, !forward));
    lemma_landing_unique(t, k, !forward);
}

} // verus!
