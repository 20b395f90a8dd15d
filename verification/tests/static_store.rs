use clipwallet::clip::{ClipData, ClipEntry};
use clipwallet::static_store::{StaticSlotStore, NUM_SLOTS};

fn text(id: u64, s: &str) -> ClipEntry {
    ClipEntry::new(id, ClipData::PlainText(s.to_string()))
}

#[test]
fn new_store_is_empty() {
    let s = StaticSlotStore::new();
    assert!(s.is_empty());
    assert_eq!(s.occupied_count(), 0);
    assert_eq!(s.cursor_slot(), 1);
    assert!(s.cursor_entry().is_none());
    for n in 1..=NUM_SLOTS {
        assert!(s.read(n).is_none());
    }
}

#[test]
fn read_after_write_gives_entry_back() {
    let mut s = StaticSlotStore::new();
    s.write(3, text(7, "hello"));
    assert_eq!(s.read(3), Some(&text(7, "hello")));
    assert!(s.read(2).is_none());
    assert!(s.read(4).is_none());
    assert_eq!(s.occupied_count(), 1);
    assert!(!s.is_empty());
}

#[test]
fn write_overwrites_slot() {
    let mut s = StaticSlotStore::new();
    s.write(9, text(1, "a"));
    s.write(9, text(2, "b"));
    assert_eq!(s.read(9), Some(&text(2, "b")));
    assert_eq!(s.occupied_count(), 1);
}

#[test]
fn slot_one_is_index_zero_and_slot_nine_is_index_eight() {
    let mut s = StaticSlotStore::new();
    s.write(1, text(1, "first"));
    s.write(9, text(9, "last"));
    assert_eq!(s.slots[0], Some(text(1, "first")));
    assert_eq!(s.slots[8], Some(text(9, "last")));
}

#[test]
fn clear_empties_slot() {
    let mut s = StaticSlotStore::new();
    s.write(5, text(5, "x"));
    s.write(6, text(6, "y"));
    s.clear(5);
    assert!(s.read(5).is_none());
    assert_eq!(s.read(6), Some(&text(6, "y")));
    assert_eq!(s.occupied_count(), 1);
}

#[test]
fn cursor_next_on_empty_store_is_none() {
    let mut s = StaticSlotStore::new();
    assert_eq!(s.cursor_next(), None);
    assert_eq!(s.cursor_prev(), None);
    assert_eq!(s.cursor_slot(), 1);
}

#[test]
fn cursor_next_skips_empty_slots() {
    let mut s = StaticSlotStore::new();
    s.write(2, text(2, "b"));
    s.write(5, text(5, "e"));
    assert_eq!(s.cursor_next(), Some(2));
    assert_eq!(s.cursor_next(), Some(5));
    // wraps past slot 9 back to slot 2
    assert_eq!(s.cursor_next(), Some(2));
    assert_eq!(s.cursor_entry(), Some(&text(2, "b")));
}

#[test]
fn cursor_prev_wraps_backwards() {
    let mut s = StaticSlotStore::new();
    s.write(2, text(2, "b"));
    s.write(5, text(5, "e"));
    // from slot 1, backwards wraps to slot 9, 8, ... and first meets 5
    assert_eq!(s.cursor_prev(), Some(5));
    assert_eq!(s.cursor_prev(), Some(2));
    assert_eq!(s.cursor_prev(), Some(5));
}

#[test]
fn cursor_lands_on_itself_when_only_its_slot_is_occupied() {
    let mut s = StaticSlotStore::new();
    s.write(1, text(1, "only"));
    assert_eq!(s.cursor_next(), Some(1));
    assert_eq!(s.cursor_prev(), Some(1));
}

#[test]
fn next_then_prev_returns_to_start() {
    let mut s = StaticSlotStore::new();
    s.write(4, text(4, "d"));
    s.write(7, text(7, "g"));
    s.write(8, text(8, "h"));
    assert_eq!(s.cursor_next(), Some(4));
    assert_eq!(s.cursor_next(), Some(7));
    assert_eq!(s.cursor_prev(), Some(4));
    assert_eq!(s.cursor_next(), Some(7));
    assert_eq!(s.cursor_next(), Some(8));
    assert_eq!(s.cursor_prev(), Some(7));
}

#[test]
fn navigation_never_changes_slots() {
    let mut s = StaticSlotStore::new();
    s.write(3, text(3, "c"));
    s.write(6, text(6, "f"));
    let _ = s.cursor_next();
    let _ = s.cursor_prev();
    let _ = s.cursor_next();
    assert_eq!(s.read(3), Some(&text(3, "c")));
    assert_eq!(s.read(6), Some(&text(6, "f")));
    assert_eq!(s.occupied_count(), 2);
}

#[test]
fn delete_at_cursor_empties_cursor_slot_only() {
    let mut s = StaticSlotStore::new();
    s.write(3, text(3, "c"));
    s.write(4, text(4, "d"));
    assert_eq!(s.cursor_next(), Some(3));
    s.delete_at_cursor();
    assert!(s.cursor_entry().is_none());
    assert_eq!(s.cursor_slot(), 3);
    assert_eq!(s.read(4), Some(&text(4, "d")));
    assert_eq!(s.occupied_count(), 1);
    assert_eq!(s.cursor_next(), Some(4));
}

#[test]
fn full_store_counts_nine() {
    let mut s = StaticSlotStore::new();
    for n in 1..=NUM_SLOTS {
        s.write(n, text(n as u64, "x"));
    }
    assert_eq!(s.occupied_count(), 9);
    assert!(!s.is_empty());
    assert_eq!(s.cursor_next(), Some(2));
    assert_eq!(s.cursor_prev(), Some(1));
    assert_eq!(s.cursor_prev(), Some(9));
}

#[test]
fn cursor_beyond_the_slots_still_moves() {
    let mut s = StaticSlotStore::new();
    s.write(5, text(5, "e"));
    s.cursor = 20;
    // 20 steps on to 21 % 9 == 3, then 4: slot 5
    assert_eq!(s.cursor_next(), Some(5));
    s.cursor = 9;
    assert_eq!(s.cursor_prev(), Some(5));
    s.cursor = 20;
    s.clear(5);
    assert_eq!(s.cursor_next(), None);
    assert_eq!(s.cursor, 20);
}

#[test]
fn slot_survives_other_calls() {
    let mut s = StaticSlotStore::new();
    s.write(4, text(4, "keep"));
    s.write(2, text(2, "b"));
    s.clear(2);
    let _ = s.cursor_next();
    let _ = s.cursor_prev();
    s.write(9, text(9, "i"));
    let _ = s.cursor_next(); // lands on 9
    s.delete_at_cursor();
    let _ = s.cursor_prev();
    assert_eq!(s.read(4), Some(&text(4, "keep")));
    assert!(s.cursor_slot() >= 1 && s.cursor_slot() <= 9);
}
