use clipwallet::clip::{ClipData, ClipEntry};
use clipwallet::ram::{RamStore, RING_CAPACITY};

fn text(id: u64) -> ClipEntry {
    ClipEntry::new(id, ClipData::PlainText(format!("entry {}", id)))
}

#[test]
fn push_puts_newest_first_and_moves_cursor_there() {
    let mut r = RamStore::new();
    assert!(r.current_dynamic().is_none());
    assert_eq!(r.push_dynamic(text(1), 5), None);
    r.push_dynamic(text(2), 6);
    r.cursor_next(7);
    assert_eq!(r.current_dynamic(), Some(&text(1)));
    r.push_dynamic(text(3), 8);
    assert_eq!(r.dynamic_cursor, 0);
    assert_eq!(r.current_dynamic(), Some(&text(3)));
    assert_eq!(r.ring_len(), 3);
    assert_eq!(r.cursor_moved_ms, 8);
}

#[test]
fn full_ring_evicts_oldest() {
    let mut r = RamStore::new();
    for i in 0..RING_CAPACITY as u64 {
        assert_eq!(r.push_dynamic(text(i), 0), None);
    }
    assert_eq!(r.ring_len(), 50);
    assert_eq!(r.push_dynamic(text(100), 0), Some(text(0)));
    assert_eq!(r.ring_len(), 50);
    assert_eq!(r.dynamic_ring[0], text(100));
    assert_eq!(r.dynamic_ring[49], text(1));
}

#[test]
fn cursor_wraps_both_ways() {
    let mut r = RamStore::new();
    r.cursor_prev(1);
    assert_eq!(r.dynamic_cursor, 0);
    for i in 0..3 {
        r.push_dynamic(text(i), 0);
    }
    r.cursor_prev(1);
    assert_eq!(r.dynamic_cursor, 2);
    r.cursor_next(2);
    assert_eq!(r.dynamic_cursor, 0);
    r.cursor_next(3);
    r.cursor_prev(4);
    assert_eq!(r.dynamic_cursor, 0);
}

#[test]
fn delete_at_cursor_keeps_cursor_in_ring() {
    let mut r = RamStore::new();
    r.delete_at_cursor();
    assert_eq!(r.ring_len(), 0);
    for i in 0..3 {
        r.push_dynamic(text(i), 0);
    }
    // ring: 2, 1, 0 ; move to the oldest and delete it
    r.cursor_prev(0);
    r.delete_at_cursor();
    assert_eq!(r.ring_len(), 2);
    assert_eq!(r.dynamic_cursor, 1);
    assert_eq!(r.current_dynamic(), Some(&text(1)));
    r.reset_cursor();
    r.delete_at_cursor();
    assert_eq!(r.current_dynamic(), Some(&text(1)));
    r.delete_at_cursor();
    assert_eq!(r.ring_len(), 0);
    assert_eq!(r.dynamic_cursor, 0);
}

#[test]
fn static_slots_are_one_based() {
    let mut r = RamStore::new();
    r.set_static(1, text(1));
    assert_eq!(r.get_static(1), Some(&text(1)));
    assert!(r.static_slots.slots[0].is_some());
    r.clear_static(1);
    assert!(r.get_static(1).is_none());
}
