use clipwallet::clip::{choose_capture, CapturedImage, ClipData, ClipEntry};
use clipwallet::engine::{ClipSource, Engine, EngineStep};
use clipwallet::hotkey::HotkeyAction;
use clipwallet::ram::RamStore;

fn text(id: u64, s: &str) -> ClipEntry {
    ClipEntry::new(id, ClipData::PlainText(s.to_string()))
}

#[test]
fn copy_actions_ask_for_capture() {
    let mut e = Engine::new(RamStore::new());
    assert_eq!(e.handle(HotkeyAction::StaticCopy(1), 0), EngineStep::Capture { cut: false });
    assert_eq!(e.handle(HotkeyAction::StaticCut(4), 0), EngineStep::Capture { cut: true });
    assert_eq!(e.handle(HotkeyAction::DynamicCopy, 0), EngineStep::Capture { cut: false });
    assert_eq!(e.handle(HotkeyAction::DynamicCut, 0), EngineStep::Capture { cut: true });
}

#[test]
fn static_copy_then_paste() {
    let mut e = Engine::new(RamStore::new());
    assert_eq!(e.handle(HotkeyAction::StaticPaste(3), 0), EngineStep::Nothing);
    assert_eq!(e.store_capture(HotkeyAction::StaticCopy(3), text(1, "abc"), 0), EngineStep::Nothing);
    let step = e.handle(HotkeyAction::StaticPaste(3), 0);
    assert_eq!(step, EngineStep::SyncThenPaste(ClipSource::StaticSlot(3)));
    assert_eq!(e.entry(ClipSource::StaticSlot(3)), Some(&text(1, "abc")));
    assert_eq!(e.entry(ClipSource::StaticSlot(2)), None);
    // the ring is untouched by static copies
    assert_eq!(e.ram.ring_len(), 0);
}

#[test]
fn static_nav_syncs_landed_slot() {
    let mut e = Engine::new(RamStore::new());
    assert_eq!(e.handle(HotkeyAction::StaticNavigateNext, 0), EngineStep::Nothing);
    e.store_capture(HotkeyAction::StaticCut(6), text(6, "six"), 0);
    e.store_capture(HotkeyAction::StaticCopy(2), text(2, "two"), 0);
    assert_eq!(
        e.handle(HotkeyAction::StaticNavigateNext, 0),
        EngineStep::Sync(ClipSource::StaticSlot(2))
    );
    assert_eq!(
        e.handle(HotkeyAction::StaticNavigateNext, 0),
        EngineStep::Sync(ClipSource::StaticSlot(6))
    );
    assert_eq!(
        e.handle(HotkeyAction::StaticNavigatePrev, 0),
        EngineStep::Sync(ClipSource::StaticSlot(2))
    );
}

#[test]
fn static_delete_clears_cursor_slot() {
    let mut e = Engine::new(RamStore::new());
    e.store_capture(HotkeyAction::StaticCopy(5), text(5, "five"), 0);
    e.handle(HotkeyAction::StaticNavigateNext, 0);
    assert_eq!(e.handle(HotkeyAction::StaticDeleteCurrent, 0), EngineStep::Nothing);
    assert_eq!(e.entry(ClipSource::StaticSlot(5)), None);
    assert_eq!(e.handle(HotkeyAction::StaticPaste(5), 0), EngineStep::Nothing);
}

#[test]
fn dynamic_copy_then_paste() {
    let mut e = Engine::new(RamStore::new());
    assert_eq!(e.handle(HotkeyAction::DynamicPaste, 0), EngineStep::Nothing);
    assert_eq!(
        e.store_capture(HotkeyAction::DynamicCopy, text(1, "one"), 0),
        EngineStep::Sync(ClipSource::Ring(0))
    );
    assert_eq!(
        e.store_capture(HotkeyAction::DynamicCut, text(2, "two"), 0),
        EngineStep::Sync(ClipSource::Ring(0))
    );
    assert_eq!(e.handle(HotkeyAction::DynamicPaste, 0), EngineStep::SyncThenPasteLater(ClipSource::Ring(0)));
    assert_eq!(e.entry(ClipSource::Ring(0)), Some(&text(2, "two")));
    assert_eq!(e.entry(ClipSource::Ring(1)), Some(&text(1, "one")));
    assert_eq!(e.entry(ClipSource::Ring(2)), None);
}

#[test]
fn dynamic_nav_and_timeout_reset() {
    let mut e = Engine::new(RamStore::new());
    for i in 0..3u64 {
        e.store_capture(HotkeyAction::DynamicCopy, text(i, "x"), 0);
    }
    assert_eq!(e.handle(HotkeyAction::DynamicNavigateNext, 100), EngineStep::Sync(ClipSource::Ring(1)));
    assert_eq!(e.handle(HotkeyAction::DynamicNavigateNext, 200), EngineStep::Sync(ClipSource::Ring(2)));
    // wraps from the oldest to the newest
    assert_eq!(e.handle(HotkeyAction::DynamicNavigateNext, 300), EngineStep::Sync(ClipSource::Ring(0)));
    assert_eq!(e.handle(HotkeyAction::DynamicNavigatePrev, 400), EngineStep::Sync(ClipSource::Ring(2)));
    assert!(!e.ram.cursor_timed_out(400 + 9_999));
    assert!(e.ram.cursor_timed_out(400 + 10_000));
    assert_eq!(e.handle(HotkeyAction::CursorReset, 10_400), EngineStep::Sync(ClipSource::Ring(0)));
    assert_eq!(e.handle(HotkeyAction::CursorReset, 10_400), EngineStep::Nothing);
    assert!(!e.ram.cursor_timed_out(50_000));
}

#[test]
fn dynamic_delete_syncs_next_entry() {
    let mut e = Engine::new(RamStore::new());
    assert_eq!(e.handle(HotkeyAction::DynamicDeleteCurrent, 0), EngineStep::Nothing);
    e.store_capture(HotkeyAction::DynamicCopy, text(1, "old"), 0);
    e.store_capture(HotkeyAction::DynamicCopy, text(2, "new"), 0);
    assert_eq!(e.handle(HotkeyAction::DynamicDeleteCurrent, 0), EngineStep::Sync(ClipSource::Ring(0)));
    assert_eq!(e.entry(ClipSource::Ring(0)), Some(&text(1, "old")));
    assert_eq!(e.handle(HotkeyAction::DynamicDeleteCurrent, 0), EngineStep::Nothing);
    assert_eq!(e.ram.ring_len(), 0);
}

#[test]
fn encrypt_offers_marked_copy_and_clears_only_after_save() {
    let mut e = Engine::new(RamStore::new());
    assert_eq!(e.encrypt_slot(1), None);
    e.store_capture(HotkeyAction::StaticCopy(1), text(1, "secret"), 0);
    let copy = e.encrypt_slot(1).unwrap();
    assert_eq!(copy.id, 1);
    assert_eq!(copy.data, ClipData::PlainText("secret".to_string()));
    assert!(copy.encrypted);
    // the slot keeps its entry until the vault has stored the copy
    assert_eq!(e.entry(ClipSource::StaticSlot(1)), Some(&text(1, "secret")));
    e.vault_saved(1, false);
    assert_eq!(e.entry(ClipSource::StaticSlot(1)), Some(&text(1, "secret")));
    e.vault_saved(1, true);
    assert_eq!(e.entry(ClipSource::StaticSlot(1)), None);
}

#[test]
fn encrypted_copy_keeps_every_payload_kind() {
    let payloads = vec![
        ClipData::RichText(vec![1, 2]),
        ClipData::Image { bytes: vec![3], width: 1, height: 2 },
        ClipData::FilePath(vec!["/a".to_string(), "/b".to_string()]),
        ClipData::Binary(vec![4, 5, 6]),
    ];
    for (i, data) in payloads.into_iter().enumerate() {
        let mut e = Engine::new(RamStore::new());
        e.store_capture(HotkeyAction::StaticCut(2), ClipEntry::new(i as u64, data.clone()), 0);
        let copy = e.encrypt_slot(2).unwrap();
        assert_eq!(copy.data, data);
        assert_eq!(copy.id, i as u64);
        assert!(copy.encrypted);
    }
}

#[test]
fn decrypt_restores_unencrypted_entry() {
    let mut e = Engine::new(RamStore::new());
    let mut locked = text(9, "secret");
    locked.encrypted = true;
    e.decrypt_slot(4, Some(locked));
    let back = e.entry(ClipSource::StaticSlot(4)).unwrap();
    assert_eq!(back.id, 9);
    assert!(!back.encrypted);
    e.decrypt_slot(5, None);
    assert_eq!(e.entry(ClipSource::StaticSlot(5)), None);
}

#[test]
fn capture_priority() {
    let img = CapturedImage { raw: vec![1, 2, 3], png: Some(vec![9]), width: 4, height: 5 };
    let files = Some(vec!["/tmp/a".to_string()]);
    assert_eq!(
        choose_capture(files.clone(), Some(vec![7]), Some(img.clone()), Some("t".to_string())),
        Some(ClipData::FilePath(vec!["/tmp/a".to_string()]))
    );
    assert_eq!(
        choose_capture(None, Some(vec![7]), Some(img.clone()), Some("t".to_string())),
        Some(ClipData::RichText(vec![7]))
    );
    assert_eq!(
        choose_capture(None, None, Some(img.clone()), Some("t".to_string())),
        Some(ClipData::Image { bytes: vec![9], width: 4, height: 5 })
    );
    let raw_only = CapturedImage { png: None, ..img };
    assert_eq!(
        choose_capture(None, None, Some(raw_only), Some("t".to_string())),
        Some(ClipData::Binary(vec![1, 2, 3]))
    );
    assert_eq!(
        choose_capture(None, None, None, Some("t".to_string())),
        Some(ClipData::PlainText("t".to_string()))
    );
    assert_eq!(choose_capture(None, None, None, Some(String::new())), None);
    assert_eq!(choose_capture(None, None, None, None), None);
}

#[test]
fn static_nav_in_engine_moves_like_the_store() {
    let mut e = Engine::new(RamStore::new());
    let mut s = clipwallet::static_store::StaticSlotStore::new();
    e.store_capture(HotkeyAction::StaticCopy(7), text(7, "g"), 0);
    s.write(7, text(7, "g"));
    e.store_capture(HotkeyAction::StaticCopy(3), text(3, "c"), 0);
    s.write(3, text(3, "c"));
    for forward in [true, true, false, true, false, false] {
        let action = if forward { HotkeyAction::StaticNavigateNext } else { HotkeyAction::StaticNavigatePrev };
        let step = e.handle(action, 0);
        let landed = if forward { s.cursor_next() } else { s.cursor_prev() };
        assert_eq!(e.ram.static_slots.cursor, s.cursor);
        assert_eq!(step, EngineStep::Sync(ClipSource::StaticSlot(landed.unwrap())));
    }
}
