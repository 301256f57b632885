use layout_rs::{Keymap, KeymapBuffer, KeymapError, KeyboardUsage};

fn fresh() -> Keymap {
    Keymap::new(None)
}

#[test]
fn fresh_session_uses_factory_layout() {
    let km = fresh();
    assert!(!km.has_unsaved_changes());
    assert_eq!(km.current().code_at(0, 0), KeyboardUsage::KeyboardEscape);
    assert_eq!(km.current().code_at(0, 0).label(), "Esc");
    assert_eq!(km.current().code_at(2, 1), KeyboardUsage::KeyboardAa);
    assert_eq!(km.current().code_at(7, 5), KeyboardUsage::KeyboardSpacebar);
    // A position outside the legend resolves to the sentinel
    assert_eq!(km.current().code_at(9, 9), KeyboardUsage::Reserved);
}

#[test]
fn update_key_edits_current_only() {
    let mut km = fresh();
    km.update_key(0, 0, "X".to_string());
    assert_eq!(km.current().code_at(0, 0), KeyboardUsage::KeyboardXx);
    assert_eq!(km.current().code_at(0, 0).label(), "X");
    assert!(km.has_unsaved_changes());
}

#[test]
fn update_key_with_unknown_label_binds_sentinel() {
    let mut km = fresh();
    km.update_key(0, 0, "no-such-label".to_string());
    assert_eq!(km.current().code_at(0, 0), KeyboardUsage::Reserved);
    assert!(km.has_unsaved_changes());
}

#[test]
fn save_commits_and_clears_dirtiness() {
    let mut km = fresh();
    km.update_key(0, 0, "X".to_string());
    assert!(km.has_unsaved_changes());
    let _payload = km.save_payload();
    assert_eq!(km.save(true), Ok(()));
    assert!(!km.has_unsaved_changes());
}

#[test]
fn failed_save_changes_nothing() {
    let mut km = fresh();
    km.update_key(0, 0, "X".to_string());
    assert_eq!(km.save(false), Err(KeymapError::WriteFailed));
    assert!(km.has_unsaved_changes());
    assert_eq!(km.current().code_at(0, 0), KeyboardUsage::KeyboardXx);
}

#[test]
fn reset_discards_any_edit() {
    let mut km = fresh();
    km.update_key(0, 0, "X".to_string());
    km.update_key(9, 9, "Enter".to_string());
    assert!(km.has_unsaved_changes());
    assert_eq!(km.reset(), Ok(()));
    assert!(!km.has_unsaved_changes());
    assert_eq!(km.current().code_at(0, 0), KeyboardUsage::KeyboardEscape);
    assert_eq!(km.current().get(9, 9), None);
}

#[test]
fn factory_reset_restores_defaults() {
    let mut km = fresh();
    km.update_key(0, 0, "X".to_string());
    assert_eq!(km.save(true), Ok(()));
    assert_eq!(km.factory_reset(true), Ok(()));
    assert!(!km.has_unsaved_changes());
    assert_eq!(km.current().code_at(0, 0), KeyboardUsage::KeyboardEscape);
    // Against the cleared store, loading reports the absence without
    // touching the buffers, and a fresh session falls back to the same
    // default layout.
    assert_eq!(km.load(None), Err(KeymapError::NoSavedData));
    assert_eq!(km.current().code_at(0, 0), KeyboardUsage::KeyboardEscape);
    let km2 = Keymap::new(None);
    assert!(!km2.has_unsaved_changes());
    assert_eq!(km2.current().code_at(0, 0), KeyboardUsage::KeyboardEscape);
}

#[test]
fn failed_factory_reset_changes_nothing() {
    let mut km = fresh();
    km.update_key(0, 0, "X".to_string());
    assert_eq!(km.factory_reset(false), Err(KeymapError::RemoveFailed));
    assert_eq!(km.current().code_at(0, 0), KeyboardUsage::KeyboardXx);
    assert!(km.has_unsaved_changes());
}

#[test]
fn load_corrupt_data_reports_and_preserves_state() {
    let mut km = fresh();
    km.update_key(0, 0, "X".to_string());
    for garbage in [
        &b"hello"[..],
        b"[[[0,0],41]",
        b"[[[0,0],256]]",
        b"{\"0,0\":41",
        b"42",
        b"[[[0,0],41]] trailing",
        b"",
    ] {
        let bytes = garbage.to_vec();
        assert_eq!(km.load(Some(&bytes)), Err(KeymapError::CorruptData));
        assert_eq!(km.current().code_at(0, 0), KeyboardUsage::KeyboardXx);
        assert!(km.has_unsaved_changes());
    }
}

#[test]
fn save_then_fresh_session_sees_the_edit() {
    let mut km = fresh();
    assert_eq!(km.current().code_at(0, 0).label(), "Esc");
    km.update_key(0, 0, "X".to_string());
    assert!(km.has_unsaved_changes());
    let payload = km.save_payload();
    assert_eq!(km.save(true), Ok(()));
    assert!(!km.has_unsaved_changes());

    let km2 = Keymap::new(Some(&payload));
    assert!(!km2.has_unsaved_changes());
    assert_eq!(km2.current().code_at(0, 0).label(), "X");
}

#[test]
fn load_replaces_both_buffers() {
    let mut km = fresh();
    km.update_key(0, 0, "X".to_string());
    let stored = b"[[[3,3],40]]".to_vec();
    assert_eq!(km.load(Some(&stored)), Ok(()));
    assert!(!km.has_unsaved_changes());
    assert_eq!(km.current().code_at(3, 3), KeyboardUsage::KeyboardEnter);
    assert_eq!(km.current().get(0, 0), None);
}

#[test]
fn load_accepts_the_legacy_object_shape() {
    let mut km = fresh();
    let stored = b"{\"0,0\":20}".to_vec();
    assert_eq!(km.load(Some(&stored)), Ok(()));
    assert_eq!(km.current().code_at(0, 0), KeyboardUsage::KeyboardQq);

    let spaced = b" { \"1,2\" : 40 } ".to_vec();
    assert_eq!(km.load(Some(&spaced)), Ok(()));
    assert_eq!(km.current().code_at(1, 2), KeyboardUsage::KeyboardEnter);
    assert_eq!(km.current().get(0, 0), None);

    let empty = b"{}".to_vec();
    assert_eq!(km.load(Some(&empty)), Ok(()));
    assert_eq!(km.current().len(), 0);
}

#[test]
fn load_tolerates_whitespace_in_the_array_shape() {
    let mut km = fresh();
    let stored = b" [ [ [ 0 , 0 ] , 41 ] ,\n [ [1,1], 4 ] ] ".to_vec();
    assert_eq!(km.load(Some(&stored)), Ok(()));
    assert_eq!(km.current().code_at(0, 0), KeyboardUsage::KeyboardEscape);
    assert_eq!(km.current().code_at(1, 1), KeyboardUsage::KeyboardAa);
}

#[test]
fn load_lets_a_later_duplicate_position_win() {
    let mut km = fresh();
    let stored = b"[[[0,0],4],[[0,0],5]]".to_vec();
    assert_eq!(km.load(Some(&stored)), Ok(()));
    assert_eq!(km.current().code_at(0, 0), KeyboardUsage::KeyboardBb);
    assert_eq!(km.current().len(), 1);
}

#[test]
fn load_empty_array_clears_the_layout() {
    let mut km = fresh();
    let stored = b"[]".to_vec();
    assert_eq!(km.load(Some(&stored)), Ok(()));
    assert_eq!(km.current().len(), 0);
    assert_eq!(km.current().code_at(0, 0), KeyboardUsage::Reserved);
}

#[test]
fn save_payload_is_the_canonical_array_shape() {
    let mut b = KeymapBuffer::new();
    b.set(1, 0, KeyboardUsage::KeyboardQq);
    b.set(0, 0, KeyboardUsage::KeyboardEscape);
    let km = Keymap {
        current: b,
        saved: KeymapBuffer::new(),
    };
    let payload = km.save_payload();
    assert_eq!(String::from_utf8(payload).unwrap(), "[[[0,0],41],[[1,0],20]]");
}

#[test]
fn stored_payload_round_trips() {
    let mut km = fresh();
    km.update_key(0, 0, "X".to_string());
    km.update_key(5, 9, "Num 7".to_string());
    let payload = km.save_payload();
    assert_eq!(km.save(true), Ok(()));

    let mut km2 = fresh();
    assert_eq!(km2.load(Some(&payload)), Ok(()));
    assert!(!km2.has_unsaved_changes());
    assert_eq!(km2.current().code_at(0, 0), KeyboardUsage::KeyboardXx);
    assert_eq!(km2.current().code_at(5, 9), KeyboardUsage::Keypad7Home);
    assert_eq!(km2.current().len(), km.current().len());
}

#[test]
fn error_messages_name_each_failure() {
    assert_eq!(
        KeymapError::StoreUnavailable.message(),
        "Storage not available"
    );
    assert_eq!(KeymapError::WriteFailed.message(), "Failed to save layout");
    assert_eq!(
        KeymapError::RemoveFailed.message(),
        "Failed to clear storage"
    );
    assert_eq!(KeymapError::NoSavedData.message(), "No saved layout found");
    assert_eq!(
        KeymapError::CorruptData.message(),
        "Failed to parse saved layout data"
    );
}

#[test]
fn load_from_storage_falls_back_to_defaults() {
    let b = Keymap::load_from_storage(None);
    assert_eq!(b.code_at(0, 0), KeyboardUsage::KeyboardEscape);

    let garbage = b"not json".to_vec();
    let b = Keymap::load_from_storage(Some(&garbage));
    assert_eq!(b.code_at(0, 0), KeyboardUsage::KeyboardEscape);

    let stored = b"[[[0,0],20]]".to_vec();
    let b = Keymap::load_from_storage(Some(&stored));
    assert_eq!(b.code_at(0, 0), KeyboardUsage::KeyboardQq);
    assert_eq!(b.len(), 1);

    let d = Keymap::initialize_default();
    assert_eq!(d.code_at(0, 0), KeyboardUsage::KeyboardEscape);
    assert!(d.len() > 0);
}

#[test]
fn fixed_names_for_store_and_download() {
    assert_eq!(layout_rs::storage_key(), "dactyl_keymap");
    assert_eq!(layout_rs::export_file_name(), "dactyl_keymap.json");
}

#[test]
fn saved_factory_layout_loads_back_unchanged() {
    // The factory layout binds the empty key at (2,13); its byte round-trips
    // with everything else.
    let mut km = fresh();
    let payload = km.save_payload();
    assert_eq!(km.save(true), Ok(()));

    let mut km2 = fresh();
    km2.update_key(0, 0, "X".to_string());
    assert_eq!(km2.load(Some(&payload)), Ok(()));
    assert!(!km2.has_unsaved_changes());
    assert_eq!(km2.current().code_at(2, 13), KeyboardUsage::KeyboardEmpty);
    assert_eq!(km2.current().len(), km.current().len());
    assert!(km.current().same_mapping(km2.current()));
}

#[test]
fn load_accepts_name_coded_entries() {
    // Older stores spell codes as the enum's variant names.
    let mut km = fresh();
    let stored = b"[[[0,0],\"KeyboardQq\"],[[1,2],40]]".to_vec();
    assert_eq!(km.load(Some(&stored)), Ok(()));
    assert_eq!(km.current().code_at(0, 0), KeyboardUsage::KeyboardQq);
    assert_eq!(km.current().code_at(1, 2), KeyboardUsage::KeyboardEnter);
    assert_eq!(km.current().len(), 2);

    let spaced = b"[ [ [2,13] , \"KeyboardEmpty\" ] ]".to_vec();
    assert_eq!(km.load(Some(&spaced)), Ok(()));
    assert_eq!(km.current().code_at(2, 13), KeyboardUsage::KeyboardEmpty);
}

#[test]
fn load_rejects_unknown_or_unterminated_names() {
    let mut km = fresh();
    for garbage in [
        &b"[[[0,0],\"NoSuchKey\"]]"[..],
        b"[[[0,0],\"KeyboardQq]]",
        b"[[[0,0],\"Esc\"]]",
    ] {
        let bytes = garbage.to_vec();
        assert_eq!(km.load(Some(&bytes)), Err(KeymapError::CorruptData));
    }
}
