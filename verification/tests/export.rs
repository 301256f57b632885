use layout_rs::{Keymap, KeymapBuffer, KeyboardUsage};

fn two_entry_keymap() -> Keymap {
    // Insert out of order on purpose: the buffer keeps row-major order.
    let mut b = KeymapBuffer::new();
    b.set(1, 0, KeyboardUsage::parse_label("Q"));
    b.set(0, 0, KeyboardUsage::parse_label("Esc"));
    Keymap {
        saved: b.duplicate(),
        current: b,
    }
}

#[test]
fn export_orders_keys_row_major() {
    let km = two_entry_keymap();
    let doc = km.export_document("2024-01-01T00:00:00Z");
    assert_eq!(doc.keys.len(), 2);
    assert_eq!((doc.keys[0].row, doc.keys[0].col), (0, 0));
    assert_eq!(doc.keys[0].label, "Esc");
    assert_eq!((doc.keys[1].row, doc.keys[1].col), (1, 0));
    assert_eq!(doc.keys[1].label, "Q");
}

#[test]
fn export_metadata_is_fixed_and_counted() {
    let km = two_entry_keymap();
    let doc = km.export_document("2024-06-30T12:34:56Z");
    assert_eq!(doc.metadata.version, "1.0");
    assert_eq!(doc.metadata.keyboard, "Dactyl Manuform 5x7");
    assert_eq!(doc.metadata.exported_at, "2024-06-30T12:34:56Z");
    assert_eq!(doc.metadata.total_keys, 2);
}

#[test]
fn export_entries_carry_label_and_numeric_code() {
    let km = two_entry_keymap();
    let doc = km.export_document("now");
    assert_eq!(doc.keys[0].keycode, 0x29);
    assert_eq!(doc.keys[1].keycode, 0x14);
}

#[test]
fn export_json_exact_document() {
    let km = two_entry_keymap();
    let json = String::from_utf8(km.export_json("2024-01-01T00:00:00Z")).unwrap();
    let expected = "{\"metadata\":{\"version\":\"1.0\",\"keyboard\":\"Dactyl Manuform 5x7\",\"exported_at\":\"2024-01-01T00:00:00Z\",\"total_keys\":2},\"keys\":[{\"position\":[0,0],\"label\":\"Esc\",\"keycode\":41},{\"position\":[1,0],\"label\":\"Q\",\"keycode\":20}]}";
    assert_eq!(json, expected);
}

#[test]
fn export_json_escapes_special_characters() {
    let mut b = KeymapBuffer::new();
    // The backslash-and-bar key's label is a lone backslash
    b.set(0, 0, KeyboardUsage::KeyboardBackslashBar);
    let km = Keymap {
        saved: b.duplicate(),
        current: b,
    };
    let json = String::from_utf8(km.export_json("a\"b\\c\nd")).unwrap();
    assert!(json.contains("\"exported_at\":\"a\\\"b\\\\c\\u000ad\""));
    assert!(json.contains("\"label\":\"\\\\\""));
}

#[test]
fn export_json_keeps_non_ascii_labels() {
    let mut b = KeymapBuffer::new();
    b.set(0, 0, KeyboardUsage::KeyboardRightArrow);
    let km = Keymap {
        saved: b.duplicate(),
        current: b,
    };
    let json = String::from_utf8(km.export_json("now")).unwrap();
    assert!(json.contains("\"label\":\"\u{2192}\""));
}

#[test]
fn export_is_read_only() {
    let mut km = two_entry_keymap();
    km.update_key(0, 0, "Tab".to_string());
    let before_dirty = km.has_unsaved_changes();
    let _ = km.export_json("now");
    let _ = km.export_document("now");
    assert_eq!(km.has_unsaved_changes(), before_dirty);
    assert_eq!(km.current().code_at(0, 0), KeyboardUsage::KeyboardTab);
}

#[test]
fn export_of_empty_buffer() {
    let km = Keymap {
        current: KeymapBuffer::new(),
        saved: KeymapBuffer::new(),
    };
    let json = String::from_utf8(km.export_json("t")).unwrap();
    assert!(json.contains("\"total_keys\":0"));
    assert!(json.ends_with("\"keys\":[]}"));
}
