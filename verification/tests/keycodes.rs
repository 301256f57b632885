use layout_rs::KeyboardUsage;

#[test]
fn test_keycode_conversion() {
    assert_eq!(KeyboardUsage::from(0x04), KeyboardUsage::KeyboardAa);
    assert_eq!(KeyboardUsage::from(0x28), KeyboardUsage::KeyboardEnter);
    assert_eq!(KeyboardUsage::from(0xFF), KeyboardUsage::KeyboardEmpty);
}

#[test]
fn test_label_mapping() {
    let label: &str = KeyboardUsage::KeyboardAa.label();
    assert_eq!(label, "A");
    let label: &str = KeyboardUsage::KeyboardEnter.label();
    assert_eq!(label, "Enter");
    let label: &str = KeyboardUsage::KeyboardSpacebar.label();
    assert_eq!(label, "Space");
}

#[test]
fn test_reverse_mapping() {
    let keycode: KeyboardUsage = "A".into();
    assert_eq!(keycode, KeyboardUsage::KeyboardAa);
    let keycode: KeyboardUsage = "Enter".into();
    assert_eq!(keycode, KeyboardUsage::KeyboardEnter);
    let keycode: KeyboardUsage = "Invalid".into();
    assert_eq!(keycode, KeyboardUsage::Reserved);
}

#[test]
fn test_bidirectional_mapping() {
    // Convert keycode -> label -> keycode
    let original = KeyboardUsage::KeyboardAa;
    let label: &str = original.label();
    let converted_back: KeyboardUsage = label.into();
    assert_eq!(original, converted_back);
}

#[test]
fn test_lazy_static_performance() {
    // Repeated label lookups must not rebuild anything expensive
    let start = std::time::Instant::now();
    for _ in 0..1000 {
        let _label: &str = KeyboardUsage::KeyboardAa.label();
    }
    let duration = start.elapsed();

    assert!(duration.as_millis() < 10);
}

#[test]
fn test_from_string() {
    // From<String>
    let keycode: KeyboardUsage = "A".to_string().into();
    assert_eq!(keycode, KeyboardUsage::KeyboardAa);

    let keycode: KeyboardUsage = "Enter".to_string().into();
    assert_eq!(keycode, KeyboardUsage::KeyboardEnter);

    let keycode: KeyboardUsage = "Space".to_string().into();
    assert_eq!(keycode, KeyboardUsage::KeyboardSpacebar);

    // An invalid label resolves to the sentinel
    let keycode: KeyboardUsage = "Invalid".to_string().into();
    assert_eq!(keycode, KeyboardUsage::Reserved);
}

#[test]
fn test_from_str() {
    // From<&str>
    let keycode: KeyboardUsage = "A".into();
    assert_eq!(keycode, KeyboardUsage::KeyboardAa);

    let keycode: KeyboardUsage = "Enter".into();
    assert_eq!(keycode, KeyboardUsage::KeyboardEnter);

    let keycode: KeyboardUsage = "Space".into();
    assert_eq!(keycode, KeyboardUsage::KeyboardSpacebar);

    // An invalid label resolves to the sentinel
    let keycode: KeyboardUsage = "Invalid".into();
    assert_eq!(keycode, KeyboardUsage::Reserved);
}

#[test]
fn test_from_implementations_consistency() {
    // All label conversions agree with each other
    let test_labels = ["A", "Enter", "Space", "F1", "L Ctrl", "Invalid"];

    for label in test_labels {
        let from_str: KeyboardUsage = label.into();
        let from_string: KeyboardUsage = label.to_string().into();
        let from_function: KeyboardUsage = KeyboardUsage::parse_label(label);

        assert_eq!(from_str, from_string);
        assert_eq!(from_str, from_function);
    }
}

#[test]
fn test_into_string() {
    // Owned display labels
    let label: String = KeyboardUsage::KeyboardAa.label_string();
    assert_eq!(label, "A");

    let label: String = KeyboardUsage::KeyboardEnter.label_string();
    assert_eq!(label, "Enter");

    let label: String = KeyboardUsage::KeyboardSpacebar.label_string();
    assert_eq!(label, "Space");

    // A code without a label displays as "Unknown"
    let label: String = KeyboardUsage::Reserved.label_string();
    assert_eq!(label, "Unknown");
}

#[test]
fn test_into_str() {
    // Borrowed display labels
    let label: &str = KeyboardUsage::KeyboardAa.label();
    assert_eq!(label, "A");

    let label: &str = KeyboardUsage::KeyboardEnter.label();
    assert_eq!(label, "Enter");

    let label: &str = KeyboardUsage::KeyboardSpacebar.label();
    assert_eq!(label, "Space");

    // A code without a label displays as "Unknown"
    let label: &str = KeyboardUsage::Reserved.label();
    assert_eq!(label, "Unknown");
}

#[test]
fn test_bidirectional_conversion() {
    // Converting both ways is consistent
    let test_keycodes = [
        KeyboardUsage::KeyboardAa,
        KeyboardUsage::KeyboardEnter,
        KeyboardUsage::KeyboardSpacebar,
        KeyboardUsage::KeyboardF1,
        KeyboardUsage::KeyboardLeftControl,
    ];

    for keycode in test_keycodes {
        // Through an owned string and back
        let label: String = keycode.label_string();
        let converted_back: KeyboardUsage = label.into();
        assert_eq!(keycode, converted_back);

        // Through a string slice and back
        let label: &str = keycode.label();
        let converted_back: KeyboardUsage = label.into();
        assert_eq!(keycode, converted_back);
    }
}

#[test]
fn test_byte_round_trip_all_values() {
    // Every byte decodes, and encoding the result gives the byte back or
    // the sentinel's fixed identifier for unassigned ranges.
    for b in 0..=255u8 {
        let code = KeyboardUsage::decode_byte(b);
        let back = code.encode_byte();
        assert!(back == b || code == KeyboardUsage::Reserved, "byte {b}");
        if code == KeyboardUsage::Reserved {
            assert_eq!(back, 0xE8, "byte {b}");
        }
    }
    // The extension bytes are assigned, the empty key's included.
    assert_eq!(KeyboardUsage::decode_byte(0xFF), KeyboardUsage::KeyboardEmpty);
    assert_eq!(KeyboardUsage::KeyboardEmpty.encode_byte(), 0xFF);
    assert_eq!(KeyboardUsage::decode_byte(0xE8), KeyboardUsage::Reserved);
}

#[test]
fn test_decode_name() {
    // Canonical variant names, as older stores spell codes, resolve back.
    assert_eq!(
        KeyboardUsage::decode_name(b"KeyboardEscape"),
        Some(KeyboardUsage::KeyboardEscape)
    );
    assert_eq!(
        KeyboardUsage::decode_name(b"KeyboardEmpty"),
        Some(KeyboardUsage::KeyboardEmpty)
    );
    assert_eq!(
        KeyboardUsage::decode_name(b"Keypad7Home"),
        Some(KeyboardUsage::Keypad7Home)
    );
    assert_eq!(KeyboardUsage::decode_name(b"NoSuchKey"), None);
    assert_eq!(KeyboardUsage::decode_name(b""), None);
    // Display labels are not names.
    assert_eq!(KeyboardUsage::decode_name(b"Esc"), None);
}

#[test]
fn test_unknown_label_and_sentinel_fallback() {
    assert_eq!(
        KeyboardUsage::parse_label("not-a-real-label"),
        KeyboardUsage::Reserved
    );
    assert_eq!(KeyboardUsage::Reserved.label(), "Unknown");
}

#[test]
fn test_labeled_round_trip_samples() {
    // parse_label inverts label() for labeled variants, including the
    // product extensions and the empty label.
    let samples = [
        KeyboardUsage::KeyboardEscape,
        KeyboardUsage::KeyboardBackslashBar,
        KeyboardUsage::KeyboardRightArrow,
        KeyboardUsage::KeypadPlus,
        KeyboardUsage::KeyboardRaise,
        KeyboardUsage::KeyboardLower,
        KeyboardUsage::KeyboardEmpty,
        KeyboardUsage::Keypad0Insert,
    ];
    for code in samples {
        assert_eq!(KeyboardUsage::parse_label(code.label()), code);
    }
}
