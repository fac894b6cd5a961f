use kaitou::filename::decode_filename;

#[test]
fn clean_utf8_is_returned_unchanged() {
    assert_eq!(decode_filename(b"readme.txt"), "readme.txt");
    assert_eq!(decode_filename("ノート.txt".as_bytes()), "ノート.txt");
    assert_eq!(decode_filename("日本語/文書.md".as_bytes()), "日本語/文書.md");
    assert_eq!(decode_filename(b""), "");
}

#[test]
fn utf8_with_tab_newline_return_is_still_accepted() {
    assert_eq!(decode_filename(b"a\tb\nc\rd"), "a\tb\nc\rd");
}

#[test]
fn shift_jis_names_are_recovered() {
    // "ノート.txt" in Shift_JIS
    let sjis: &[u8] = &[0x83, 0x6d, 0x81, 0x5b, 0x83, 0x67, 0x2e, 0x74, 0x78, 0x74];
    assert_eq!(decode_filename(sjis), "ノート.txt");
    // "日本語" in Shift_JIS
    let sjis2: &[u8] = &[0x93, 0xfa, 0x96, 0x7b, 0x8c, 0xea];
    assert_eq!(decode_filename(sjis2), "日本語");
    // round trip through the same encoder the fixture used
    let (encoded, _, had_errors) = encoding_rs::SHIFT_JIS.encode("表計算.csv");
    assert!(!had_errors);
    assert_eq!(decode_filename(&encoded), "表計算.csv");
}

#[test]
fn control_characters_disqualify_the_utf8_reading() {
    // valid UTF-8, but ESC is a control character, so the Shift_JIS tier
    // decodes these bytes (both readings agree on ASCII)
    let bytes: &[u8] = &[0x1b, 0x24, 0x42];
    assert_eq!(decode_filename(bytes), "\u{1b}$B");
}

#[test]
fn undecodable_bytes_fall_back_to_lossy() {
    // 0x81 alone is neither valid UTF-8 nor a complete Shift_JIS sequence
    let bytes: &[u8] = &[0x81];
    assert_eq!(decode_filename(bytes), "\u{fffd}");
    // a longer name keeps its readable parts
    let mixed: &[u8] = &[b'a', 0xff, b'b'];
    assert_eq!(decode_filename(mixed), "a\u{fffd}b");
}

#[test]
fn decoding_twice_equals_decoding_once() {
    let fixtures: Vec<Vec<u8>> = vec![
        b"readme.txt".to_vec(),
        "ノート.txt".as_bytes().to_vec(),
        vec![0x83, 0x6d, 0x81, 0x5b, 0x83, 0x67],
        vec![0x81],
        vec![b'a', 0xff, b'b'],
        vec![0x1b, 0x24, 0x42],
        b"".to_vec(),
    ];
    for raw in &fixtures {
        let once = decode_filename(raw);
        let twice = decode_filename(once.as_bytes());
        assert_eq!(once, twice);
    }
}

#[test]
fn replacement_character_is_a_fixed_point() {
    let once = decode_filename(&[0x81]);
    let twice = decode_filename(once.as_bytes());
    assert_eq!(once, twice);
    assert_eq!(decode_filename("\u{fffd}".as_bytes()), "\u{fffd}");
}
