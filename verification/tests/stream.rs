use filen_menubar::cli::stream::{take_valid_utf8, text_preview, BoundedLineFramer};

#[test]
fn utf8_extraction_retains_incomplete_character() {
    let mut buffer = b"first\ncaf\xc3".to_vec();
    assert_eq!(take_valid_utf8(&mut buffer).as_deref(), Some("first\ncaf"));
    assert_eq!(buffer, b"\xc3");

    buffer.extend_from_slice(b"\xa9\n");
    assert_eq!(take_valid_utf8(&mut buffer).as_deref(), Some("\u{e9}\n"));
    assert!(buffer.is_empty());
}

#[test]
fn utf8_extraction_handles_many_lines_in_one_chunk() {
    let expected = "ignored\n".repeat(110_000);
    let mut buffer = expected.as_bytes().to_vec();
    assert_eq!(take_valid_utf8(&mut buffer).as_deref(), Some(expected.as_str()));
    assert!(buffer.is_empty());
}

// Invalid bytes are decoded leniently instead of stalling; empty input gives nothing.
#[test]
fn utf8_extraction_decodes_invalid_bytes_leniently() {
    let mut empty: Vec<u8> = Vec::new();
    assert_eq!(take_valid_utf8(&mut empty), None);
    let mut only_partial = b"\xe2\x82".to_vec();
    assert_eq!(take_valid_utf8(&mut only_partial), None);
    assert_eq!(only_partial, b"\xe2\x82");
    let mut invalid = b"ok\xffend".to_vec();
    assert_eq!(take_valid_utf8(&mut invalid).as_deref(), Some("ok\u{fffd}end"));
    assert!(invalid.is_empty());
}

#[test]
fn text_preview_preserves_short_text_and_zero_limit() {
    assert_eq!(text_preview("short é text", 100), "short é text");
    assert_eq!(text_preview("not empty", 0), "");
}

#[test]
fn text_preview_truncates_at_unicode_character_boundary() {
    let text = format!("{}é-tail", "a".repeat(99));
    assert_eq!(text_preview(&text, 100), format!("{}é", "a".repeat(99)));
}

#[test]
fn stderr_framer_discards_oversized_newline_free_record_and_recovers() {
    let mut framer = BoundedLineFramer::new(8);

    assert!(framer.push_chunk(b"1234567890123456").is_empty());
    assert_eq!(framer.buffered_len(), 0);
    assert!(framer.is_discarding());

    assert_eq!(
        framer.push_chunk(b"still discarded\nhealthy\r\n"),
        vec!["healthy".to_string()]
    );
    assert!(!framer.is_discarding());
}

#[test]
fn stderr_framer_flushes_a_bounded_final_record() {
    let mut framer = BoundedLineFramer::new(16);

    assert!(framer.push_chunk(b"final error").is_empty());
    assert_eq!(framer.finish().as_deref(), Some("final error"));
    assert!(framer.finish().is_none());
}

// Records never exceed the limit, and splitting the input does not change them.
#[test]
fn stderr_records_are_bounded_and_split_independent() {
    let input: &[u8] = b"one\r\ntoolongrecord\nok\n\nlast";
    let mut whole = BoundedLineFramer::new(8);
    let expected = whole.push_chunk(input);
    assert_eq!(expected, vec!["one".to_string(), "ok".to_string()]);
    for split in 0..=input.len() {
        let mut f = BoundedLineFramer::new(8);
        let mut got = f.push_chunk(&input[..split]);
        got.extend(f.push_chunk(&input[split..]));
        assert_eq!(got, expected, "split at {split}");
        assert_eq!(f.finish().as_deref(), Some("last"));
    }
}

#[test]
fn invalid_utf8_is_decoded_lossily_and_not_retained() {
    let mut buffer = b"ab\xff".to_vec();
    assert_eq!(take_valid_utf8(&mut buffer).as_deref(), Some("ab\u{fffd}"));
    assert!(buffer.is_empty());
    assert_eq!(take_valid_utf8(&mut buffer), None);
}
