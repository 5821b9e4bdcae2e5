use filen_menubar::cli::framer::{Frame, JsonFramer, MAX_BUFFER_BYTES};

fn json(s: &str) -> Frame {
    Frame::Json(s.to_string())
}

#[test]
fn test_single_line_json() {
    let mut f = JsonFramer::new();
    let frames = f.push_line(r#"{"type":"cycleSuccess"}"#);
    assert_eq!(frames, vec![json(r#"{"type":"cycleSuccess"}"#)]);
}

#[test]
fn test_multi_line_json() {
    let mut f = JsonFramer::new();
    assert!(f.push_line("{").is_empty());
    assert!(f.push_line(r#"  "type": "cycleSuccess""#).is_empty());
    let frames = f.push_line("}");
    assert_eq!(frames.len(), 1);
    match &frames[0] {
        Frame::Json(s) => {
            let parsed: serde_json::Value = serde_json::from_str(s).unwrap();
            assert_eq!(parsed["type"], "cycleSuccess");
        }
        other => panic!("Expected Json frame, got {:?}", other),
    }
}

#[test]
fn test_chunk_can_contain_text_and_multiple_json_events() {
    let mut f = JsonFramer::new();
    let frames = f.push_chunk(
        "Filen CLI v0.0.39-menubar.2\n{\"type\":\"cycleStarted\"}\n\
         {\n  \"type\": \"cycleSuccess\"\n}\n",
    );

    assert_eq!(
        frames,
        vec![
            Frame::Text("Filen CLI v0.0.39-menubar.2".to_string()),
            json(r#"{"type":"cycleStarted"}"#),
            json("{\n  \"type\": \"cycleSuccess\"\n}"),
        ]
    );
}

#[test]
fn test_chunk_boundaries_inside_strings_preserve_framing() {
    let mut f = JsonFramer::new();
    assert!(f.push_chunk(r#"{"path":"quoted \"#).is_empty());
    assert!(f.push_chunk(r#"" brace { and "#).is_empty());
    let frames = f.push_chunk(r#"text"}{"type":"cycleSuccess"}"#);

    assert_eq!(frames.len(), 2);
    assert_eq!(frames[1], json(r#"{"type":"cycleSuccess"}"#));
}

#[test]
fn test_braces_inside_strings_do_not_break_framing() {
    let mut f = JsonFramer::new();
    let line = r#"{"type":"transfer","data":{"relativePath":"dir/file{1.txt"}}"#;
    let frames = f.push_line(line);
    assert_eq!(frames, vec![json(line)]);
    let frames = f.push_line(r#"{"type":"cycleSuccess"}"#);
    assert_eq!(frames, vec![json(r#"{"type":"cycleSuccess"}"#)]);
}

#[test]
fn test_escaped_quotes_inside_strings() {
    let mut f = JsonFramer::new();
    let line = r#"{"path":"file \"quoted{\" name"}"#;
    let frames = f.push_line(line);
    assert_eq!(frames, vec![json(line)]);
}

#[test]
fn test_plain_text_passthrough() {
    let mut f = JsonFramer::new();
    let frames = f.push_line("Done syncing.");
    assert_eq!(frames, vec![Frame::Text("Done syncing.".to_string())]);
}

#[test]
fn test_stray_closing_brace_recovers() {
    let mut f = JsonFramer::new();
    let frames = f.push_line("} unexpected");
    assert_eq!(frames, vec![Frame::Text("} unexpected".to_string())]);
    let frames = f.push_line(r#"{"type":"cycleSuccess"}"#);
    assert_eq!(frames, vec![json(r#"{"type":"cycleSuccess"}"#)]);
}

#[test]
fn test_empty_lines_ignored() {
    let mut f = JsonFramer::new();
    assert!(f.push_line("").is_empty());
    assert!(f.push_line("   ").is_empty());
}

#[test]
fn test_oversized_buffer_discarded() {
    let mut f = JsonFramer::new();
    f.push_line("{");
    let big_line = format!("\"key\": \"{}\",", "x".repeat(600 * 1024));
    f.push_line(&big_line);
    f.push_line(&big_line);

    assert!(f.is_discarding());
    assert_eq!(f.depth(), 1);

    assert!(f.push_line(r#"{"type":"cycleSuccess"}"#).is_empty());
    assert!(f.is_discarding());
    assert_eq!(f.depth(), 1);

    assert!(f.push_line("}").is_empty());
    assert!(!f.is_discarding());
    assert_eq!(f.depth(), 0);

    let frames = f.push_line(r#"{"type":"cycleSuccess"}"#);
    assert_eq!(frames, vec![json(r#"{"type":"cycleSuccess"}"#)]);
}

#[test]
fn test_oversized_top_level_text_recovers_after_newline() {
    let mut f = JsonFramer::new();
    let oversized = "x".repeat(MAX_BUFFER_BYTES + 1);

    assert!(f.push_chunk(&oversized).is_empty());
    assert_eq!(f.buffered_bytes(), 0);
    assert!(f.is_discarding_text());

    let frames = f.push_chunk("\n{\"type\":\"cycleSuccess\"}\n");
    assert_eq!(frames, vec![json(r#"{"type":"cycleSuccess"}"#)]);
    assert!(!f.is_discarding_text());
}

#[test]
fn test_oversized_top_level_whitespace_is_bounded_and_recovers() {
    let mut f = JsonFramer::new();
    let oversized = " ".repeat(MAX_BUFFER_BYTES + 1);

    assert!(f.push_chunk(&oversized).is_empty());
    assert_eq!(f.buffered_bytes(), 0);

    let frames = f.push_chunk("\nhealthy diagnostic\n");
    assert_eq!(frames, vec![Frame::Text("healthy diagnostic".to_string())]);
}

#[test]
fn test_oversized_pretty_printed_event_emits_no_fragments() {
    let mut f = JsonFramer::new();

    assert!(f.push_line("{").is_empty());
    assert!(f.push_line(r#"  "type": "remoteTreeIgnored","#).is_empty());
    assert!(f.push_line(r#"  "data": {"#).is_empty());
    assert!(f.push_line(r#"    "ignored": ["#).is_empty());

    let ignored_path = "x".repeat(2048);
    for index in 0..1024 {
        let frames = f.push_line(&format!(
            r#"      {{"relativePath":"/Photos/{index}/{ignored_path}","reason":"filenIgnore"}},"#
        ));
        assert!(
            frames.is_empty(),
            "oversized payload leaked a fragment frame at item {index}"
        );
    }

    assert!(f.is_discarding());
    assert!(f.push_line("    ]").is_empty());
    assert!(f.push_line("  }").is_empty());
    assert!(f.push_line("}").is_empty());
    assert!(!f.is_discarding());

    let frames = f.push_line(r#"{"type":"cycleSuccess"}"#);
    assert_eq!(frames, vec![json(r#"{"type":"cycleSuccess"}"#)]);
}

#[test]
fn test_oversized_hundred_thousand_line_chunk_recovers_next_event() {
    let mut f = JsonFramer::new();
    let mut output = String::from("{\n  \"type\": \"remoteTreeIgnored\",\n  \"data\": [\n");
    output.push_str(&"    {\"path\":\"ignored\"},\n".repeat(110_000));
    output.push_str("    {\"path\":\"last\"}\n  ]\n}\n");
    output.push_str("{\"type\":\"cycleSuccess\"}\n");

    let frames = f.push_chunk(&output);
    assert_eq!(frames, vec![json(r#"{"type":"cycleSuccess"}"#)]);
    assert!(!f.is_discarding());
    assert_eq!(f.depth(), 0);
}

#[test]
fn test_oversized_pretty_event_recovers_at_unindented_outer_close() {
    let mut f = JsonFramer::new();
    f.push_chunk("{\n  \"data\": {\n");
    f.push_chunk(&format!("    \"payload\": \"{}\",\n", "x".repeat(1024 * 1024)));
    assert!(f.is_discarding());

    f.push_chunk("    {\n  }\n");
    assert!(f.is_discarding());

    let frames = f.push_chunk("}\n{\"type\":\"cycleSuccess\"}\n");
    assert_eq!(frames, vec![json(r#"{"type":"cycleSuccess"}"#)]);
    assert!(!f.is_discarding());
    assert_eq!(f.depth(), 0);
}

#[test]
fn test_interleaved_text_between_json() {
    let mut f = JsonFramer::new();
    assert_eq!(
        f.push_line("Syncing 3 files"),
        vec![Frame::Text("Syncing 3 files".to_string())]
    );
    assert_eq!(
        f.push_line(r#"{"type":"cycleSuccess"}"#),
        vec![json(r#"{"type":"cycleSuccess"}"#)]
    );
}

// Chunk-split independence: the same output split anywhere gives the same frames.
#[test]
fn framing_does_not_depend_on_where_chunks_split() {
    let output = "note\n{\"a\":\"x}\\\"y\"}\n{\n  \"b\": {\"c\": 1}\n}\ntail\n";
    let mut whole = JsonFramer::new();
    let expected = whole.push_chunk(output);
    for split in 0..=output.len() {
        if !output.is_char_boundary(split) {
            continue;
        }
        let mut f = JsonFramer::new();
        let mut frames = f.push_chunk(&output[..split]);
        frames.extend(f.push_chunk(&output[split..]));
        assert_eq!(frames, expected, "split at {split}");
    }
    assert_eq!(
        expected,
        vec![
            Frame::Text("note".to_string()),
            json("{\"a\":\"x}\\\"y\"}"),
            json("{\n  \"b\": {\"c\": 1}\n}"),
            Frame::Text("tail".to_string()),
        ]
    );
}

// Emitted frames are never blank and carry no surrounding whitespace.
#[test]
fn frames_are_trimmed_and_non_empty() {
    let mut f = JsonFramer::new();
    let frames = f.push_chunk("   padded text   \n\t{\"k\":1}  \n \n");
    assert_eq!(
        frames,
        vec![Frame::Text("padded text".to_string()), json("{\"k\":1}")]
    );
}

#[test]
fn json_frames_end_with_a_closing_brace() {
    let mut f = JsonFramer::new();
    let frames = f.push_chunk("  {\"a\": {\"b\": 1}}  \nplain\n");
    assert_eq!(frames, vec![json(r#"{"a": {"b": 1}}"#), Frame::Text("plain".to_string())]);
    for frame in frames {
        if let Frame::Json(j) = frame {
            assert!(j.starts_with('{') && j.ends_with('}'));
        }
    }
}

#[test]
fn long_brace_free_chunks_are_framed() {
    let mut f = JsonFramer::new();
    let line = "x".repeat(10_000);
    let frames = f.push_chunk(&format!("{line}\n"));
    assert_eq!(frames, vec![Frame::Text(line)]);
    assert_eq!(f.depth(), 0);
}
