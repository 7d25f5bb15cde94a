use backend_supervisor::events::StreamKind;
use backend_supervisor::forwarder::{forward_all, LineEvent, LineFramer};

fn lines(events: &[LineEvent]) -> Vec<&str> {
    events.iter().map(|e| e.line.as_str()).collect()
}

#[test]
fn n_lines_give_n_events_in_order() {
    let events = forward_all(StreamKind::Stdout, b"one\ntwo\nthree\n");
    assert_eq!(lines(&events), vec!["one", "two", "three"]);
    assert!(events.iter().all(|e| e.stream == StreamKind::Stdout));
}

#[test]
fn many_lines() {
    let mut bytes = Vec::new();
    for i in 0..100 {
        bytes.extend_from_slice(format!("line {}\n", i).as_bytes());
    }
    let events = forward_all(StreamKind::Stderr, &bytes);
    assert_eq!(events.len(), 100);
    for (i, event) in events.iter().enumerate() {
        assert_eq!(event.line, format!("line {}", i));
        assert_eq!(event.stream, StreamKind::Stderr);
    }
}

#[test]
fn empty_stream_gives_nothing() {
    assert!(forward_all(StreamKind::Stdout, b"").is_empty());
}

#[test]
fn empty_lines_are_lines() {
    let events = forward_all(StreamKind::Stdout, b"\n\nx\n\n");
    assert_eq!(lines(&events), vec!["", "", "x", ""]);
}

#[test]
fn carriage_return_before_newline_is_dropped() {
    let events = forward_all(StreamKind::Stdout, b"a\r\nb\r\r\nc\rd\n");
    assert_eq!(lines(&events), vec!["a", "b\r", "c\rd"]);
}

#[test]
fn last_line_without_newline_is_published_at_the_end() {
    let events = forward_all(StreamKind::Stdout, b"a\nrest");
    assert_eq!(lines(&events), vec!["a", "rest"]);
    let events = forward_all(StreamKind::Stdout, b"rest\r");
    assert_eq!(lines(&events), vec!["rest\r"]);
}

#[test]
fn lines_that_are_not_utf8_are_dropped() {
    let events = forward_all(StreamKind::Stdout, b"ok\n\xff\xfe\nalso ok\n\xc3\n");
    assert_eq!(lines(&events), vec!["ok", "also ok"]);
}

#[test]
fn multibyte_text_is_decoded() {
    let events = forward_all(StreamKind::Stdout, "向听 3\nété\n".as_bytes());
    assert_eq!(lines(&events), vec!["向听 3", "été"]);
    assert_eq!(events[0].line.chars().count(), 4);
}

#[test]
fn a_multibyte_character_cut_by_a_chunk_border_survives() {
    let bytes = "向听\n".as_bytes();
    let mut framer = LineFramer::new(StreamKind::Stdout);
    let mut events = Vec::new();
    for byte in bytes {
        events.extend(framer.push(&[*byte]));
    }
    events.extend(framer.finish());
    assert_eq!(lines(&events), vec!["向听"]);
}

#[test]
fn chunking_is_invisible() {
    let bytes = b"alpha\nbeta\r\n\xff\ngamma\ndelta";
    let whole = forward_all(StreamKind::Stdout, bytes);
    for cut in 0..=bytes.len() {
        let mut framer = LineFramer::new(StreamKind::Stdout);
        let mut events = framer.push(&bytes[..cut]);
        events.extend(framer.push(&bytes[cut..]));
        events.extend(framer.finish());
        assert_eq!(events, whole);
    }
    assert_eq!(lines(&whole), vec!["alpha", "beta", "gamma", "delta"]);
}

#[test]
fn push_reports_only_finished_lines() {
    let mut framer = LineFramer::new(StreamKind::Stderr);
    assert_eq!(framer.stream(), StreamKind::Stderr);
    assert!(framer.push(b"par").is_empty());
    assert_eq!(framer.pending_len(), 3);
    let events = framer.push(b"tial\nnext");
    assert_eq!(
        events,
        vec![LineEvent { stream: StreamKind::Stderr, line: "partial".to_string() }]
    );
    assert_eq!(framer.pending_len(), 4);
    let last = framer.finish();
    assert_eq!(lines(&last), vec!["next"]);
    assert_eq!(framer.pending_len(), 0);
    assert!(framer.finish().is_empty());
}

#[test]
fn finish_drops_a_last_line_that_is_not_utf8() {
    let mut framer = LineFramer::new(StreamKind::Stdout);
    assert!(framer.push(b"\xe5\x90").is_empty());
    assert!(framer.finish().is_empty());
    assert_eq!(framer.pending_len(), 0);
}
