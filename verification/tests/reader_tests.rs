//! Bounded content reader behavior.

use instance_directory::reader::{read_lines, BodyLine, MAX_LINE_COUNT};

fn text_of(line: &BodyLine) -> &str {
    match line {
        BodyLine::Text(s) => s.as_str(),
        BodyLine::DecodeError => panic!("expected a decoded line"),
    }
}

#[test]
fn splits_after_each_newline() {
    let body = b"alpha\nbeta\ngamma".to_vec();
    let lines = read_lines(&body);
    assert_eq!(lines.len(), 3);
    assert_eq!(text_of(&lines[0]), "alpha\n");
    assert_eq!(text_of(&lines[1]), "beta\n");
    assert_eq!(text_of(&lines[2]), "gamma");
}

#[test]
fn empty_body_yields_no_lines() {
    let body: Vec<u8> = Vec::new();
    assert_eq!(read_lines(&body).len(), 0);
}

#[test]
fn line_cap_holds_over_long_bodies() {
    let mut body: Vec<u8> = Vec::new();
    for _ in 0..3000 {
        body.extend_from_slice(b"x\n");
    }
    let lines = read_lines(&body);
    assert_eq!(lines.len(), MAX_LINE_COUNT);
}

#[test]
fn line_cap_holds_over_unterminated_stream() {
    // no newline at all: a single giant line, far under the cap
    let body = vec![b'y'; 1 << 16];
    let lines = read_lines(&body);
    assert_eq!(lines.len(), 1);
    assert_eq!(text_of(&lines[0]).len(), 1 << 16);
    assert!(lines.len() <= MAX_LINE_COUNT);
}

#[test]
fn decode_failure_yields_one_item_then_stops() {
    let body = b"good\n\xff\xfe\nnever seen\n".to_vec();
    let lines = read_lines(&body);
    assert_eq!(lines.len(), 2);
    assert_eq!(text_of(&lines[0]), "good\n");
    assert!(matches!(lines[1], BodyLine::DecodeError));
}

#[test]
fn multibyte_text_decodes() {
    let body = "caf\u{e9}\nn\u{e4}chste\n".as_bytes().to_vec();
    let lines = read_lines(&body);
    assert_eq!(lines.len(), 2);
    assert_eq!(text_of(&lines[0]), "caf\u{e9}\n");
    assert_eq!(text_of(&lines[1]), "n\u{e4}chste\n");
}
