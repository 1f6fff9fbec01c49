use power_module::lines::{LineAssembler, LineEvent};
use power_module::text::fill_line;

fn feed(assembler: &mut LineAssembler, bytes: &[u8]) -> Vec<String> {
    let mut lines = Vec::new();
    for &b in bytes {
        if let LineEvent::Line(t) = assembler.push_byte(b) {
            lines.push(t.as_str().to_string());
        }
    }
    lines
}

#[test]
fn crlf_line_gives_one_token() {
    let mut assembler = LineAssembler::new();
    assert_eq!(feed(&mut assembler, b"led on\r\n"), vec!["led on".to_string()]);
    assert_eq!(assembler.len(), 0);
}

#[test]
fn lf_only_and_cr_only_lines() {
    let mut assembler = LineAssembler::new();
    assert_eq!(feed(&mut assembler, b"a\nb\r"), vec!["a".to_string(), "b".to_string()]);
}

#[test]
fn lone_terminators_are_discarded() {
    let mut assembler = LineAssembler::new();
    assert!(feed(&mut assembler, b"\r\n\n\r").is_empty());
    assert_eq!(assembler.len(), 0);
}

#[test]
fn sixty_five_bytes_without_terminator_overflow() {
    let mut assembler = LineAssembler::new();
    let mut overflows = 0;
    let mut lines = 0;
    for _ in 0..65 {
        match assembler.push_byte(b'x') {
            LineEvent::Overflow => overflows += 1,
            LineEvent::Line(_) => lines += 1,
            LineEvent::Pending => {}
        }
    }
    assert_eq!(overflows, 1);
    assert_eq!(lines, 0);
    assert_eq!(assembler.len(), 0);
    // the buffer works again afterwards
    assert_eq!(feed(&mut assembler, b"ok\n"), vec!["ok".to_string()]);
}

#[test]
fn sixty_four_bytes_then_terminator_overflows() {
    let mut assembler = LineAssembler::new();
    for _ in 0..64 {
        assert!(matches!(assembler.push_byte(b'y'), LineEvent::Pending));
    }
    assert_eq!(assembler.len(), 64);
    assert!(matches!(assembler.push_byte(b'\n'), LineEvent::Overflow));
    assert_eq!(assembler.len(), 0);
}

#[test]
fn sixty_three_bytes_make_a_line() {
    let mut assembler = LineAssembler::new();
    let body = vec![b'z'; 63];
    let mut input = body.clone();
    input.push(b'\r');
    let lines = feed(&mut assembler, &input);
    assert_eq!(lines.len(), 1);
    assert_eq!(lines[0].as_bytes(), &body[..]);
}

#[test]
fn fill_line_encodes_high_bytes_and_stops_when_full() {
    let l = fill_line(&[b'a', 0xE9]);
    assert_eq!(l.as_bytes(), &[b'a', 0xC3, 0xA9]);
    let many = vec![0xFFu8; 40];
    let l = fill_line(&many);
    assert_eq!(l.as_bytes().len(), 64);
    let exact = vec![b'q'; 70];
    assert_eq!(fill_line(&exact).as_bytes().len(), 64);
}
