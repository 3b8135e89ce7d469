use riko::csi::Csi;
use riko::document::{read_rows, write_rows};
use riko::position::Position;
use riko::row::EditorRow;
use riko::text::{append_blanks, append_bytes, append_decimal, append_text, same_bytes, text_bytes};

fn lines(rows: &Vec<EditorRow>) -> Vec<Vec<u8>> {
    rows.iter().map(|r| r.chars().clone()).collect()
}

#[test]
fn decimal_of_small_and_large_numbers() {
    let mut buf = Vec::new();
    append_decimal(&mut buf, 0);
    buf.push(b' ');
    append_decimal(&mut buf, 7);
    buf.push(b' ');
    append_decimal(&mut buf, 10);
    buf.push(b' ');
    append_decimal(&mut buf, 1205);
    buf.push(b' ');
    append_decimal(&mut buf, usize::MAX);
    assert_eq!(buf, format!("0 7 10 1205 {}", usize::MAX).into_bytes());
}

#[test]
fn append_keeps_what_was_there() {
    let mut buf = b"ab".to_vec();
    append_bytes(&mut buf, b"cd");
    append_text(&mut buf, "ef");
    append_blanks(&mut buf, 3);
    append_blanks(&mut buf, 0);
    assert_eq!(buf, b"abcdef   ".to_vec());
}

#[test]
fn text_bytes_are_utf8() {
    assert_eq!(text_bytes("a\u{e9}"), vec![0x61, 0xc3, 0xa9]);
    assert_eq!(text_bytes(""), Vec::<u8>::new());
}

#[test]
fn same_bytes_compares_length_and_content() {
    assert!(same_bytes(b"", b""));
    assert!(same_bytes(b"abc", b"abc"));
    assert!(!same_bytes(b"abc", b"abd"));
    assert!(!same_bytes(b"abc", b"ab"));
    assert!(!same_bytes(b"ab", b"abc"));
}

#[test]
fn csi_sequences() {
    assert_eq!(Csi::HideCursor.to_bytes(), b"\x1b[?25l".to_vec());
    assert_eq!(Csi::ShowCursor.to_bytes(), b"\x1b[?25h".to_vec());
    assert_eq!(Csi::CursorToTopLeft.to_bytes(), b"\x1b[H".to_vec());
    assert_eq!(Csi::ClearLine.to_bytes(), b"\x1b[K".to_vec());
    assert_eq!(Csi::ResetStyle.to_bytes(), b"\x1b[m".to_vec());
}

#[test]
fn csi_cursor_to_is_row_then_column() {
    assert_eq!(Csi::CursorTo(1, 1).to_bytes(), b"\x1b[1;1H".to_vec());
    assert_eq!(Csi::CursorTo(12, 345).to_bytes(), b"\x1b[12;345H".to_vec());
}

#[test]
fn csi_background_color() {
    assert_eq!(Csi::BackgroundColor(236).to_bytes(), b"\x1b[48;5;236m".to_vec());
    assert_eq!(Csi::BackgroundColor(0).to_bytes(), b"\x1b[48;5;0m".to_vec());
    assert_eq!(Csi::BackgroundColor(255).to_bytes(), b"\x1b[48;5;255m".to_vec());
}

#[test]
fn csi_write_to_appends() {
    let mut buf = b"x".to_vec();
    Csi::ClearLine.write_to(&mut buf);
    Csi::CursorTo(2, 3).write_to(&mut buf);
    assert_eq!(buf, b"x\x1b[K\x1b[2;3H".to_vec());
}

#[test]
fn position_arithmetic_stops_at_the_ends() {
    let p = Position::new(3, 5);
    assert_eq!(p.x, 3);
    assert_eq!(p.y, 5);
    assert_eq!(p.saturating_sub(Position::new(1, 0)), Position::new(2, 5));
    assert_eq!(p.saturating_sub(Position::new(4, 9)), Position::new(0, 0));
    assert_eq!(p.saturating_add(Position::new(1, 2)), Position::new(4, 7));
    assert_eq!(
        p.saturating_add(Position::new(usize::MAX, usize::MAX - 5)),
        Position::new(usize::MAX, usize::MAX)
    );
}

#[test]
fn read_rows_one_per_line() {
    let rows = read_rows(b"abc\ndef\n");
    assert_eq!(lines(&rows), vec![b"abc".to_vec(), b"def".to_vec()]);
}

#[test]
fn read_rows_of_nothing() {
    assert!(read_rows(b"").is_empty());
}

#[test]
fn read_rows_without_final_newline() {
    let rows = read_rows(b"abc\ndef");
    assert_eq!(lines(&rows), vec![b"abc".to_vec(), b"def".to_vec()]);
}

#[test]
fn read_rows_keeps_empty_lines() {
    let rows = read_rows(b"\n\nx\n\n");
    assert_eq!(lines(&rows), vec![b"".to_vec(), b"".to_vec(), b"x".to_vec(), b"".to_vec()]);
}

#[test]
fn read_rows_takes_off_a_carriage_return_before_the_newline() {
    let rows = read_rows(b"ab\r\ncd\r\n\r\ne\r");
    assert_eq!(
        lines(&rows),
        vec![b"ab".to_vec(), b"cd".to_vec(), b"".to_vec(), b"e\r".to_vec()]
    );
    let rows = read_rows(b"a\r\r\n");
    assert_eq!(lines(&rows), vec![b"a\r".to_vec()]);
}

#[test]
fn read_rows_are_ready_to_draw() {
    let rows = read_rows(b"\tx\n");
    assert_eq!(rows[0].render().as_slice(), b"        x");
}

#[test]
fn write_rows_ends_every_line() {
    let rows = vec![
        EditorRow::new(b"ab".to_vec()),
        EditorRow::new(b"".to_vec()),
        EditorRow::new(b"\tc".to_vec()),
    ];
    assert_eq!(write_rows(&rows), b"ab\n\n\tc\n".to_vec());
    assert_eq!(write_rows(&Vec::new()), Vec::<u8>::new());
}

#[test]
fn written_rows_read_back() {
    let rows = read_rows(b"one\n\ntwo\tthree\nlast");
    let bytes = write_rows(&rows);
    assert_eq!(bytes, b"one\n\ntwo\tthree\nlast\n".to_vec());
    assert_eq!(lines(&read_rows(&bytes)), lines(&rows));
}
