use riko::editor::Editor;
use riko::key::EditorKey;
use riko::position::Position;
use riko::row::EditorRow;
use riko::screen::{draw_line, draw_lines, draw_status_text};

fn bytes(parts: &[&str]) -> Vec<u8> {
    parts.concat().into_bytes()
}

const PLACEHOLDER: &str = "\x1b[K\x1b[48;5;236m~\x1b[m\r\n";

#[test]
fn scroll_shows_the_cursor_vertically() {
    let mut text = Vec::new();
    for i in 0..50 {
        text.extend_from_slice(format!("{}\n", i).as_bytes());
    }
    let mut editor = Editor::new(10, 7);
    editor.open_file(&"n".to_string(), &text);
    editor.scroll();
    assert_eq!(editor.offset(), Position::new(0, 0));
    for _ in 0..4 {
        editor.move_cursor(&EditorKey::ArrowDown);
    }
    editor.scroll();
    assert_eq!(editor.offset(), Position::new(0, 0));
    editor.move_cursor(&EditorKey::ArrowDown);
    editor.scroll();
    assert_eq!(editor.offset(), Position::new(0, 1));
    for _ in 0..20 {
        editor.move_cursor(&EditorKey::ArrowDown);
    }
    editor.scroll();
    assert_eq!(editor.cursor_position().y, 25);
    assert_eq!(editor.offset(), Position::new(0, 21));
    for _ in 0..3 {
        editor.move_cursor(&EditorKey::ArrowUp);
    }
    editor.scroll();
    assert_eq!(editor.offset(), Position::new(0, 21));
    for _ in 0..3 {
        editor.move_cursor(&EditorKey::ArrowUp);
    }
    editor.scroll();
    assert_eq!(editor.offset(), Position::new(0, 19));
}

#[test]
fn scroll_shows_the_cursor_horizontally_in_render_columns() {
    let mut editor = Editor::new(10, 5);
    editor.open_file(&"n".to_string(), b"\tabcdefgh\n");
    editor.scroll();
    assert_eq!(editor.render_cursor_position(), Position::new(0, 0));
    assert_eq!(editor.offset(), Position::new(0, 0));
    editor.move_cursor(&EditorKey::ArrowRight);
    editor.scroll();
    assert_eq!(editor.render_cursor_position(), Position::new(8, 0));
    assert_eq!(editor.offset(), Position::new(0, 0));
    editor.move_cursor(&EditorKey::ArrowRight);
    editor.move_cursor(&EditorKey::ArrowRight);
    editor.scroll();
    assert_eq!(editor.render_cursor_position(), Position::new(10, 0));
    assert_eq!(editor.offset(), Position::new(1, 0));
    editor.process_keypress(&EditorKey::End);
    editor.scroll();
    assert_eq!(editor.render_cursor_position(), Position::new(16, 0));
    assert_eq!(editor.offset(), Position::new(7, 0));
    for _ in 0..9 {
        editor.move_cursor(&EditorKey::ArrowLeft);
    }
    editor.scroll();
    assert_eq!(editor.cursor_position(), Position::new(0, 0));
    assert_eq!(editor.offset(), Position::new(0, 0));
}

#[test]
fn scroll_on_an_empty_buffer() {
    let mut editor = Editor::new(1, 3);
    editor.scroll();
    assert_eq!(editor.offset(), Position::new(0, 0));
    assert_eq!(editor.render_cursor_position(), Position::new(0, 0));
    let mut editor = Editor::new(1, 3);
    editor.open_empty();
    editor.scroll();
    assert_eq!(editor.offset(), Position::new(0, 0));
}

#[test]
fn scroll_in_a_window_of_one_row() {
    let mut editor = Editor::new(4, 3);
    editor.open_file(&"n".to_string(), b"a\nb\n");
    editor.process_keypress(&EditorKey::PageDown);
    assert_eq!(editor.cursor_position(), Position::new(0, 0));
    editor.move_cursor(&EditorKey::ArrowDown);
    editor.scroll();
    assert_eq!(editor.offset(), Position::new(0, 1));
    editor.process_keypress(&EditorKey::PageDown);
    assert_eq!(editor.cursor_position(), Position::new(0, 1));
}

#[test]
fn frame_of_a_small_document() {
    let mut editor = Editor::new(10, 5);
    editor.open_file(&"a.txt".to_string(), b"ab\n\tc\n");
    let frame = editor.refresh_screen();
    let expected = bytes(&[
        "\x1b[?25l",
        "\x1b[H",
        "\x1b[Kab\r\n",
        "\x1b[K        c\r\n",
        PLACEHOLDER,
        "\x1b[48;5;245m",
        "a.txt: (cx0, cy0): (rcx0, rcy0): lc:2",
        "\x1b[m\r\n",
        "\x1b[K",
        "\x1b[1;1H",
        "\x1b[?25h",
    ]);
    assert_eq!(frame, expected);
}

#[test]
fn frame_keeps_nothing_for_the_next_one() {
    let mut editor = Editor::new(10, 5);
    editor.open_file(&"a.txt".to_string(), b"ab\n");
    let first = editor.refresh_screen();
    let second = editor.refresh_screen();
    assert_eq!(first, second);
}

#[test]
fn frame_comes_after_rows_drawn_before() {
    let mut editor = Editor::new(10, 4);
    editor.open_file(&"a.txt".to_string(), b"ab\n");
    let plain = editor.refresh_screen();
    editor.draw_rows();
    let frame = editor.refresh_screen();
    let rows = bytes(&["\x1b[Kab\r\n", PLACEHOLDER]);
    assert_eq!(frame, [rows, plain].concat());
}

#[test]
fn frame_shows_welcome_banner_and_padded_status_bar() {
    let mut editor = Editor::new(60, 8);
    editor.open_empty();
    editor.process_keypress(&EditorKey::Char(b'x'));
    editor.process_keypress(&EditorKey::BackSpace);
    editor.set_status_message("hello".to_string());
    let frame = editor.refresh_screen();
    let banner = format!(
        "\x1b[K\x1b[48;5;236m~\x1b[m{}riko editor -- version 0.0.1\r\n",
        " ".repeat(16)
    );
    let status = format!(
        "[NO NAME](modified): (cx0, cy0): (rcx0, rcy0): lc:1{}",
        " ".repeat(9)
    );
    assert_eq!(status.len(), 60);
    let expected = bytes(&[
        "\x1b[?25l",
        "\x1b[H",
        "\x1b[K\r\n",
        PLACEHOLDER,
        &banner,
        PLACEHOLDER,
        PLACEHOLDER,
        PLACEHOLDER,
        "\x1b[48;5;245m",
        &status,
        "\x1b[m\r\n",
        "\x1b[K",
        "hello",
        "\x1b[1;1H",
        "\x1b[?25h",
    ]);
    assert_eq!(frame, expected);
}

#[test]
fn banner_is_not_centred_in_a_narrow_window() {
    let rows = vec![EditorRow::new(Vec::new())];
    let mut buf = Vec::new();
    draw_line(&mut buf, &rows, Position::new(0, 0), Position::new(20, 6), 2);
    assert_eq!(
        buf,
        bytes(&["\x1b[K\x1b[48;5;236m~\x1b[m", "riko editor -- version 0.0.1", "\r\n"])
    );
    let mut buf = Vec::new();
    draw_line(&mut buf, &rows, Position::new(0, 0), Position::new(31, 6), 2);
    assert_eq!(
        buf,
        bytes(&["\x1b[K\x1b[48;5;236m~\x1b[m", " riko editor -- version 0.0.1", "\r\n"])
    );
}

#[test]
fn banner_only_for_a_single_empty_row_a_third_down() {
    let window = Position::new(40, 6);
    let origin = Position::new(0, 0);
    let placeholder = PLACEHOLDER.as_bytes().to_vec();
    let empty = vec![EditorRow::new(Vec::new())];
    for i in [1, 3, 4, 5] {
        let mut buf = Vec::new();
        draw_line(&mut buf, &empty, origin, window, i);
        assert_eq!(buf, placeholder);
    }
    let typed = vec![EditorRow::new(b"x".to_vec())];
    let two = vec![EditorRow::new(Vec::new()), EditorRow::new(Vec::new())];
    let none: Vec<EditorRow> = Vec::new();
    for rows in [&typed, &two, &none] {
        let mut buf = Vec::new();
        draw_line(&mut buf, rows, origin, window, 2);
        assert_eq!(buf, placeholder);
    }
    let mut buf = Vec::new();
    draw_line(&mut buf, &empty, origin, Position::new(40, 2), 0);
    assert_eq!(buf, b"\x1b[K\r\n".to_vec());
}

#[test]
fn rows_below_the_end_show_only_the_placeholder_when_scrolled() {
    let rows = vec![EditorRow::new(b"ab".to_vec()), EditorRow::new(b"cd".to_vec())];
    let mut buf = Vec::new();
    draw_lines(&mut buf, &rows, Position::new(0, 1), Position::new(10, 3));
    assert_eq!(buf, bytes(&["\x1b[Kcd\r\n", PLACEHOLDER, PLACEHOLDER]));
}

#[test]
fn rows_show_the_window_of_the_rendered_line() {
    let rows = vec![
        EditorRow::new(b"0123456789abcdef".to_vec()),
        EditorRow::new(b"\tx".to_vec()),
        EditorRow::new(b"0123".to_vec()),
        EditorRow::new(b"012".to_vec()),
        EditorRow::new(b"".to_vec()),
    ];
    let mut buf = Vec::new();
    draw_lines(&mut buf, &rows, Position::new(3, 0), Position::new(6, 5));
    assert_eq!(
        buf,
        bytes(&[
            "\x1b[K345678\r\n",
            "\x1b[K     x\r\n",
            "\x1b[K3\r\n",
            "\x1b[K\r\n",
            "\x1b[K\r\n",
        ])
    );
}

#[test]
fn draw_rows_appends_to_the_pending_output() {
    let mut editor = Editor::new(10, 4);
    editor.open_file(&"a.txt".to_string(), b"ab\n");
    editor.draw_rows();
    editor.draw_rows();
    let frame = editor.refresh_screen();
    let rows = bytes(&["\x1b[Kab\r\n", PLACEHOLDER]);
    assert!(frame.starts_with(&[rows.clone(), rows].concat()));
}

#[test]
fn status_text_shows_name_mark_cursors_and_line_count() {
    let mut buf = Vec::new();
    draw_status_text(
        &mut buf,
        &b"notes.txt".to_vec(),
        true,
        Position::new(3, 14),
        Position::new(10, 14),
        120,
    );
    assert_eq!(
        buf,
        b"notes.txt(modified): (cx3, cy14): (rcx10, rcy14): lc:120".to_vec()
    );
    let mut buf = Vec::new();
    draw_status_text(&mut buf, &Vec::new(), false, Position::new(0, 0), Position::new(0, 0), 0);
    assert_eq!(buf, b": (cx0, cy0): (rcx0, rcy0): lc:0".to_vec());
}

#[test]
fn status_bar_is_filled_to_the_windows_width() {
    let mut editor = Editor::new(50, 3);
    editor.open_file(&"a".to_string(), b"x\n");
    editor.set_status_message("msg".to_string());
    editor.draw_status_bar();
    let frame = editor.refresh_screen();
    let bar = format!(
        "\x1b[48;5;245m{:<50}\x1b[m\r\n\x1b[Kmsg",
        "a: (cx0, cy0): (rcx0, rcy0): lc:1"
    );
    assert!(frame.starts_with(bar.as_bytes()));
}

#[test]
fn frame_puts_the_cursor_relative_to_the_offset() {
    let mut text = Vec::new();
    for _ in 0..30 {
        text.extend_from_slice(b"\t0123456789\n");
    }
    let mut editor = Editor::new(12, 6);
    editor.open_file(&"n".to_string(), &text);
    for _ in 0..10 {
        editor.move_cursor(&EditorKey::ArrowDown);
    }
    editor.process_keypress(&EditorKey::End);
    let frame = editor.refresh_screen();
    assert_eq!(editor.cursor_position(), Position::new(11, 10));
    assert_eq!(editor.render_cursor_position(), Position::new(18, 10));
    assert_eq!(editor.offset(), Position::new(7, 7));
    assert!(frame.ends_with(b"\x1b[4;12H\x1b[?25h"));
    let line = b"\x1b[K 0123456789\r\n";
    let start = b"\x1b[?25l\x1b[H".len();
    assert_eq!(&frame[start..start + line.len()], line);
}

#[test]
fn status_bar_of_a_fresh_document_has_no_mark() {
    let mut editor = Editor::new(50, 3);
    editor.open_empty();
    editor.draw_status_bar();
    let frame = editor.refresh_screen();
    let bar = format!(
        "\x1b[48;5;245m{:<50}\x1b[m\r\n\x1b[K",
        "[NO NAME]: (cx0, cy0): (rcx0, rcy0): lc:1"
    );
    assert!(frame.starts_with(bar.as_bytes()));
}
