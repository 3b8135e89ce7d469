use vstd::prelude::*;
use vstd::string::*;
use crate::csi::{cursor_to, Csi};
use crate::model::{least, EditorView};
use crate::position::{Point, Position};
use crate::row::{all_fresh, expand, lines_of, EditorRow};
use crate::text::{append_blanks, append_bytes, append_decimal, append_text, blanks, decimal, padded};

verus! {

/// The banner of an editor that was started without a file.
pub const WELCOME: &'static str = "riko editor -- version 0.0.1";

/// What a window row below the document's end shows in its first column.
pub const PLACEHOLDER: &'static str = "~";

/// What ends each line of a frame.
pub const LINE_BREAK: &'static str = "\r\n";

/// The mark of a document with changes, in the status bar.
pub const MODIFIED: &'static str = "(modified)";

/// Background of the placeholder.
pub const PLACEHOLDER_COLOR: u8 = 236;

/// Background of the status bar.
pub const STATUS_COLOR: u8 = 245;

/// The part of a rendered line that a window of `width` columns shows when
/// it starts at column `offset`.
pub open spec fn visible(render: Seq<u8>, offset: int, width: int) -> Seq<u8> {
    if 0 <= offset < render.len() && 0 < width {
        render.subrange(offset, least(render.len() as int, offset + width))
    } else {
        Seq::empty()
    }
}

/// The banner, with the blanks before it that centre it in `width` columns.
pub open spec fn welcome_line(width: int) -> Seq<u8> {
    blanks((width - WELCOME.spec_bytes().len()) / 2) + WELCOME.spec_bytes()
}

/// Window row `i` shows the banner: the document is one empty line, and the
/// row is the one a third down the window, but not the first.
pub open spec fn shows_welcome(lines: Seq<Seq<u8>>, window: Point, i: int) -> bool {
    lines.len() == 1 && lines[0].len() == 0 && i >= 1 && i == window.y / 3
}

/// What is drawn for window row `i`, between clearing the line and the line
/// break: the visible part of the document's line `i + offset.y`, or below
/// the document's end the placeholder, followed in one row by the banner.
pub open spec fn screen_cells(lines: Seq<Seq<u8>>, offset: Point, window: Point, i: int) -> Seq<
    u8,
> {
    let line = i + offset.y;
    if 0 <= line < lines.len() {
        visible(expand(lines[line]), offset.x, window.x)
    } else {
        Csi::BackgroundColor(PLACEHOLDER_COLOR).bytes() + PLACEHOLDER.spec_bytes()
            + Csi::ResetStyle.bytes() + if shows_welcome(lines, window, i) {
            welcome_line(window.x)
        } else {
            Seq::empty()
        }
    }
}

/// What is drawn for window row `i`.
pub open spec fn screen_line(lines: Seq<Seq<u8>>, offset: Point, window: Point, i: int) -> Seq<
    u8,
> {
    Csi::ClearLine.bytes() + screen_cells(lines, offset, window, i) + LINE_BREAK.spec_bytes()
}

/// What is drawn for the first `count` rows of the window.
pub open spec fn screen_lines(lines: Seq<Seq<u8>>, offset: Point, window: Point, count: int) -> Seq<
    u8,
>
    decreases count,
{
    if count <= 0 {
        Seq::empty()
    } else {
        screen_lines(lines, offset, window, count - 1) + screen_line(
            lines,
            offset,
            window,
            count - 1,
        )
    }
}

/// The text of the status bar: file name, the mark of a changed document,
/// the two cursors and the number of lines.
pub open spec fn status_text(
    file_name: Seq<u8>,
    dirty: bool,
    cursor: Point,
    render_cursor: Point,
    line_count: nat,
) -> Seq<u8> {
    file_name + (if dirty {
        MODIFIED.spec_bytes()
    } else {
        Seq::empty()
    }) + ": (cx".spec_bytes() + decimal(cursor.x as nat) + ", cy".spec_bytes() + decimal(
        cursor.y as nat,
    ) + "): (rcx".spec_bytes() + decimal(render_cursor.x as nat) + ", rcy".spec_bytes() + decimal(
        render_cursor.y as nat,
    ) + "): lc:".spec_bytes() + decimal(line_count)
}

/// What is drawn below the window: the status bar, which is the status text
/// filled up with blanks to `width` columns, and under it the status message.
pub open spec fn status_area(text: Seq<u8>, width: int, status: Seq<u8>) -> Seq<u8> {
    Csi::BackgroundColor(STATUS_COLOR).bytes() + padded(text, width) + Csi::ResetStyle.bytes()
        + LINE_BREAK.spec_bytes() + Csi::ClearLine.bytes() + status
}

impl EditorView {
    /// What is drawn for the rows of the window.
    pub open spec fn text_area(self) -> Seq<u8> {
        screen_lines(self.lines, self.offset, self.window, self.window.y)
    }

    /// What is drawn below the window: the status bar, filled up to the
    /// window's width, and under it the status message.
    pub open spec fn status_area(self) -> Seq<u8> {
        status_area(
            status_text(
                self.file_name,
                self.dirty,
                self.cursor,
                self.render_cursor,
                self.lines.len(),
            ),
            self.window.x,
            self.status,
        )
    }

    /// The sequence that puts the terminal's cursor where the drawn cursor
    /// is in the window.
    pub open spec fn cursor_area(self) -> Seq<u8> {
        cursor_to(
            (self.cursor.y - self.offset.y + 1) as nat,
            (self.render_cursor.x - self.offset.x + 1) as nat,
        )
    }

    /// One frame: the cursor hidden and sent to the upper left corner, the
    /// window's rows, the status bar and message, then the cursor sent to
    /// its place and shown again.
    pub open spec fn frame(self) -> Seq<u8> {
        Csi::HideCursor.bytes() + Csi::CursorToTopLeft.bytes() + self.text_area()
            + self.status_area() + self.cursor_area() + Csi::ShowCursor.bytes()
    }
}

/// Adds to `buf` what is drawn for window row `i`.
pub fn draw_line(
    buf: &mut Vec<u8>,
    rows: &Vec<EditorRow>,
    offset: Position,
    window: Position,
    i: usize,
)
    requires
        all_fresh(rows@),
    ensures
        final(buf)@ == old(buf)@ + screen_line(lines_of(rows@), offset@, window@, i as int),
{
    let ghost lines = lines_of(rows@);
    Csi::ClearLine.write_to(buf);
    if offset.y < rows.len() && i < rows.len() - offset.y {
        let render = rows[i + offset.y].render();
        assert(render@ == expand(lines[i + offset.y]));
        if offset.x < render.len() && window.x > 0 {
            let room: usize = render.len() - offset.x;
            let shown: usize = if room < window.x { room } else { window.x };
            let mut k: usize = 0;
            let ghost before = buf@;
            while k < shown
                invariant
                    k <= shown,
                    offset.x + shown <= render.len(),
                    buf@ == before + render@.subrange(offset.x as int, offset.x + k),
                decreases shown - k,
            {
                buf.push(render[offset.x + k]);
                k += 1;
                assert(buf@ =~= before + render@.subrange(offset.x as int, offset.x + k));
            }
        }
    } else {
        Csi::BackgroundColor(PLACEHOLDER_COLOR).write_to(buf);
        append_text(buf, PLACEHOLDER);
        Csi::ResetStyle.write_to(buf);
        if rows.len() == 1 && rows[0].len() == 0 && i >= 1 && i == window.y / 3 {
            let width = WELCOME.as_bytes().len();
            let padding: usize = if window.x >= width { (window.x - width) / 2 } else { 0 };
            append_blanks(buf, padding);
            append_text(buf, WELCOME);
            proof {
                let gap = window.x - WELCOME.spec_bytes().len();
                assert(width == WELCOME.spec_bytes().len());
                assert(gap >= 0 ==> padding == gap / 2);
                assert(gap < 0 ==> gap / 2 <= 0);
                assert(blanks(padding as int) =~= blanks(gap / 2));
            }
        }
    }
    append_text(buf, LINE_BREAK);
    assert(buf@ =~= old(buf)@ + screen_line(lines, offset@, window@, i as int));
}

/// Adds to `buf` what is drawn for the rows of the window.
pub fn draw_lines(buf: &mut Vec<u8>, rows: &Vec<EditorRow>, offset: Position, window: Position)
    requires
        all_fresh(rows@),
    ensures
        final(buf)@ == old(buf)@ + screen_lines(lines_of(rows@), offset@, window@, window.y as int),
{
    let mut i: usize = 0;
    assert(buf@ =~= old(buf)@ + screen_lines(lines_of(rows@), offset@, window@, 0));
    while i < window.y
        invariant
            i <= window.y,
            all_fresh(rows@),
            buf@ == old(buf)@ + screen_lines(lines_of(rows@), offset@, window@, i as int),
        decreases window.y - i,
    {
        draw_line(buf, rows, offset, window, i);
        i += 1;
        assert(buf@ =~= old(buf)@ + screen_lines(lines_of(rows@), offset@, window@, i as int));
    }
}

/// Adds to `buf` the text of the status bar.
pub fn draw_status_text(
    buf: &mut Vec<u8>,
    file_name: &Vec<u8>,
    dirty: bool,
    cursor: Position,
    render_cursor: Position,
    line_count: usize,
)
    ensures
        final(buf)@ == old(buf)@ + status_text(
            file_name@,
            dirty,
            cursor@,
            render_cursor@,
            line_count as nat,
        ),
{
    append_bytes(buf, file_name.as_slice());
    if dirty {
        append_text(buf, MODIFIED);
    }
    append_text(buf, ": (cx");
    append_decimal(buf, cursor.x);
    append_text(buf, ", cy");
    append_decimal(buf, cursor.y);
    append_text(buf, "): (rcx");
    append_decimal(buf, render_cursor.x);
    append_text(buf, ", rcy");
    append_decimal(buf, render_cursor.y);
    append_text(buf, "): lc:");
    append_decimal(buf, line_count);
    assert(buf@ =~= old(buf)@ + status_text(
        file_name@,
        dirty,
        cursor@,
        render_cursor@,
        line_count as nat,
    ));
}

/// Adds `text` to `buf`, and after it the blanks that fill it up to `width`
/// bytes.
pub fn draw_padded(buf: &mut Vec<u8>, text: &Vec<u8>, width: usize)
    ensures
        final(buf)@ == old(buf)@ + padded(text@, width as int),
{
    append_bytes(buf, text.as_slice());
    let ghost with_text = buf@;
    let padding: usize = if text.len() < width { width - text.len() } else { 0 };
    append_blanks(buf, padding);
    assert(blanks(padding as int) == blanks(width - text@.len()));
    assert(buf@ == with_text + blanks(width - text@.len()));
    assert(buf@ =~= old(buf)@ + (text@ + blanks(width - text@.len())));
}

/// Adds to `buf` the status bar and, under it, the status message.
pub fn draw_status_area(
    buf: &mut Vec<u8>,
    file_name: &Vec<u8>,
    dirty: bool,
    cursor: Position,
    render_cursor: Position,
    line_count: usize,
    width: usize,
    status: &Vec<u8>,
)
    ensures
        final(buf)@ == old(buf)@ + status_area(
            status_text(file_name@, dirty, cursor@, render_cursor@, line_count as nat),
            width as int,
            status@,
        ),
{
    let mut text: Vec<u8> = Vec::new();
    draw_status_text(&mut text, file_name, dirty, cursor, render_cursor, line_count);
    assert(text@ =~= status_text(file_name@, dirty, cursor@, render_cursor@, line_count as nat));
    let ghost start = buf@;
    let ghost colour = Csi::BackgroundColor(STATUS_COLOR).bytes();
    let ghost bar = colour + padded(text@, width as int);
    let ghost closed = bar + Csi::ResetStyle.bytes();
    let ghost broken = closed + LINE_BREAK.spec_bytes();
    let ghost cleared = broken + Csi::ClearLine.bytes();
    Csi::BackgroundColor(STATUS_COLOR).write_to(buf);
    assert(buf@ == start + colour);
    draw_padded(buf, &text, width);
    assert(buf@ =~= start + bar);
    Csi::ResetStyle.write_to(buf);
    assert(buf@ =~= start + closed);
    append_text(buf, LINE_BREAK);
    assert(buf@ =~= start + broken);
    Csi::ClearLine.write_to(buf);
    assert(buf@ =~= start + cleared);
    append_bytes(buf, status.as_slice());
    assert(buf@ =~= start + (cleared + status@));
}

} // verus!
