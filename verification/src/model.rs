use vstd::prelude::*;
use vstd::string::*;
use crate::key::{EditorKey, KeyAction, PromptStep, PROMPT_ACCEPT, PROMPT_CANCEL, PROMPT_ERASE, QUIT, SAVE};
use crate::position::Point;
use crate::row::{left_of, render_column, right_of, with_deleted, with_inserted};

verus! {

/// The file name of a buffer that has none yet.
pub const NO_NAME: &'static str = "[NO NAME]";

/// The prompt that asks for a file name.
pub const SAVE_PROMPT: &'static str = "Save as: ";

/// The status line after a quit command that was held back.
pub const UNSAVED_WARNING: &'static str =
    "WARNING!! File has unsaved changes. Press Ctrl-Q again to quit.";

/// The status line after the file was written.
pub const WRITTEN: &'static str = "Written to disk";

/// The status line after the file name prompt was left.
pub const CANCELED: &'static str = "user canceled";

/// What an editor is, as far as contracts are concerned.
pub struct EditorView {
    /// The document: one sequence of bytes per line, without newlines.
    pub lines: Seq<Seq<u8>>,
    /// The cursor: `x` a column of characters, `y` a line.
    pub cursor: Point,
    /// The cursor as it is drawn: `x` a column of the rendered line.
    pub render_cursor: Point,
    /// The rendered column and the line in the window's upper left corner.
    pub offset: Point,
    /// Columns and rows of the part of the terminal that shows text.
    pub window: Point,
    /// The message under the status bar.
    pub status: Seq<u8>,
    /// The name of the file that the document belongs to.
    pub file_name: Seq<u8>,
    /// Whether the document was edited since it was loaded or saved.
    pub dirty: bool,
    /// Whether the last key that was taken down was the quit command.
    pub quit_armed: bool,
    /// Output that was drawn and not handed out yet.
    pub pending: Seq<u8>,
}

/// The smaller of two integers.
pub open spec fn least(a: int, b: int) -> int {
    if a <= b {
        a
    } else {
        b
    }
}

/// The new scroll offset along one axis: the old one, moved as little as it
/// takes to have `position` inside `[offset, offset + extent)`.
pub open spec fn scroll_axis(offset: int, position: int, extent: int) -> int {
    let low = least(offset, position);
    if position >= low + extent {
        position - extent + 1
    } else {
        low
    }
}

/// The prompt's input after `byte`: the erase byte takes the last byte away,
/// a printable ASCII byte is added, any other byte changes nothing.
pub open spec fn prompt_input(input: Seq<u8>, byte: u8) -> Seq<u8> {
    if byte == PROMPT_ACCEPT || byte == PROMPT_CANCEL {
        input
    } else if byte == PROMPT_ERASE {
        if input.len() > 0 {
            input.drop_last()
        } else {
            input
        }
    } else if 32 <= byte <= 126 {
        input.push(byte)
    } else {
        input
    }
}

/// Where the prompt stands after `byte`.
pub open spec fn prompt_step(byte: u8) -> PromptStep {
    if byte == PROMPT_ACCEPT {
        PromptStep::Accepted
    } else if byte == PROMPT_CANCEL {
        PromptStep::Canceled
    } else {
        PromptStep::Pending
    }
}

impl EditorView {
    /// Length of line `y`; zero for the line past the last one.
    pub open spec fn line_len(self, y: int) -> int {
        if 0 <= y < self.lines.len() {
            self.lines[y].len() as int
        } else {
            0
        }
    }

    /// The cursor stands on a line of the document, not past the last one.
    pub open spec fn on_line(self) -> bool {
        0 <= self.cursor.y < self.lines.len()
    }

    /// The cursor is on a line or just past the last one, and on a column of
    /// that line or just past its end; the window has room for a cell.
    pub open spec fn valid(self) -> bool {
        &&& 0 <= self.cursor.y <= self.lines.len()
        &&& 0 <= self.cursor.x <= self.line_len(self.cursor.y)
        &&& 0 <= self.render_cursor.x
        &&& 0 <= self.render_cursor.y
        &&& 0 <= self.offset.x
        &&& 0 <= self.offset.y
        &&& 1 <= self.window.x
        &&& 1 <= self.window.y
    }

    /// The same editor with the cursor at `(x, y)`.
    pub open spec fn with_cursor(self, x: int, y: int) -> EditorView {
        EditorView { cursor: Point { x, y }, ..self }
    }

    /// The same editor with the cursor on line `y`, in its old column or, if
    /// the line is too short for that, at the line's end.
    pub open spec fn cursor_on(self, y: int) -> EditorView {
        self.with_cursor(least(self.cursor.x, self.line_len(y)), y)
    }

    /// The editor after an arrow key; any other key moves nothing. Left at
    /// the start of a line goes to the end of the line above. Right at the
    /// end of a line goes to the start of the line below, and from the end of
    /// the last line to the line past it, where it stays. Up and Down keep
    /// the column as far as the new line reaches; Down stops on the last
    /// line.
    pub open spec fn moved(self, key: EditorKey) -> EditorView {
        let x = self.cursor.x;
        let y = self.cursor.y;
        match key {
            EditorKey::ArrowLeft => if x > 0 {
                self.with_cursor(x - 1, y)
            } else if y > 0 {
                self.with_cursor(self.line_len(y - 1), y - 1)
            } else {
                self
            },
            EditorKey::ArrowRight => if x < self.line_len(y) {
                self.with_cursor(x + 1, y)
            } else if y < self.lines.len() {
                self.with_cursor(0, y + 1)
            } else {
                self
            },
            EditorKey::ArrowUp => if y > 0 {
                self.cursor_on(y - 1)
            } else {
                self
            },
            EditorKey::ArrowDown => if y + 1 < self.lines.len() {
                self.cursor_on(y + 1)
            } else {
                self
            },
            _ => self,
        }
    }

    /// The rendered column of the cursor; zero past the last line.
    pub open spec fn cursor_render_x(self) -> int {
        if self.on_line() {
            render_column(self.lines[self.cursor.y], self.cursor.x) as int
        } else {
            0
        }
    }

    /// The editor after scrolling: the drawn cursor is where the cursor is,
    /// and the offset has moved as little as it takes to show it.
    pub open spec fn scrolled(self) -> EditorView {
        let render_x = self.cursor_render_x();
        EditorView {
            render_cursor: Point { x: render_x, y: self.cursor.y },
            offset: Point {
                x: scroll_axis(self.offset.x, render_x, self.window.x),
                y: scroll_axis(self.offset.y, self.cursor.y, self.window.y),
            },
            ..self
        }
    }

    /// The drawn cursor is inside the window.
    pub open spec fn cursor_visible(self) -> bool {
        &&& self.offset.x <= self.render_cursor.x < self.offset.x + self.window.x
        &&& self.offset.y <= self.render_cursor.y < self.offset.y + self.window.y
    }

    /// The editor after `byte` was typed: it stands where the cursor was, the
    /// cursor and the drawn cursor are one column further right (the drawn
    /// cursor stops at the last column that a `usize` can count). Past the
    /// last line there is nothing to type into.
    pub open spec fn with_char(self, byte: u8) -> EditorView {
        if self.on_line() {
            let y = self.cursor.y;
            EditorView {
                lines: self.lines.update(y, with_inserted(self.lines[y], byte, self.cursor.x)),
                cursor: Point { x: self.cursor.x + 1, y },
                render_cursor: Point {
                    x: least(self.render_cursor.x + 1, usize::MAX as int),
                    y: self.render_cursor.y,
                },
                dirty: true,
                ..self
            }
        } else {
            self
        }
    }

    /// The editor after Enter: the line is cut at the cursor, what stood
    /// right of it is a new line below, and the cursor is at that line's
    /// start. Past the last line there is nothing to cut.
    pub open spec fn with_newline(self) -> EditorView {
        if self.on_line() {
            let y = self.cursor.y;
            let line = self.lines[y];
            EditorView {
                lines: self.lines.update(y, left_of(line, self.cursor.x)).insert(
                    y + 1,
                    right_of(line, self.cursor.x),
                ),
                cursor: Point { x: 0, y: y + 1 },
                dirty: true,
                ..self
            }
        } else {
            self
        }
    }

    /// The editor after Backspace. Inside a line the byte left of the cursor
    /// goes, and the drawn cursor follows the cursor. At the start of a line
    /// but the first, the line is joined to the end of the one above, and the
    /// cursor stands where the two meet. At the start of the first line, and
    /// past the last line, nothing happens.
    pub open spec fn with_backspace(self) -> EditorView {
        let x = self.cursor.x;
        let y = self.cursor.y;
        if !self.on_line() {
            self
        } else if x >= 1 {
            let line = with_deleted(self.lines[y], x - 1);
            EditorView {
                lines: self.lines.update(y, line),
                cursor: Point { x: x - 1, y },
                render_cursor: Point {
                    x: render_column(line, x - 1) as int,
                    y: self.render_cursor.y,
                },
                dirty: true,
                ..self
            }
        } else if y == 0 {
            self
        } else {
            EditorView {
                lines: self.lines.update(y - 1, self.lines[y - 1] + self.lines[y]).remove(y),
                cursor: Point { x: self.lines[y - 1].len() as int, y: y - 1 },
                dirty: true,
                ..self
            }
        }
    }

    /// The editor after Page Up: the cursor is on the window's first line.
    pub open spec fn paged_up(self) -> EditorView {
        self.cursor_on(least(self.offset.y, self.lines.len() as int))
    }

    /// The editor after Page Down: the cursor is on the window's last line,
    /// or past the last line of a document that ends before it.
    pub open spec fn paged_down(self) -> EditorView {
        self.cursor_on(least(self.offset.y + self.window.y - 1, self.lines.len() as int))
    }

    /// The editor after End: the cursor is at the end of its line.
    pub open spec fn at_line_end(self) -> EditorView {
        self.with_cursor(self.line_len(self.cursor.y), self.cursor.y)
    }

    /// The same editor with `status` under the status bar.
    pub open spec fn with_status(self, status: Seq<u8>) -> EditorView {
        EditorView { status, ..self }
    }

    /// The same editor after `key` was taken down as the last key.
    pub open spec fn recorded(self, key: EditorKey) -> EditorView {
        EditorView { quit_armed: key == EditorKey::Ctrl(QUIT), ..self }
    }

    /// The document has no file name yet.
    pub open spec fn unnamed(self) -> bool {
        self.file_name == NO_NAME.spec_bytes()
    }

    /// A quit command would be held back: there are changes, and the last key
    /// was not the quit command.
    pub open spec fn holds_quit(self) -> bool {
        self.dirty && !self.quit_armed
    }

    /// The editor after `key` went through the dispatch.
    pub open spec fn keypress(self, key: EditorKey) -> EditorView {
        match key {
            EditorKey::Null => self,
            EditorKey::Enter => self.with_newline().recorded(key),
            EditorKey::Char(byte) => self.with_char(byte).recorded(key),
            EditorKey::BackSpace => self.with_backspace().recorded(key),
            EditorKey::PageUp => self.paged_up().recorded(key),
            EditorKey::PageDown => self.paged_down().recorded(key),
            EditorKey::End => self.at_line_end().recorded(key),
            EditorKey::Ctrl(letter) => if letter == QUIT && self.holds_quit() {
                self.with_status(UNSAVED_WARNING.spec_bytes()).recorded(key)
            } else if letter == SAVE && self.unnamed() {
                self.with_status(SAVE_PROMPT.spec_bytes()).recorded(key)
            } else {
                self.recorded(key)
            },
            _ => self.recorded(key),
        }
    }

    /// What the dispatch asks its caller to do after `key`.
    pub open spec fn key_action(self, key: EditorKey) -> KeyAction {
        match key {
            EditorKey::Ctrl(letter) => if letter == QUIT {
                if self.holds_quit() {
                    KeyAction::Continue
                } else {
                    KeyAction::Exit
                }
            } else if letter == SAVE {
                if self.unnamed() {
                    KeyAction::PromptFileName
                } else {
                    KeyAction::WriteFile
                }
            } else {
                KeyAction::Continue
            },
            _ => KeyAction::Continue,
        }
    }

    /// The editor after the file name prompt, which held `input`, got `byte`:
    /// accepting makes the input the file name, leaving says so in the status
    /// line, anything else shows the prompt with its new input.
    pub open spec fn prompted(self, input: Seq<u8>, byte: u8) -> EditorView {
        if byte == PROMPT_ACCEPT {
            EditorView { file_name: input, ..self }
        } else if byte == PROMPT_CANCEL {
            self.with_status(CANCELED.spec_bytes())
        } else {
            self.with_status(SAVE_PROMPT.spec_bytes() + prompt_input(input, byte))
        }
    }

    /// The editor after its document was written to the file.
    pub open spec fn saved(self) -> EditorView {
        EditorView { dirty: false, status: WRITTEN.spec_bytes(), ..self }
    }
}

/// An arrow key changes nothing but the cursor, and leaves it on a line or
/// just past the last one, and on a column of that line or just past its end.
pub proof fn lemma_moved_valid(v: EditorView, key: EditorKey)
    requires
        v.valid(),
    ensures
        v.moved(key).valid(),
        v.moved(key) == v.with_cursor(v.moved(key).cursor.x, v.moved(key).cursor.y),
{
}

/// Every key of the dispatch leaves the cursor on a line or just past the
/// last one, and on a column of that line or just past its end.
pub proof fn lemma_keypress_valid(v: EditorView, key: EditorKey)
    requires
        v.valid(),
    ensures
        v.keypress(key).valid(),
{
    match key {
        EditorKey::Enter => {
            lemma_with_newline_valid(v);
        },
        EditorKey::Char(byte) => {
            lemma_with_char_valid(v, byte);
        },
        EditorKey::BackSpace => {
            lemma_with_backspace_valid(v);
        },
        _ => {},
    }
}

/// Typing a byte keeps the cursor inside its line.
pub proof fn lemma_with_char_valid(v: EditorView, byte: u8)
    requires
        v.valid(),
    ensures
        v.with_char(byte).valid(),
{
}

/// Enter keeps the cursor inside the document.
pub proof fn lemma_with_newline_valid(v: EditorView)
    requires
        v.valid(),
    ensures
        v.with_newline().valid(),
{
}

/// Backspace keeps the cursor inside the document.
pub proof fn lemma_with_backspace_valid(v: EditorView)
    requires
        v.valid(),
    ensures
        v.with_backspace().valid(),
{
}

/// After scrolling the drawn cursor is inside the window, whatever the offset
/// was before.
pub proof fn lemma_scrolled_visible(v: EditorView)
    requires
        v.valid(),
    ensures
        v.scrolled().valid(),
        v.scrolled().cursor_visible(),
        v.scrolled().render_cursor.y == v.cursor.y,
        v.scrolled().render_cursor.x == v.cursor_render_x(),
{
}

/// Scrolling after any run of arrow keys shows the cursor.
pub proof fn lemma_moves_then_scroll_visible(v: EditorView, keys: Seq<EditorKey>)
    requires
        v.valid(),
    ensures
        after_moves(v, keys).valid(),
        after_moves(v, keys).scrolled().cursor_visible(),
    decreases keys.len(),
{
    if keys.len() > 0 {
        lemma_moves_then_scroll_visible(v, keys.drop_last());
        lemma_moved_valid(after_moves(v, keys.drop_last()), keys.last());
    }
    lemma_scrolled_visible(after_moves(v, keys));
}

/// The editor after the arrow keys of `keys`, one after another.
pub open spec fn after_moves(v: EditorView, keys: Seq<EditorKey>) -> EditorView
    decreases keys.len(),
{
    if keys.len() == 0 {
        v
    } else {
        after_moves(v, keys.drop_last()).moved(keys.last())
    }
}

} // verus!
