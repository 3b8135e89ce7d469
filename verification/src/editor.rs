use vstd::prelude::*;
use vstd::string::*;
use vstd::utf8::encode_utf8;
use crate::csi::Csi;
use crate::document::{joined_lines, read_rows, split_lines, write_rows};
use crate::key::{EditorKey, KeyAction, PromptStep, PROMPT_ACCEPT, PROMPT_CANCEL, PROMPT_ERASE, QUIT, SAVE};
use crate::model::{
    prompt_input, prompt_step, scroll_axis, EditorView, CANCELED, NO_NAME, SAVE_PROMPT,
    UNSAVED_WARNING, WRITTEN,
};
use crate::position::{Point, Position};
use crate::row::{all_fresh, left_of, lines_of, right_of, EditorRow};
use crate::screen::{draw_lines, draw_status_area};
use crate::text::{append_bytes, same_bytes, text_bytes};

verus! {

/// The editor: a document, a cursor in it, and the window that shows it.
pub struct Editor {
    append_buffer: Vec<u8>,
    cursor_position: Position,
    render_cursor_position: Position,
    rows: Vec<EditorRow>,
    offset: Position,
    window_size: Position,
    status_message: Vec<u8>,
    current_file_name: Vec<u8>,
    is_dirty: bool,
    quit_armed: bool,
}

impl View for Editor {
    type V = EditorView;

    closed spec fn view(&self) -> EditorView {
        EditorView {
            lines: lines_of(self.rows@),
            cursor: self.cursor_position@,
            render_cursor: self.render_cursor_position@,
            offset: self.offset@,
            window: self.window_size@,
            status: self.status_message@,
            file_name: self.current_file_name@,
            dirty: self.is_dirty,
            quit_armed: self.quit_armed,
            pending: self.append_buffer@,
        }
    }
}

/// The new scroll offset along one axis.
fn scroll_to(offset: usize, position: usize, extent: usize) -> (scrolled: usize)
    requires
        extent >= 1,
    ensures
        scrolled == scroll_axis(offset as int, position as int, extent as int),
{
    let low: usize = if position < offset { position } else { offset };
    if position - low >= extent {
        position - extent + 1
    } else {
        low
    }
}

impl Editor {
    /// Every row's rendered form is the one that its bytes call for.
    pub closed spec fn rows_fresh(&self) -> bool {
        all_fresh(self.rows@)
    }

    /// The rows are ready to be drawn, the cursor is inside the document and
    /// the window has room for a cell.
    pub open spec fn wf(&self) -> bool {
        self.rows_fresh() && self@.valid()
    }

    /// An editor without a document, for a terminal of `columns` columns and
    /// `rows` rows, of which the last two are kept for the status bar and the
    /// status message.
    pub fn new(columns: usize, rows: usize) -> (editor: Editor)
        requires
            columns >= 1,
            rows >= 3,
        ensures
            editor.wf(),
            editor@ == (EditorView {
                lines: Seq::empty(),
                cursor: Point { x: 0, y: 0 },
                render_cursor: Point { x: 0, y: 0 },
                offset: Point { x: 0, y: 0 },
                window: Point { x: columns as int, y: rows - 2 },
                status: Seq::empty(),
                file_name: NO_NAME.spec_bytes(),
                dirty: false,
                quit_armed: false,
                pending: Seq::empty(),
            }),
    {
        let editor = Editor {
            append_buffer: Vec::new(),
            cursor_position: Position::new(0, 0),
            render_cursor_position: Position::new(0, 0),
            rows: Vec::new(),
            offset: Position::new(0, 0),
            window_size: Position::new(columns, rows - 2),
            status_message: Vec::new(),
            current_file_name: text_bytes(NO_NAME),
            is_dirty: false,
            quit_armed: false,
        };
        assert(editor@.lines =~= Seq::<Seq<u8>>::empty());
        editor
    }

    pub fn rows(&self) -> (rows: &Vec<EditorRow>)
        ensures
            lines_of(rows@) == self@.lines,
            self.wf() ==> all_fresh(rows@),
    {
        &self.rows
    }

    pub fn cursor_position(&self) -> (cursor: Position)
        ensures
            cursor@ == self@.cursor,
    {
        self.cursor_position
    }

    pub fn render_cursor_position(&self) -> (cursor: Position)
        ensures
            cursor@ == self@.render_cursor,
    {
        self.render_cursor_position
    }

    pub fn offset(&self) -> (offset: Position)
        ensures
            offset@ == self@.offset,
    {
        self.offset
    }

    pub fn window_size(&self) -> (size: Position)
        ensures
            size@ == self@.window,
    {
        self.window_size
    }

    pub fn status_message(&self) -> (status: &Vec<u8>)
        ensures
            status@ == self@.status,
    {
        &self.status_message
    }

    pub fn current_file_name(&self) -> (name: &Vec<u8>)
        ensures
            name@ == self@.file_name,
    {
        &self.current_file_name
    }

    pub fn is_dirty(&self) -> (dirty: bool)
        ensures
            dirty == self@.dirty,
    {
        self.is_dirty
    }

    /// Takes the lines of a file's bytes into the document, after the lines
    /// that it holds, and the file's name with them. The document counts as
    /// unchanged afterwards.
    pub fn open_file(&mut self, filename: &String, contents: &[u8])
        requires
            old(self).wf(),
        ensures
            final(self).wf(),
            final(self)@ == (EditorView {
                lines: old(self)@.lines + split_lines(contents@),
                file_name: encode_utf8(filename@),
                dirty: false,
                ..old(self)@
            }),
    {
        self.current_file_name = text_bytes(filename.as_str());
        let mut loaded = read_rows(contents);
        let ghost before = self.rows@;
        let ghost added = loaded@;
        self.rows.append(&mut loaded);
        self.is_dirty = false;
        proof {
            assert(self.rows@ == before + added);
            assert(lines_of(self.rows@) =~= lines_of(before) + lines_of(added));
        }
    }

    /// Starts an empty document: the buffer, which holds no row yet, gets one
    /// empty row, so that there is a line to type into. Nothing was edited
    /// yet, so the document counts as unchanged.
    pub fn open_empty(&mut self)
        requires
            old(self).wf(),
            old(self)@.lines.len() == 0,
        ensures
            final(self).wf(),
            final(self)@ == (EditorView {
                lines: seq![Seq::<u8>::empty()],
                dirty: false,
                ..old(self)@
            }),
    {
        self.insert_row(0, EditorRow::new(Vec::new()));
        self.is_dirty = false;
        assert(self@.lines =~= seq![Seq::<u8>::empty()]);
    }

    /// The bytes of the document's file: each line followed by a newline.
    pub fn file_contents(&self) -> (bytes: Vec<u8>)
        ensures
            bytes@ == joined_lines(self@.lines),
    {
        write_rows(&self.rows)
    }

    /// One byte of input for the file name prompt, which holds `input`.
    /// The accept byte makes the input the document's file name. The cancel
    /// byte leaves the prompt and says so in the status message. The erase
    /// byte takes the input's last byte away, a printable ASCII byte is added
    /// to it, any other byte is passed over; after each of these the status
    /// message shows the prompt with the input.
    pub fn save_prompt(&mut self, input: &mut Vec<u8>, byte: u8) -> (step: PromptStep)
        requires
            old(self).wf(),
        ensures
            final(self).wf(),
            step == prompt_step(byte),
            final(input)@ == prompt_input(old(input)@, byte),
            final(self)@ == old(self)@.prompted(old(input)@, byte),
    {
        if byte == PROMPT_ACCEPT {
            let mut name: Vec<u8> = Vec::new();
            append_bytes(&mut name, input.as_slice());
            assert(name@ =~= input@);
            self.current_file_name = name;
            return PromptStep::Accepted;
        }
        if byte == PROMPT_CANCEL {
            self.status_message = text_bytes(CANCELED);
            return PromptStep::Canceled;
        }
        if byte == PROMPT_ERASE {
            input.pop();
        } else if 32 <= byte && byte <= 126 {
            input.push(byte);
        }
        assert(input@ =~= prompt_input(old(input)@, byte));
        let mut status = text_bytes(SAVE_PROMPT);
        append_bytes(&mut status, input.as_slice());
        self.status_message = status;
        PromptStep::Pending
    }

    /// Takes note of how writing the file went: after a success the document
    /// counts as unchanged and the status message says that it was written;
    /// after a failure the status message is the failure's text.
    pub fn finish_save(&mut self, outcome: Result<(), String>)
        requires
            old(self).wf(),
        ensures
            final(self).wf(),
            outcome is Ok ==> final(self)@ == old(self)@.saved(),
            outcome matches Err(reason) ==> final(self)@ == old(self)@.with_status(
                encode_utf8(reason@),
            ),
    {
        match outcome {
            Ok(_) => {
                self.is_dirty = false;
                self.status_message = text_bytes(WRITTEN);
            },
            Err(reason) => {
                self.status_message = text_bytes(reason.as_str());
            },
        }
    }

    /// Applies one key: an edit, a jump of the cursor, or the quit or save
    /// command. A quit command is held back once, with a warning in the
    /// status message, while the document has changes. The save command
    /// only says what is to be done: to write the file, or first to ask for
    /// its name, for which the status message then shows the prompt. Every
    /// key but `Null` is taken down as the last key.
    pub fn process_keypress(&mut self, key: &EditorKey) -> (action: KeyAction)
        requires
            old(self).wf(),
        ensures
            final(self).wf(),
            final(self)@ == old(self)@.keypress(*key),
            action == old(self)@.key_action(*key),
    {
        let mut action = KeyAction::Continue;
        match *key {
            EditorKey::Null => {
                return KeyAction::Continue;
            },
            EditorKey::Enter => self.insert_newline(),
            EditorKey::Char(byte) => self.insert_char(byte),
            EditorKey::BackSpace => self.backspace(),
            EditorKey::PageUp => {
                let top: usize = if self.offset.y < self.rows.len() {
                    self.offset.y
                } else {
                    self.rows.len()
                };
                self.place_cursor_on(top);
            },
            EditorKey::PageDown => {
                let count = self.rows.len();
                let bottom: usize = if self.offset.y < count && self.window_size.y - 1 < count
                    - self.offset.y {
                    self.offset.y + (self.window_size.y - 1)
                } else {
                    count
                };
                self.place_cursor_on(bottom);
            },
            EditorKey::End => {
                if self.cursor_position.y < self.rows.len() {
                    self.cursor_position.x = self.rows[self.cursor_position.y].len();
                }
            },
            EditorKey::Ctrl(letter) => {
                if letter == QUIT {
                    if self.is_dirty && !self.quit_armed {
                        self.status_message = text_bytes(UNSAVED_WARNING);
                    } else {
                        action = KeyAction::Exit;
                    }
                } else if letter == SAVE {
                    if same_bytes(self.current_file_name.as_slice(), NO_NAME.as_bytes()) {
                        self.status_message = text_bytes(SAVE_PROMPT);
                        action = KeyAction::PromptFileName;
                    } else {
                        action = KeyAction::WriteFile;
                    }
                }
            },
            _ => {},
        }
        self.quit_armed = *key == EditorKey::Ctrl(QUIT);
        action
    }

    /// Puts the cursor on line `y`, in its column or at the line's end.
    fn place_cursor_on(&mut self, y: usize)
        requires
            old(self).wf(),
            y <= old(self)@.lines.len(),
        ensures
            final(self).wf(),
            final(self)@ == old(self)@.cursor_on(y as int),
    {
        let limit: usize = if y < self.rows.len() { self.rows[y].len() } else { 0 };
        if self.cursor_position.x > limit {
            self.cursor_position.x = limit;
        }
        self.cursor_position.y = y;
    }

    /// Moves the cursor by an arrow key; any other key moves nothing. Left
    /// at the start of a line goes to the end of the line above, Right at
    /// the end of a line to the start of the line below, which for the last
    /// line is the line past it. Up and Down keep the column as far as the
    /// new line reaches. The cursor goes no further than the line past the
    /// last one, and in a line no further than its end.
    pub fn move_cursor(&mut self, key: &EditorKey)
        requires
            old(self).wf(),
        ensures
            final(self).wf(),
            final(self)@ == old(self)@.moved(*key),
    {
        let x = self.cursor_position.x;
        let y = self.cursor_position.y;
        let count = self.rows.len();
        match *key {
            EditorKey::ArrowLeft => {
                if x > 0 {
                    self.cursor_position = self.cursor_position.saturating_sub(
                        Position::new(1, 0),
                    );
                } else if y > 0 {
                    self.cursor_position = Position::new(self.rows[y - 1].len(), y - 1);
                }
            },
            EditorKey::ArrowRight => {
                let limit: usize = if y < count { self.rows[y].len() } else { 0 };
                if x < limit {
                    self.cursor_position.x = x + 1;
                } else if y < count {
                    self.cursor_position = Position::new(0, y + 1);
                }
            },
            EditorKey::ArrowUp => {
                if y > 0 {
                    self.place_cursor_on(y - 1);
                }
            },
            EditorKey::ArrowDown => {
                if y < count && y + 1 < count {
                    self.place_cursor_on(y + 1);
                }
            },
            _ => {},
        }
    }

    /// Draws one frame: scrolls so that the cursor shows, draws the window's
    /// rows, the status bar and the status message, and puts the terminal's
    /// cursor in its place. The frame comes after whatever was drawn and not
    /// handed out before; nothing of it is kept.
    pub fn refresh_screen(&mut self) -> (frame: Vec<u8>)
        requires
            old(self).wf(),
        ensures
            final(self).wf(),
            final(self)@ == (EditorView { pending: Seq::empty(), ..old(self)@.scrolled() }),
            final(self)@.cursor_visible(),
            frame@ == old(self)@.pending + old(self)@.scrolled().frame(),
    {
        self.scroll();
        let ghost shown = self@;
        Csi::HideCursor.write_to(&mut self.append_buffer);
        Csi::CursorToTopLeft.write_to(&mut self.append_buffer);
        let ghost head = self.append_buffer@;
        assert(self@ == (EditorView { pending: head, ..shown }));
        self.draw_rows();
        self.draw_status_bar();
        let ghost body = self.append_buffer@;
        assert(body == head + shown.text_area() + shown.status_area());
        let row: usize = self.cursor_position.y - self.offset.y + 1;
        let column: usize = self.render_cursor_position.x - self.offset.x + 1;
        Csi::CursorTo(row, column).write_to(&mut self.append_buffer);
        Csi::ShowCursor.write_to(&mut self.append_buffer);
        let mut frame: Vec<u8> = Vec::new();
        frame.append(&mut self.append_buffer);
        assert(frame@ =~= Seq::<u8>::empty() + (body + shown.cursor_area()
            + Csi::ShowCursor.bytes()));
        assert(frame@ =~= shown.pending + shown.frame());
        frame
    }

    /// Draws the rows of the window: of each the part of its line that the
    /// window shows, or below the document's end a placeholder.
    pub fn draw_rows(&mut self)
        requires
            old(self).wf(),
        ensures
            final(self).wf(),
            final(self)@ == (EditorView {
                pending: old(self)@.pending + old(self)@.text_area(),
                ..old(self)@
            }),
    {
        draw_lines(&mut self.append_buffer, &self.rows, self.offset, self.window_size);
    }

    /// Draws the status bar, filled up to the window's width, and under it
    /// the status message.
    pub fn draw_status_bar(&mut self)
        requires
            old(self).wf(),
        ensures
            final(self).wf(),
            final(self)@ == (EditorView {
                pending: old(self)@.pending + old(self)@.status_area(),
                ..old(self)@
            }),
    {
        draw_status_area(
            &mut self.append_buffer,
            &self.current_file_name,
            self.is_dirty,
            self.cursor_position,
            self.render_cursor_position,
            self.rows.len(),
            self.window_size.x,
            &self.status_message,
        );
    }

    /// Puts `message` under the status bar.
    pub fn set_status_message(&mut self, message: String)
        ensures
            final(self)@ == old(self)@.with_status(encode_utf8(message@)),
            old(self).wf() ==> final(self).wf(),
    {
        self.status_message = text_bytes(message.as_str());
    }

    /// Brings the drawn cursor to where the cursor is, and moves the window
    /// as little as it takes to show it.
    pub fn scroll(&mut self)
        requires
            old(self).wf(),
        ensures
            final(self).wf(),
            final(self)@ == old(self)@.scrolled(),
            final(self)@.cursor_visible(),
    {
        let cursor = self.cursor_position;
        let mut render_x: usize = 0;
        if cursor.y < self.rows.len() {
            render_x = self.rows[cursor.y].render_position(cursor.x);
        }
        self.render_cursor_position = Position::new(render_x, cursor.y);
        self.offset = Position::new(
            scroll_to(self.offset.x, render_x, self.window_size.x),
            scroll_to(self.offset.y, cursor.y, self.window_size.y),
        );
    }

    /// Puts `row` into the document as line `at`, ready to be drawn.
    fn insert_row(&mut self, at: usize, row: EditorRow)
        requires
            old(self).rows_fresh(),
            at <= old(self)@.lines.len(),
        ensures
            final(self).rows_fresh(),
            final(self)@ == (EditorView {
                lines: old(self)@.lines.insert(at as int, row@),
                dirty: true,
                ..old(self)@
            }),
    {
        let mut row = row;
        row.update();
        let ghost before = self.rows@;
        self.rows.insert(at, row);
        self.is_dirty = true;
        assert(lines_of(self.rows@) =~= lines_of(before).insert(at as int, row@));
    }

    /// Enter: cuts the cursor's line at the cursor and puts what stood right
    /// of it on a new line below, at whose start the cursor then stands.
    /// Does nothing when the cursor is past the last line.
    pub fn insert_newline(&mut self)
        requires
            old(self).wf(),
        ensures
            final(self).wf(),
            final(self)@ == old(self)@.with_newline(),
    {
        let x = self.cursor_position.x;
        let y = self.cursor_position.y;
        if y >= self.rows.len() {
            return ;
        }
        let ghost before = self.rows@;
        if x == self.rows[y].len() {
            proof {
                let line = before[y as int]@;
                assert(left_of(line, x as int) =~= line);
                assert(right_of(line, x as int) =~= Seq::<u8>::empty());
            }
            self.insert_row(y + 1, EditorRow::new(Vec::new()));
            assert(self@.lines =~= old(self)@.with_newline().lines);
        } else {
            let rest = self.rows[y].split(x);
            assert(lines_of(self.rows@) =~= lines_of(before).update(y as int, self.rows@[y as int]@));
            self.insert_row(y + 1, rest);
            assert(self@.lines =~= old(self)@.with_newline().lines);
        }
        self.cursor_position = Position::new(0, y + 1);
    }

    /// Puts `byte` into the cursor's line at the cursor, and moves the cursor
    /// and the drawn cursor one column to the right. Does nothing when the
    /// cursor is past the last line.
    pub fn insert_char(&mut self, byte: u8)
        requires
            old(self).wf(),
        ensures
            final(self).wf(),
            final(self)@ == old(self)@.with_char(byte),
    {
        let x = self.cursor_position.x;
        let y = self.cursor_position.y;
        if y >= self.rows.len() {
            return ;
        }
        let ghost before = self.rows@;
        self.rows[y].insert_char(byte, x);
        proof {
            assert(lines_of(self.rows@) =~= lines_of(before).update(
                y as int,
                self.rows@[y as int]@,
            ));
            self.rows@[y as int].lemma_fits();
        }
        self.cursor_position.x = x + 1;
        self.render_cursor_position = self.render_cursor_position.saturating_add(
            Position::new(1, 0),
        );
        self.is_dirty = true;
    }

    /// Backspace: takes out the byte left of the cursor, or at the start of a
    /// line joins the line to the one above. Does nothing at the start of
    /// the first line and past the last line.
    pub fn backspace(&mut self)
        requires
            old(self).wf(),
        ensures
            final(self).wf(),
            final(self)@ == old(self)@.with_backspace(),
    {
        let x = self.cursor_position.x;
        let y = self.cursor_position.y;
        if y >= self.rows.len() {
            return ;
        }
        let ghost before = self.rows@;
        if x >= 1 {
            self.rows[y].delete_char(x - 1);
            assert(lines_of(self.rows@) =~= lines_of(before).update(y as int, self.rows@[y as int]@));
            self.cursor_position.x = x - 1;
            self.render_cursor_position.x = self.rows[y].render_position(x - 1);
        } else {
            if y == 0 {
                return ;
            }
            let mut moved = self.rows.remove(y);
            let ghost shorter = self.rows@;
            self.cursor_position = Position::new(self.rows[y - 1].len(), y - 1);
            self.rows[y - 1].append(&mut moved);
            assert(lines_of(self.rows@) =~= lines_of(before).update(
                y - 1,
                before[y - 1]@ + before[y as int]@,
            ).remove(y as int));
        }
        self.is_dirty = true;
    }
}

} // verus!
