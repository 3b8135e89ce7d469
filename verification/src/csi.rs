use vstd::prelude::*;
use vstd::string::*;
use crate::text::{append_decimal, append_text, decimal};

verus! {

/// The control sequences that a frame is built from.
#[derive(Clone, Copy, Debug)]
pub enum Csi {
    /// Hide the terminal's cursor.
    HideCursor,
    /// Show the terminal's cursor.
    ShowCursor,
    /// Move the cursor to the first column of the first row.
    CursorToTopLeft,
    /// Move the cursor to a row and a column, both counted from one.
    CursorTo(usize, usize),
    /// Clear the line from the cursor to its end.
    ClearLine,
    /// Set the background to one of the 256 palette colours.
    BackgroundColor(u8),
    /// Back to the terminal's default style.
    ResetStyle,
}

/// The sequence that puts the cursor on `row` and `column`, both counted from
/// one.
pub open spec fn cursor_to(row: nat, column: nat) -> Seq<u8> {
    "\x1b[".spec_bytes() + decimal(row) + ";".spec_bytes() + decimal(column) + "H".spec_bytes()
}

impl Csi {
    /// The bytes that the terminal is sent for this sequence.
    pub open spec fn bytes(self) -> Seq<u8> {
        match self {
            Csi::HideCursor => "\x1b[?25l".spec_bytes(),
            Csi::ShowCursor => "\x1b[?25h".spec_bytes(),
            Csi::CursorToTopLeft => "\x1b[H".spec_bytes(),
            Csi::CursorTo(row, column) => cursor_to(row as nat, column as nat),
            Csi::ClearLine => "\x1b[K".spec_bytes(),
            Csi::BackgroundColor(color) => "\x1b[48;5;".spec_bytes() + decimal(color as nat)
                + "m".spec_bytes(),
            Csi::ResetStyle => "\x1b[m".spec_bytes(),
        }
    }

    /// Adds the sequence's bytes to the end of `buf`.
    pub fn write_to(&self, buf: &mut Vec<u8>)
        ensures
            final(buf)@ == old(buf)@ + self.bytes(),
    {
        match *self {
            Csi::HideCursor => append_text(buf, "\x1b[?25l"),
            Csi::ShowCursor => append_text(buf, "\x1b[?25h"),
            Csi::CursorToTopLeft => append_text(buf, "\x1b[H"),
            Csi::CursorTo(row, column) => {
                append_text(buf, "\x1b[");
                append_decimal(buf, row);
                append_text(buf, ";");
                append_decimal(buf, column);
                append_text(buf, "H");
                assert(buf@ =~= old(buf)@ + self.bytes());
            },
            Csi::ClearLine => append_text(buf, "\x1b[K"),
            Csi::BackgroundColor(color) => {
                append_text(buf, "\x1b[48;5;");
                append_decimal(buf, color as usize);
                append_text(buf, "m");
                assert(buf@ =~= old(buf)@ + self.bytes());
            },
            Csi::ResetStyle => append_text(buf, "\x1b[m"),
        }
    }

    /// The sequence's bytes.
    pub fn to_bytes(&self) -> (out: Vec<u8>)
        ensures
            out@ == self.bytes(),
    {
        let mut out: Vec<u8> = Vec::new();
        self.write_to(&mut out);
        assert(out@ =~= self.bytes());
        out
    }
}

} // verus!
