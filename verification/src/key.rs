use vstd::prelude::*;

verus! {

/// One decoded keystroke.
#[derive(Clone, Copy, Debug, PartialEq, Eq, Structural)]
pub enum EditorKey {
    /// The Enter key.
    Enter,
    /// A byte to put into the text.
    Char(u8),
    /// The Backspace key.
    BackSpace,
    ArrowLeft,
    ArrowRight,
    ArrowUp,
    ArrowDown,
    PageUp,
    PageDown,
    /// The End key.
    End,
    /// Control held with the key of the given upper-case letter.
    Ctrl(u8),
    /// Input that stands for no key; it is ignored.
    Null,
}

/// The letter of the quit command.
pub const QUIT: u8 = 81;

/// The letter of the save command.
pub const SAVE: u8 = 83;

/// What the caller of the key dispatch has to do next.
#[derive(Clone, Copy, Debug, PartialEq, Eq, Structural)]
pub enum KeyAction {
    /// Nothing: go on with the next key.
    Continue,
    /// Leave the editor.
    Exit,
    /// Ask for a file name, byte by byte, then write the file.
    PromptFileName,
    /// Write the file under the name that the editor holds.
    WriteFile,
}

/// Where the file name prompt stands after a byte of input.
#[derive(Clone, Copy, Debug, PartialEq, Eq, Structural)]
pub enum PromptStep {
    /// The prompt goes on: redraw, then hand in the next byte.
    Pending,
    /// The name was taken: write the file.
    Accepted,
    /// The prompt was left; nothing is written.
    Canceled,
}

/// The byte that accepts the prompt's input.
pub const PROMPT_ACCEPT: u8 = 13;

/// The byte that removes the last byte of the prompt's input.
pub const PROMPT_ERASE: u8 = 8;

/// The byte that leaves the prompt.
pub const PROMPT_CANCEL: u8 = 27;

} // verus!
