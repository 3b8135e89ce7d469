use vstd::prelude::*;

verus! {

/// Distance between two tab stops, in render columns.
pub const TAB_STOP: usize = 8;

/// The tab character.
pub const TAB: u8 = 9;

/// The blank that a tab is drawn with.
pub const BLANK: u8 = 32;

/// What one byte is drawn as when it starts at render column `column`: a tab
/// becomes the blanks that reach the next tab stop, any other byte is itself.
pub open spec fn cell(column: nat, byte: u8) -> Seq<u8> {
    if byte == TAB {
        Seq::new((TAB_STOP - column % (TAB_STOP as nat)) as nat, |i: int| BLANK)
    } else {
        seq![byte]
    }
}

/// The rendered form of a line: its bytes drawn one after another, each
/// starting at the column where the one before it ended.
pub open spec fn expand(chars: Seq<u8>) -> Seq<u8>
    decreases chars.len(),
{
    if chars.len() == 0 {
        Seq::empty()
    } else {
        let before = expand(chars.drop_last());
        before + cell(before.len(), chars.last())
    }
}

/// A column brought into `[0, len]`.
pub open spec fn clamp_column(len: nat, at: int) -> int {
    if at < 0 {
        0
    } else if at > len {
        len as int
    } else {
        at
    }
}

/// The render column at which the byte at character column `char_x` starts
/// (the width of the whole line for a column at or past its end).
pub open spec fn render_column(chars: Seq<u8>, char_x: int) -> nat {
    expand(chars.take(clamp_column(chars.len(), char_x))).len()
}

/// `chars` with `byte` put in at column `at`, brought into `[0, len]`.
pub open spec fn with_inserted(chars: Seq<u8>, byte: u8, at: int) -> Seq<u8> {
    chars.insert(clamp_column(chars.len(), at), byte)
}

/// `chars` without the byte at column `at`; unchanged when there is none.
pub open spec fn with_deleted(chars: Seq<u8>, at: int) -> Seq<u8> {
    if 0 <= at < chars.len() {
        chars.remove(at)
    } else {
        chars
    }
}

/// What stays in a row that is split at column `at`.
pub open spec fn left_of(chars: Seq<u8>, at: int) -> Seq<u8> {
    chars.take(clamp_column(chars.len(), at))
}

/// What a row that is split at column `at` hands to the new row.
pub open spec fn right_of(chars: Seq<u8>, at: int) -> Seq<u8> {
    chars.skip(clamp_column(chars.len(), at))
}

/// Every byte is drawn as at least one and at most `TAB_STOP` columns.
pub proof fn lemma_cell_len(column: nat, byte: u8)
    ensures
        1 <= cell(column, byte).len() <= TAB_STOP,
        byte != TAB ==> cell(column, byte).len() == 1,
        byte == TAB ==> cell(column, byte).len() == TAB_STOP - column % (TAB_STOP as nat),
{
}

/// Drawing one more byte of a line only adds columns on the right.
pub proof fn lemma_expand_step(chars: Seq<u8>, i: int)
    requires
        0 <= i < chars.len(),
    ensures
        expand(chars.take(i + 1)) == expand(chars.take(i)) + cell(
            expand(chars.take(i)).len(),
            chars[i],
        ),
{
    let longer = chars.take(i + 1);
    assert(longer.drop_last() =~= chars.take(i));
    assert(longer.last() == chars[i]);
}

/// The render column grows with the character column, and never passes the
/// width of the rendered line.
pub proof fn lemma_render_column_monotonic(chars: Seq<u8>, i: int, j: int)
    requires
        i <= j,
    ensures
        render_column(chars, i) <= render_column(chars, j),
        render_column(chars, j) <= expand(chars).len(),
        render_column(chars, chars.len() as int) == expand(chars).len(),
    decreases clamp_column(chars.len(), j),
{
    let len = chars.len();
    assert(chars.take(len as int) =~= chars);
    let cj = clamp_column(len, j);
    let ci = clamp_column(len, i);
    if ci < cj {
        lemma_expand_step(chars, cj - 1);
        lemma_render_column_monotonic(chars, i, cj - 1);
    }
    if cj < len {
        lemma_expand_step(chars, cj);
        lemma_render_column_monotonic_up(chars, cj + 1);
    }
}

proof fn lemma_render_column_monotonic_up(chars: Seq<u8>, j: int)
    requires
        0 <= j <= chars.len(),
    ensures
        render_column(chars, j) <= expand(chars).len(),
    decreases chars.len() - j,
{
    assert(chars.take(chars.len() as int) =~= chars);
    if j < chars.len() {
        lemma_expand_step(chars, j);
        lemma_render_column_monotonic_up(chars, j + 1);
    }
}

/// One line of text: its bytes as typed, and the form in which it is drawn.
pub struct EditorRow {
    chars: Vec<u8>,
    render: Vec<u8>,
}

impl View for EditorRow {
    type V = Seq<u8>;

    /// The line's bytes, without a newline.
    closed spec fn view(&self) -> Seq<u8> {
        self.chars@
    }
}

impl EditorRow {
    /// The bytes that are drawn for this row.
    pub closed spec fn rendered(&self) -> Seq<u8> {
        self.render@
    }

    /// The rendered form is the one that the row's bytes call for.
    pub open spec fn wf(&self) -> bool {
        self.rendered() == expand(self@)
    }

    /// A row and its rendered form fit the machine's memory.
    pub proof fn lemma_fits(&self)
        ensures
            self@.len() <= usize::MAX,
            self.rendered().len() <= usize::MAX,
    {
        assert(self.chars.len() == self.chars@.len());
        assert(self.render.len() == self.render@.len());
    }

    /// A row that holds `chars`.
    pub fn new(chars: Vec<u8>) -> (row: EditorRow)
        ensures
            row@ == chars@,
            row.wf(),
    {
        let mut row = EditorRow { chars, render: Vec::new() };
        row.update();
        row
    }

    pub fn chars(&self) -> (chars: &Vec<u8>)
        ensures
            chars@ == self@,
    {
        &self.chars
    }

    pub fn render(&self) -> (render: &Vec<u8>)
        ensures
            render@ == self.rendered(),
    {
        &self.render
    }

    /// Number of bytes in the line.
    pub fn len(&self) -> (len: usize)
        ensures
            len == self@.len(),
    {
        self.chars.len()
    }

    /// Rebuilds the rendered form from the row's bytes.
    pub fn update(&mut self)
        ensures
            final(self)@ == old(self)@,
            final(self).wf(),
    {
        let mut render: Vec<u8> = Vec::new();
        let mut i: usize = 0;
        while i < self.chars.len()
            invariant
                i <= self.chars@.len(),
                self.chars@ == old(self).chars@,
                render@ == expand(self.chars@.take(i as int)),
            decreases self.chars@.len() - i,
        {
            let byte = self.chars[i];
            proof {
                lemma_expand_step(self.chars@, i as int);
            }
            if byte == TAB {
                let ghost before = render@;
                let blanks: usize = TAB_STOP - render.len() % TAB_STOP;
                let mut k: usize = 0;
                while k < blanks
                    invariant
                        k <= blanks,
                        render@ == before + Seq::new(k as nat, |j: int| BLANK),
                    decreases blanks - k,
                {
                    render.push(BLANK);
                    k += 1;
                }
            } else {
                render.push(byte);
            }
            i += 1;
        }
        assert(self.chars@.take(i as int) =~= self.chars@);
        self.render = render;
    }

    /// The render column of character column `char_x`. A column past the end
    /// of the line counts as the end.
    pub fn render_position(&self, char_x: usize) -> (render_x: usize)
        requires
            self.wf(),
        ensures
            render_x == render_column(self@, char_x as int),
            render_x <= self.rendered().len(),
    {
        let end: usize = if char_x < self.chars.len() { char_x } else { self.chars.len() };
        let mut render_x: usize = 0;
        let mut j: usize = 0;
        while j < end
            invariant
                j <= end <= self.chars@.len(),
                self.render@ == expand(self.chars@),
                render_x == render_column(self.chars@, j as int),
            decreases end - j,
        {
            proof {
                lemma_expand_step(self.chars@, j as int);
                lemma_cell_len(render_x as nat, self.chars@[j as int]);
                lemma_render_column_monotonic(self.chars@, j as int, j + 1);
                assert(render_column(self.chars@, j + 1) <= self.render.len());
            }
            if self.chars[j] == TAB {
                render_x += (TAB_STOP - 1) - (render_x % TAB_STOP);
            }
            render_x += 1;
            j += 1;
        }
        proof {
            lemma_render_column_monotonic(self.chars@, end as int, end as int);
        }
        render_x
    }

    /// Puts `byte` in at column `at`; a column past the end means the end.
    pub fn insert_char(&mut self, byte: u8, at: usize)
        ensures
            final(self)@ == with_inserted(old(self)@, byte, at as int),
            final(self).wf(),
    {
        let at: usize = if at < self.chars.len() { at } else { self.chars.len() };
        self.chars.insert(at, byte);
        self.update();
    }

    /// Takes out the byte at column `at`; does nothing when there is none.
    pub fn delete_char(&mut self, at: usize)
        ensures
            final(self)@ == with_deleted(old(self)@, at as int),
            final(self).wf(),
    {
        if at < self.chars.len() {
            self.chars.remove(at);
        }
        self.update();
    }

    /// Cuts the row at column `at` (a column past the end means the end):
    /// the row keeps what stood before it, the new row gets the rest.
    pub fn split(&mut self, at: usize) -> (rest: EditorRow)
        ensures
            final(self)@ == left_of(old(self)@, at as int),
            rest@ == right_of(old(self)@, at as int),
            final(self).wf(),
            rest.wf(),
    {
        let at: usize = if at < self.chars.len() { at } else { self.chars.len() };
        let tail = self.chars.split_off(at);
        self.update();
        EditorRow::new(tail)
    }

    /// Moves the bytes of `other` to the end of this row; `other` is left
    /// empty.
    pub fn append(&mut self, other: &mut EditorRow)
        ensures
            final(self)@ == old(self)@ + old(other)@,
            final(other)@ == Seq::<u8>::empty(),
            final(self).wf(),
            final(other).wf(),
    {
        self.chars.append(&mut other.chars);
        self.update();
        other.update();
    }
}

/// Putting a byte in at a column of the line and taking out the byte at that
/// column gives the line back.
pub proof fn lemma_insert_then_delete(chars: Seq<u8>, byte: u8, at: int)
    requires
        0 <= at <= chars.len(),
    ensures
        with_deleted(with_inserted(chars, byte, at), at) == chars,
{
    assert(chars.insert(at, byte).remove(at) =~= chars);
}

/// The two parts of a split, put together again, are the line that was split.
pub proof fn lemma_split_then_append(chars: Seq<u8>, at: int)
    ensures
        left_of(chars, at) + right_of(chars, at) == chars,
{
    let k = clamp_column(chars.len(), at);
    assert(chars.take(k) + chars.skip(k) =~= chars);
}

/// The lines that a sequence of rows holds.
pub open spec fn lines_of(rows: Seq<EditorRow>) -> Seq<Seq<u8>> {
    Seq::new(rows.len(), |i: int| rows[i]@)
}

/// Every row's rendered form is the one that its bytes call for.
pub open spec fn all_fresh(rows: Seq<EditorRow>) -> bool {
    forall|i: int| 0 <= i < rows.len() ==> (#[trigger] rows[i]).wf()
}

} // verus!
