use vstd::prelude::*;
use crate::row::{all_fresh, lines_of, EditorRow};

verus! {

/// The byte that ends a line in a file.
pub const NEWLINE: u8 = 10;

/// The byte that may stand before the newline and is not part of the line.
pub const CARRIAGE_RETURN: u8 = 13;

/// Number of bytes before the first newline of `bytes`; all of them when
/// there is no newline.
pub open spec fn line_end(bytes: Seq<u8>) -> int
    decreases bytes.len(),
{
    if bytes.len() == 0 || bytes[0] == NEWLINE {
        0
    } else {
        1 + line_end(bytes.skip(1))
    }
}

/// `line` without the carriage return at its end, if it has one.
pub open spec fn without_carriage_return(line: Seq<u8>) -> Seq<u8> {
    if line.len() > 0 && line.last() == CARRIAGE_RETURN {
        line.drop_last()
    } else {
        line
    }
}

/// The lines of a file's bytes. Each newline ends a line; the newline, and a
/// carriage return just before it, are not part of the line. Bytes after the
/// last newline are a line of their own, as they stand; if there are none,
/// no line follows the last newline.
pub open spec fn split_lines(bytes: Seq<u8>) -> Seq<Seq<u8>>
    decreases bytes.len(),
{
    let end = line_end(bytes);
    if bytes.len() == 0 {
        Seq::empty()
    } else if 0 <= end < bytes.len() {
        seq![without_carriage_return(bytes.take(end))] + split_lines(bytes.skip(end + 1))
    } else {
        seq![bytes]
    }
}

/// The bytes of a file that holds `lines`: each line, the last one too, is
/// followed by one newline.
pub open spec fn joined_lines(lines: Seq<Seq<u8>>) -> Seq<u8>
    decreases lines.len(),
{
    if lines.len() == 0 {
        Seq::empty()
    } else {
        joined_lines(lines.drop_last()) + lines.last() + seq![NEWLINE]
    }
}

/// The first newline stands where no byte before it is one.
pub proof fn lemma_line_end(bytes: Seq<u8>, end: int)
    requires
        0 <= end <= bytes.len(),
        forall|i: int| 0 <= i < end ==> bytes[i] != NEWLINE,
        end < bytes.len() ==> bytes[end] == NEWLINE,
    ensures
        line_end(bytes) == end,
    decreases bytes.len(),
{
    if end > 0 {
        let rest = bytes.skip(1);
        assert forall|i: int| 0 <= i < end - 1 implies rest[i] != NEWLINE by {
            assert(rest[i] == bytes[i + 1]);
        }
        lemma_line_end(rest, end - 1);
    }
}

/// Reads the rows of a file from its bytes.
pub fn read_rows(bytes: &[u8]) -> (rows: Vec<EditorRow>)
    ensures
        lines_of(rows@) == split_lines(bytes@),
        all_fresh(rows@),
{
    let mut rows: Vec<EditorRow> = Vec::new();
    let mut start: usize = 0;
    let len = bytes.len();
    assert(bytes@.skip(0) =~= bytes@);
    assert(lines_of(rows@) =~= Seq::<Seq<u8>>::empty());
    while start < len
        invariant
            len == bytes@.len(),
            start <= len,
            all_fresh(rows@),
            lines_of(rows@) + split_lines(bytes@.skip(start as int)) == split_lines(bytes@),
        decreases len - start,
    {
        let ghost rest = bytes@.skip(start as int);
        let ghost before = rows@;
        let mut line: Vec<u8> = Vec::new();
        let mut end: usize = start;
        while end < len && bytes[end] != NEWLINE
            invariant
                len == bytes@.len(),
                start <= end <= len,
                line@ == bytes@.subrange(start as int, end as int),
                forall|i: int| start <= i < end ==> bytes@[i] != NEWLINE,
            decreases len - end,
        {
            line.push(bytes[end]);
            end += 1;
            assert(line@ =~= bytes@.subrange(start as int, end as int));
        }
        proof {
            lemma_line_end(rest, end - start);
            assert(line@ =~= rest.take(end - start));
        }
        if end < len {
            let n = line.len();
            if n > 0 && line[n - 1] == CARRIAGE_RETURN {
                line.pop();
            }
            assert(line@ =~= without_carriage_return(rest.take(end - start)));
            proof {
                assert(rest.skip(end - start + 1) =~= bytes@.skip(end + 1));
            }
            start = end + 1;
        } else {
            proof {
                assert(line@ =~= rest);
                assert(split_lines(bytes@.skip(len as int)) =~= Seq::<Seq<u8>>::empty());
            }
            start = end;
        }
        let row = EditorRow::new(line);
        rows.push(row);
        proof {
            assert(lines_of(rows@) =~= lines_of(before).push(row@));
            assert(split_lines(rest) =~= seq![row@] + split_lines(bytes@.skip(start as int)));
            assert(lines_of(rows@) + split_lines(bytes@.skip(start as int)) =~= lines_of(before)
                + split_lines(rest));
        }
    }
    assert(split_lines(bytes@.skip(start as int)) =~= Seq::<Seq<u8>>::empty());
    assert(lines_of(rows@) + Seq::<Seq<u8>>::empty() =~= lines_of(rows@));
    rows
}

/// Writes the rows of a document as the bytes of its file.
pub fn write_rows(rows: &Vec<EditorRow>) -> (bytes: Vec<u8>)
    ensures
        bytes@ == joined_lines(lines_of(rows@)),
{
    let mut bytes: Vec<u8> = Vec::new();
    let mut i: usize = 0;
    assert(lines_of(rows@).take(0) =~= Seq::<Seq<u8>>::empty());
    while i < rows.len()
        invariant
            i <= rows@.len(),
            bytes@ == joined_lines(lines_of(rows@).take(i as int)),
        decreases rows@.len() - i,
    {
        let ghost before = bytes@;
        crate::text::append_bytes(&mut bytes, rows[i].chars().as_slice());
        bytes.push(NEWLINE);
        proof {
            let lines = lines_of(rows@);
            assert(lines.take(i + 1).drop_last() =~= lines.take(i as int));
            assert(lines.take(i + 1).last() == rows@[i as int]@);
            assert(bytes@ =~= before + rows@[i as int]@ + seq![NEWLINE]);
        }
        i += 1;
    }
    assert(lines_of(rows@).take(i as int) =~= lines_of(rows@));
    bytes
}

/// Reading what was written gives the lines back, as long as no line holds a
/// newline or ends in a carriage return.
pub proof fn lemma_split_joined(lines: Seq<Seq<u8>>)
    requires
        forall|i: int, j: int|
            0 <= i < lines.len() && 0 <= j < lines[i].len() ==> #[trigger] lines[i][j] != NEWLINE,
        forall|i: int|
            0 <= i < lines.len() ==> without_carriage_return(#[trigger] lines[i]) == lines[i],
    ensures
        split_lines(joined_lines(lines)) == lines,
    decreases lines.len(),
{
    if lines.len() == 0 {
    } else {
        let first = lines[0];
        let rest = lines.skip(1);
        lemma_joined_first(lines);
        let bytes = joined_lines(lines);
        assert(bytes == first + seq![NEWLINE] + joined_lines(rest));
        assert forall|i: int| 0 <= i < first.len() implies bytes[i] != NEWLINE by {
            assert(bytes[i] == lines[0][i]);
        }
        lemma_line_end(bytes, first.len() as int);
        assert(bytes.take(first.len() as int) =~= first);
        assert(bytes.skip(first.len() as int + 1) =~= joined_lines(rest));
        assert forall|i: int, j: int|
            0 <= i < rest.len() && 0 <= j < rest[i].len() implies #[trigger] rest[i][j]
            != NEWLINE by {
            assert(rest[i][j] == lines[i + 1][j]);
        }
        assert forall|i: int| 0 <= i < rest.len() implies without_carriage_return(
            #[trigger] rest[i],
        ) == rest[i] by {
            assert(rest[i] == lines[i + 1]);
        }
        lemma_split_joined(rest);
        assert(split_lines(bytes) =~= seq![first] + rest);
        assert(seq![first] + rest =~= lines);
    }
}

/// A file's bytes start with its first line and a newline.
proof fn lemma_joined_first(lines: Seq<Seq<u8>>)
    requires
        lines.len() > 0,
    ensures
        joined_lines(lines) == lines[0] + seq![NEWLINE] + joined_lines(lines.skip(1)),
    decreases lines.len(),
{
    if lines.len() == 1 {
        assert(lines.drop_last() =~= Seq::<Seq<u8>>::empty());
        assert(lines.skip(1) =~= Seq::<Seq<u8>>::empty());
        assert(joined_lines(lines) =~= lines[0] + seq![NEWLINE] + joined_lines(lines.skip(1)));
    } else {
        let shorter = lines.drop_last();
        lemma_joined_first(shorter);
        assert(shorter.skip(1) =~= lines.skip(1).drop_last());
        assert(lines.skip(1).last() == lines.last());
        assert(joined_lines(lines) =~= lines[0] + seq![NEWLINE] + joined_lines(lines.skip(1)));
    }
}

} // verus!
