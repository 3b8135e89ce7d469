use vstd::prelude::*;
use vstd::string::*;

verus! {

/// The ASCII digit for `d`, where `d` is below ten.
pub open spec fn digit(d: nat) -> u8 {
    (48 + d) as u8
}

/// `n` written in decimal, most significant digit first, without leading
/// zeros.
pub open spec fn decimal(n: nat) -> Seq<u8>
    decreases n,
{
    if n < 10 {
        seq![digit(n)]
    } else {
        decimal(n / 10).push(digit(n % 10))
    }
}

/// `count` blanks.
pub open spec fn blanks(count: int) -> Seq<u8> {
    Seq::new(if count > 0 { count as nat } else { 0 }, |i: int| 32u8)
}

/// `text` followed by the blanks that bring it to `width` bytes; a text that
/// is at least that long stays as it is.
pub open spec fn padded(text: Seq<u8>, width: int) -> Seq<u8> {
    text + blanks(width - text.len())
}

/// Adds the bytes of `bytes` to the end of `buf`.
pub fn append_bytes(buf: &mut Vec<u8>, bytes: &[u8])
    ensures
        final(buf)@ == old(buf)@ + bytes@,
{
    let mut i: usize = 0;
    while i < bytes.len()
        invariant
            i <= bytes@.len(),
            buf@ == old(buf)@ + bytes@.take(i as int),
        decreases bytes@.len() - i,
    {
        buf.push(bytes[i]);
        i += 1;
    }
    assert(bytes@.take(i as int) =~= bytes@);
}

/// Adds the UTF-8 bytes of `text` to the end of `buf`.
pub fn append_text(buf: &mut Vec<u8>, text: &str)
    ensures
        final(buf)@ == old(buf)@ + text.spec_bytes(),
{
    append_bytes(buf, text.as_bytes());
}

/// Adds `n` in decimal to the end of `buf`.
pub fn append_decimal(buf: &mut Vec<u8>, n: usize)
    ensures
        final(buf)@ == old(buf)@ + decimal(n as nat),
    decreases n,
{
    if n >= 10 {
        append_decimal(buf, n / 10);
    }
    let last: u8 = 48u8 + (n % 10) as u8;
    buf.push(last);
    assert(buf@ =~= old(buf)@ + decimal(n as nat));
}

/// Adds `count` blanks to the end of `buf`.
pub fn append_blanks(buf: &mut Vec<u8>, count: usize)
    ensures
        final(buf)@ == old(buf)@ + blanks(count as int),
{
    let mut i: usize = 0;
    while i < count
        invariant
            i <= count,
            buf@ == old(buf)@ + blanks(i as int),
        decreases count - i,
    {
        buf.push(32u8);
        i += 1;
        assert(buf@ =~= old(buf)@ + blanks(i as int));
    }
}

/// The UTF-8 bytes of `text`, as a vector of their own.
pub fn text_bytes(text: &str) -> (out: Vec<u8>)
    ensures
        out@ == text.spec_bytes(),
{
    let mut out: Vec<u8> = Vec::new();
    append_text(&mut out, text);
    assert(out@ =~= text.spec_bytes());
    out
}

/// Whether two runs of bytes are the same.
pub fn same_bytes(a: &[u8], b: &[u8]) -> (same: bool)
    ensures
        same == (a@ == b@),
{
    if a.len() != b.len() {
        return false;
    }
    let mut i: usize = 0;
    while i < a.len()
        invariant
            i <= a@.len(),
            a@.len() == b@.len(),
            a@.take(i as int) == b@.take(i as int),
        decreases a@.len() - i,
    {
        if a[i] != b[i] {
            return false;
        }
        assert(a@.take(i + 1) =~= a@.take(i as int).push(a@[i as int]));
        assert(b@.take(i + 1) =~= b@.take(i as int).push(b@[i as int]));
        i += 1;
    }
    assert(a@.take(i as int) =~= a@);
    assert(b@.take(i as int) =~= b@);
    true
}

} // verus!
