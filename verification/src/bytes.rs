//! Putting a line together, and taking it apart again in proofs.

use vstd::prelude::*;
use vstd::utf8::encode_utf8;

verus! {

/// Appends `bytes` to `out`.
pub fn append(out: &mut Vec<u8>, bytes: &[u8])
    ensures
        final(out)@ == old(out)@ + bytes@,
{
    let mut i: usize = 0;
    while i < bytes.len()
        invariant
            i <= bytes@.len(),
            out@ == old(out)@ + bytes@.subrange(0, i as int),
        decreases bytes@.len() - i,
    {
        out.push(bytes[i]);
        i += 1;
    }
}

/// Where a line is made of three parts and a rest, each part is found in
/// the line at the place that the lengths before it give.
pub proof fn lemma_parts_of_line(a: Seq<u8>, b: Seq<u8>, c: Seq<u8>, rest: Seq<u8>)
    ensures
        ({
            let line = a + b + c + rest;
            &&& line.len() == a.len() + b.len() + c.len() + rest.len()
            &&& line.subrange(0, a.len() as int) == a
            &&& line.subrange(a.len() as int, (a.len() + b.len()) as int) == b
            &&& line.subrange((a.len() + b.len()) as int, (a.len() + b.len() + c.len()) as int) == c
        }),
{
}

/// What opens a line still opens it when more is appended.
pub proof fn lemma_opening_stays(opening: Seq<u8>, line: Seq<u8>, more: Seq<u8>)
    requires
        opening.len() <= line.len(),
        line.subrange(0, opening.len() as int) == opening,
    ensures
        opening.len() <= (line + more).len(),
        (line + more).subrange(0, opening.len() as int) == opening,
{
}

/// Appends the UTF-8 encoding of `text` to `out`.
pub fn append_text(out: &mut Vec<u8>, text: &str)
    ensures
        final(out)@ == old(out)@ + encode_utf8(text@),
{
    append(out, text.as_bytes());
}

} // verus!
