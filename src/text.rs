use vstd::prelude::*;

verus! {

/// No byte of `s` is the terminator byte `0`.
pub open spec fn terminator_free(s: Seq<u8>) -> bool {
    forall|i: int| 0 <= i < s.len() ==> s[i] != 0
}

/// `r` is the text that the terminated buffer `buf` holds: the bytes of
/// `buf` before its first terminator, or all of them where it has none.
pub open spec fn c_content(buf: Seq<u8>, r: Seq<u8>) -> bool {
    &&& r.len() <= buf.len()
    &&& r == buf.subrange(0, r.len() as int)
    &&& terminator_free(r)
    &&& r.len() < buf.len() ==> buf[r.len() as int] == 0
}

/// The terminated byte string handed to the engine's parser: the text and
/// one terminator after it. Text that holds a terminator of its own cannot
/// be passed this way, and yields `None`.
pub fn c_text(text: &[u8]) -> (r: Option<Vec<u8>>)
    ensures
        r is None <==> !terminator_free(text@),
        r matches Some(v) ==> v@ == text@.push(0),
{
    let mut out: Vec<u8> = Vec::new();
    let mut i: usize = 0;
    while i < text.len()
        invariant
            i <= text@.len(),
            out@ == text@.subrange(0, i as int),
            terminator_free(out@),
        decreases text@.len() - i,
    {
        let b = text[i];
        if b == 0 {
            return None;
        }
        out.push(b);
        i = i + 1;
    }
    assert(out@ == text@);
    out.push(0);
    Some(out)
}

/// The size of the buffer for the second pass of the engine's two-pass
/// formatter, from the length that the first pass reported: that length and
/// one byte for the terminator. A negative length means that the engine
/// cannot render the value, and yields `None`.
pub fn format_buffer_size(required: i32) -> (r: Option<usize>)
    ensures
        r is None <==> required < 0,
        r matches Some(n) ==> n == required + 1,
{
    if required < 0 {
        None
    } else {
        Some(required as usize + 1)
    }
}

/// The text that a buffer filled by the engine holds: its bytes up to the
/// first terminator.
pub fn c_text_content(buf: &[u8]) -> (r: Vec<u8>)
    ensures
        c_content(buf@, r@),
{
    let mut out: Vec<u8> = Vec::new();
    let mut i: usize = 0;
    while i < buf.len()
        invariant
            i <= buf@.len(),
            out@ == buf@.subrange(0, i as int),
            terminator_free(out@),
        decreases buf@.len() - i,
    {
        let b = buf[i];
        if b == 0 {
            return out;
        }
        out.push(b);
        i = i + 1;
    }
    assert(out@ == buf@.subrange(0, out@.len() as int));
    out
}

} // verus!
