//! Small helpers on bytes and text.
use vstd::prelude::*;

use vstd::utf8::{decode_utf8, valid_utf8};

verus! {

/// The bytes of `data` from `from` up to `to`.
pub fn copy_range(data: &[u8], from: usize, to: usize) -> (r: Vec<u8>)
    requires
        from <= to <= data@.len(),
    ensures
        r@ == data@.subrange(from as int, to as int),
{
    let mut out: Vec<u8> = Vec::new();
    let mut i: usize = from;
    while i < to
        invariant
            from <= i <= to <= data@.len(),
            out@ == data@.subrange(from as int, i as int),
        decreases to - i,
    {
        out.push(data[i]);
        i = i + 1;
        assert(out@ =~= data@.subrange(from as int, i as int));
    }
    out
}

/// Whether two strings hold the same characters.
pub fn str_equal(a: &str, b: &str) -> (r: bool)
    ensures
        r == (a@ == b@),
{
    let n = a.unicode_len();
    if n != b.unicode_len() {
        return false;
    }
    let mut i: usize = 0;
    while i < n
        invariant
            n == a@.len() == b@.len(),
            i <= n,
            forall|k: int| 0 <= k < i ==> a@[k] == b@[k],
        decreases n - i,
    {
        if a.get_char(i) != b.get_char(i) {
            return false;
        }
        i = i + 1;
    }
    assert(a@ =~= b@);
    true
}

/// Whether `s` starts with `prefix`.
pub fn starts_with(s: &str, prefix: &str) -> (r: bool)
    ensures
        r == (prefix@.len() <= s@.len() && s@.subrange(0, prefix@.len() as int) == prefix@),
{
    let n = prefix.unicode_len();
    if n > s.unicode_len() {
        return false;
    }
    let mut i: usize = 0;
    while i < n
        invariant
            n == prefix@.len() <= s@.len(),
            i <= n,
            forall|k: int| 0 <= k < i ==> s@[k] == prefix@[k],
        decreases n - i,
    {
        if s.get_char(i) != prefix.get_char(i) {
            assert(s@.subrange(0, n as int)[i as int] != prefix@[i as int]);
            return false;
        }
        i = i + 1;
    }
    assert(s@.subrange(0, n as int) =~= prefix@);
    true
}

/// The first double quote in `text` at or after `from`.
pub fn find_quote(text: &str, from: usize) -> (r: Option<usize>)
    requires
        from <= text@.len(),
    ensures
        match r {
            Some(q) => from <= q < text@.len() && text@[q as int] == '"' && forall|k: int|
                from <= k < q ==> text@[k] != '"',
            None => forall|k: int| from <= k < text@.len() ==> text@[k] != '"',
        },
{
    let n = text.unicode_len();
    let mut i: usize = from;
    while i < n
        invariant
            n == text@.len(),
            from <= i <= n,
            forall|k: int| from <= k < i ==> text@[k] != '"',
        decreases n - i,
    {
        if text.get_char(i) == '"' {
            return Some(i);
        }
        i = i + 1;
    }
    None
}

/// Relies on String::from_utf8: it accepts exactly the valid UTF-8 byte strings and
/// decodes them.
#[verifier::external_body]
pub(crate) fn utf8_string(bytes: Vec<u8>) -> (r: Option<String>)
    ensures
        r is Some <==> valid_utf8(bytes@),
        r matches Some(s) ==> s@ == decode_utf8(bytes@),
{
    String::from_utf8(bytes).ok()
}

} // verus!
