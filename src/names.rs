//! Slicing abbreviations out of the packed string table.
use vstd::prelude::*;
use vstd::utf8::{valid_utf8, decode_utf8};

verus! {

/// The bytes of `s` before its first NUL, or all of them if it has none.
pub open spec fn until_nul(s: Seq<u8>) -> Seq<u8>
    decreases s.len(),
{
    if s.len() == 0 || s[0] == 0 {
        seq![]
    } else {
        seq![s[0]] + until_nul(s.drop_first())
    }
}

/// The abbreviation that starts at byte `start` of the string table: the bytes
/// from there up to the next NUL or the end; nothing when `start` is past the end.
pub open spec fn name_bytes(strings: Seq<u8>, start: int) -> Seq<u8> {
    if 0 <= start < strings.len() {
        until_nul(strings.subrange(start, strings.len() as int))
    } else {
        seq![]
    }
}

/// Splitting off a run of non-NUL bytes keeps it in front of what follows.
proof fn lemma_until_nul_prefix(s: Seq<u8>, j: int)
    requires
        0 <= j <= s.len(),
        forall|k: int| 0 <= k < j ==> s[k] != 0,
    ensures
        until_nul(s) == s.subrange(0, j) + until_nul(s.subrange(j, s.len() as int)),
    decreases j,
{
    if j == 0 {
        assert(s.subrange(0, s.len() as int) =~= s);
        assert(s.subrange(0, 0) + until_nul(s) =~= until_nul(s));
    } else {
        let t = s.drop_first();
        lemma_until_nul_prefix(t, j - 1);
        assert(t.subrange(j - 1, t.len() as int) =~= s.subrange(j, s.len() as int));
        assert(seq![s[0]] + t.subrange(0, j - 1) =~= s.subrange(0, j));
        assert(seq![s[0]] + (t.subrange(0, j - 1) + until_nul(s.subrange(j, s.len() as int)))
            =~= s.subrange(0, j) + until_nul(s.subrange(j, s.len() as int)));
    }
}

/// Copies the abbreviation that starts at byte `start` of `strings`.
pub fn slice_name(strings: &Vec<u8>, start: usize) -> (r: Vec<u8>)
    ensures
        r@ == name_bytes(strings@, start as int),
{
    let mut r: Vec<u8> = Vec::new();
    let mut j: usize = start;
    while j < strings.len() && strings[j] != 0
        invariant
            start <= j,
            start < strings@.len() ==> j <= strings@.len(),
            start < strings@.len() ==> r@ == strings@.subrange(start as int, j as int),
            start >= strings@.len() ==> r@.len() == 0 && j == start,
            forall|k: int| start <= k < j ==> strings@[k] != 0,
        decreases strings@.len() - j,
    {
        r.push(strings[j]);
        j = j + 1;
        assert(r@ =~= strings@.subrange(start as int, j as int));
    }
    if start < strings.len() {
        proof {
            let s = strings@.subrange(start as int, strings@.len() as int);
            let d = j - start;
            assert forall|k: int| 0 <= k < d implies s[k] != 0 by {
                assert(s[k] == strings@[start + k]);
            }
            lemma_until_nul_prefix(s, d as int);
            assert(s.subrange(0, d as int) =~= r@);
            let rest = s.subrange(d as int, s.len() as int);
            if j < strings.len() {
                assert(rest[0] == strings@[j as int]);
            }
            assert(until_nul(rest) =~= seq![]);
            assert(r@ + seq![] =~= r@);
        }
    } else {
        assert(r@ =~= seq![]);
    }
    r
}

/// Relies on `String::from_utf8`: it succeeds exactly on valid UTF-8, and the
/// string then holds the characters that the bytes encode.
#[verifier::external_body]
pub(crate) fn decode_name(bytes: Vec<u8>) -> (r: Option<String>)
    ensures
        r is Some <==> valid_utf8(bytes@),
        r matches Some(s) ==> s@ == decode_utf8(bytes@),
{
    String::from_utf8(bytes).ok()
}

} // verus!
