//! Character-level string helpers: exact and ASCII-case-insensitive
//! comparison, substring search, and file-extension extraction.

use vstd::prelude::*;
use vstd::string::StrSliceExecFns;

verus! {

/// Unicode code point of `c` with ASCII upper-case letters folded to lower case.
pub open spec fn lower_code(c: char) -> int {
    if 'A' as int <= c as int && c as int <= 'Z' as int {
        c as int + 32
    } else {
        c as int
    }
}

/// Two character sequences are equal up to ASCII case.
pub open spec fn chars_eq_ci(a: Seq<char>, b: Seq<char>) -> bool {
    a.len() == b.len() && forall|i: int| 0 <= i < a.len() ==> lower_code(a[i]) == lower_code(b[i])
}

fn lower_char_code(c: char) -> (r: u32)
    ensures
        r as int == lower_code(c),
{
    let u = c as u32;
    if 65 <= u && u <= 90 {
        u + 32
    } else {
        u
    }
}

/// Exact equality of two string slices, character by character.
pub fn str_eq(a: &str, b: &str) -> (r: bool)
    ensures
        r == (a@ == b@),
{
    let alen = a.unicode_len();
    let blen = b.unicode_len();
    if alen != blen {
        return false;
    }
    let mut i: usize = 0;
    while i < alen
        invariant
            alen == a@.len(),
            blen == b@.len(),
            alen == blen,
            i <= alen,
            forall|j: int| 0 <= j < i ==> a@[j] == b@[j],
        decreases alen - i,
    {
        if a.get_char(i) != b.get_char(i) {
            assert(a@[i as int] != b@[i as int]);
            return false;
        }
        i += 1;
    }
    assert(a@ =~= b@);
    true
}

/// Equality of two string slices up to ASCII case.
pub fn eq_ignore_case(a: &str, b: &str) -> (r: bool)
    ensures
        r == chars_eq_ci(a@, b@),
{
    let alen = a.unicode_len();
    let blen = b.unicode_len();
    if alen != blen {
        return false;
    }
    let mut i: usize = 0;
    while i < alen
        invariant
            alen == a@.len(),
            blen == b@.len(),
            alen == blen,
            i <= alen,
            forall|j: int| 0 <= j < i ==> lower_code(a@[j]) == lower_code(b@[j]),
        decreases alen - i,
    {
        let ca = lower_char_code(a.get_char(i));
        let cb = lower_char_code(b.get_char(i));
        if ca != cb {
            assert(lower_code(a@[i as int]) != lower_code(b@[i as int]));
            return false;
        }
        i += 1;
    }
    true
}

/// `n` occurs as a contiguous run inside `h`.
pub open spec fn contains_seq(h: Seq<char>, n: Seq<char>) -> bool {
    exists|i: int| 0 <= i && i + n.len() <= h.len() && #[trigger] h.subrange(i, i + n.len() as int)
        == n
}

fn match_at(h: &str, n: &str, at: usize, hlen: usize, nlen: usize) -> (r: bool)
    requires
        hlen == h@.len(),
        nlen == n@.len(),
        at + nlen <= hlen,
    ensures
        r == (h@.subrange(at as int, at + n@.len() as int) == n@),
{
    let mut j: usize = 0;
    while j < nlen
        invariant
            hlen == h@.len(),
            nlen == n@.len(),
            at + nlen <= hlen,
            j <= nlen,
            forall|k: int| 0 <= k < j ==> h@[at + k] == n@[k],
        decreases nlen - j,
    {
        if h.get_char(at + j) != n.get_char(j) {
            assert(h@.subrange(at as int, at + n@.len() as int)[j as int] != n@[j as int]);
            return false;
        }
        j += 1;
    }
    assert(h@.subrange(at as int, at + n@.len() as int) =~= n@);
    true
}

/// Substring search: does `n` occur anywhere inside `h`?
pub fn contains_str(h: &str, n: &str) -> (r: bool)
    ensures
        r == contains_seq(h@, n@),
{
    let hlen = h.unicode_len();
    let nlen = n.unicode_len();
    if nlen > hlen {
        return false;
    }
    if nlen == 0 {
        assert(contains_seq(h@, n@)) by {
            assert(h@.subrange(0, 0 + n@.len() as int) =~= n@);
        }
        return true;
    }
    let limit = hlen - nlen;
    let mut at: usize = 0;
    while at <= limit
        invariant
            hlen == h@.len(),
            nlen == n@.len(),
            1 <= nlen <= hlen,
            limit == hlen - nlen,
            at <= limit + 1,
            forall|k: int| 0 <= k < at ==> #[trigger] h@.subrange(k, k + n@.len() as int) != n@,
        decreases limit + 1 - at,
    {
        if match_at(h, n, at, hlen, nlen) {
            return true;
        }
        at += 1;
    }
    false
}

/// The substring after the last `'.'`, or the whole sequence when no `'.'`
/// occurs: the way a file name's type suffix is read.
pub open spec fn ext_of(s: Seq<char>) -> Seq<char>
    decreases s.len(),
{
    if s.len() == 0 {
        s
    } else if s.last() == '.' {
        Seq::<char>::empty()
    } else {
        ext_of(s.drop_last()).push(s.last())
    }
}

proof fn lemma_ext_no_dot(s: Seq<char>)
    requires
        forall|j: int| 0 <= j < s.len() ==> s[j] != '.',
    ensures
        ext_of(s) == s,
    decreases s.len(),
{
    if s.len() > 0 {
        lemma_ext_no_dot(s.drop_last());
        assert(ext_of(s) =~= s);
    } else {
        assert(ext_of(s) =~= s);
    }
}

proof fn lemma_ext_after_dot(s: Seq<char>, k: int)
    requires
        0 <= k < s.len(),
        s[k] == '.',
        forall|j: int| k < j < s.len() ==> s[j] != '.',
    ensures
        ext_of(s) == s.subrange(k + 1, s.len() as int),
    decreases s.len(),
{
    if k == s.len() - 1 {
        assert(ext_of(s) =~= s.subrange(k + 1, s.len() as int));
    } else {
        lemma_ext_after_dot(s.drop_last(), k);
        assert(s.drop_last().subrange(k + 1, s.len() - 1).push(s.last()) =~= s.subrange(
            k + 1,
            s.len() as int,
        ));
        assert(ext_of(s) =~= s.subrange(k + 1, s.len() as int));
    }
}

/// The file-type suffix of a name: what stands after the last `'.'`, or the
/// whole name when it holds none.
pub fn extension_of<'a>(s: &'a str) -> (r: &'a str)
    ensures
        r@ == ext_of(s@),
{
    let len = s.unicode_len();
    let mut i: usize = len;
    while i > 0
        invariant
            len == s@.len(),
            i <= len,
            forall|j: int| i <= j < len ==> s@[j] != '.',
        decreases i,
    {
        if s.get_char(i - 1) == '.' {
            let r = s.substring_char(i, len);
            proof {
                lemma_ext_after_dot(s@, i - 1);
            }
            return r;
        }
        i -= 1;
    }
    proof {
        lemma_ext_no_dot(s@);
    }
    s
}

} // verus!
