//! Verified string helpers: ASCII lowering, substring search, equality,
//! and trimming, each pinned to a spec-level description of its result.

use vstd::prelude::*;

verus! {

/// Relies on String::push: appends exactly one character at the end.
#[verifier::external_body]
pub(crate) fn push_char(s: &mut String, c: char)
    ensures
        final(s)@ == old(s)@.push(c),
{
    s.push(c);
}

/// ASCII lowering of one character; anything outside 'A'..='Z' is kept.
pub open spec fn lower_char(c: char) -> char {
    if 'A' <= c && c <= 'Z' {
        ((c as int) + 32) as char
    } else {
        c
    }
}

/// ASCII lowering of a character sequence.
pub open spec fn lower_chars(s: Seq<char>) -> Seq<char> {
    Seq::new(s.len(), |i: int| lower_char(s[i]))
}

/// Executable ASCII lowering of one character.
pub fn to_lower_char(c: char) -> (r: char)
    ensures
        r == lower_char(c),
{
    if 'A' <= c && c <= 'Z' {
        let u: u32 = c as u32;
        let b: u8 = (u + 32) as u8;
        b as char
    } else {
        c
    }
}

/// Executable ASCII lowering of a whole string.
pub fn to_ascii_lower(s: &str) -> (r: String)
    ensures
        r@ == lower_chars(s@),
{
    let len: usize = s.unicode_len();
    let mut out = String::new();
    let mut i: usize = 0;
    while i < len
        invariant
            i <= len,
            len == s@.len(),
            out@ == lower_chars(s@).take(i as int),
        decreases len - i,
    {
        let c = s.get_char(i);
        let l = to_lower_char(c);
        push_char(&mut out, l);
        proof {
            assert(out@ =~= lower_chars(s@).take(i + 1));
        }
        i = i + 1;
    }
    proof {
        assert(out@ =~= lower_chars(s@));
    }
    out
}

/// The needle `n` occurs in `h` starting at position `i`.
pub open spec fn contains_at(h: Seq<char>, n: Seq<char>, i: int) -> bool {
    forall|j: int| 0 <= j < n.len() ==> h[i + j] == n[j]
}

/// The needle `n` occurs somewhere in `h` (an empty needle always does).
pub open spec fn contains_seq(h: Seq<char>, n: Seq<char>) -> bool {
    exists|i: int| 0 <= i && i + n.len() <= h.len() && contains_at(h, n, i)
}

/// Substring search, as str::contains does it.
pub fn str_contains(h: &str, n: &str) -> (r: bool)
    ensures
        r == contains_seq(h@, n@),
{
    let hl: usize = h.unicode_len();
    let nl: usize = n.unicode_len();
    if nl > hl {
        return false;
    }
    let mut i: usize = 0;
    while i <= hl - nl
        invariant
            nl <= hl,
            hl == h@.len(),
            nl == n@.len(),
            i <= hl - nl + 1,
            forall|k: int| 0 <= k < i ==> !contains_at(h@, n@, k),
        decreases hl - nl - i + 1,
    {
        let mut j: usize = 0;
        let mut ok: bool = true;
        while ok && j < nl
            invariant
                j <= nl,
                i + nl <= hl,
                hl == h@.len(),
                nl == n@.len(),
                ok ==> forall|t: int| 0 <= t < j ==> h@[i + t] == n@[t],
                !ok ==> !contains_at(h@, n@, i as int),
            decreases nl - j,
        {
            let hc = h.get_char(i + j);
            let nc = n.get_char(j);
            if hc == nc {
                j = j + 1;
            } else {
                proof {
                    assert(h@[i as int + j as int] != n@[j as int]);
                }
                ok = false;
                j = nl;
            }
        }
        if ok {
            proof {
                assert(contains_at(h@, n@, i as int));
            }
            return true;
        }
        i = i + 1;
    }
    proof {
        assert(forall|k: int| 0 <= k && k + n@.len() <= h@.len() ==> !contains_at(h@, n@, k));
    }
    false
}

/// Character-by-character string equality.
pub fn str_eq(a: &str, b: &str) -> (r: bool)
    ensures
        r == (a@ == b@),
{
    let al: usize = a.unicode_len();
    let bl: usize = b.unicode_len();
    if al != bl {
        return false;
    }
    let mut i: usize = 0;
    while i < al
        invariant
            i <= al,
            al == a@.len(),
            al == b@.len(),
            forall|k: int| 0 <= k < i ==> a@[k] == b@[k],
        decreases al - i,
    {
        if a.get_char(i) != b.get_char(i) {
            return false;
        }
        i = i + 1;
    }
    proof {
        assert(a@ =~= b@);
    }
    true
}

/// The whitespace characters that trimming strips.
pub open spec fn is_space_char(c: char) -> bool {
    c == ' ' || c == '\t' || c == '\n' || c == '\r'
}

/// `s` with its leading whitespace dropped.
pub open spec fn trim_start_seq(s: Seq<char>) -> Seq<char>
    decreases s.len(),
{
    if s.len() > 0 && is_space_char(s[0]) {
        trim_start_seq(s.drop_first())
    } else {
        s
    }
}

/// `s` with its trailing whitespace dropped.
pub open spec fn trim_end_seq(s: Seq<char>) -> Seq<char>
    decreases s.len(),
{
    if s.len() > 0 && is_space_char(s[s.len() - 1]) {
        trim_end_seq(s.drop_last())
    } else {
        s
    }
}

/// `s` with whitespace dropped at both ends, as str::trim does it.
pub open spec fn trim_seq(s: Seq<char>) -> Seq<char> {
    trim_end_seq(trim_start_seq(s))
}

proof fn lemma_trim_start_idx(s: Seq<char>, k: int)
    requires
        0 <= k <= s.len(),
        forall|i: int| 0 <= i < k ==> is_space_char(s[i]),
        k < s.len() ==> !is_space_char(s[k]),
    ensures
        trim_start_seq(s) == s.subrange(k, s.len() as int),
    decreases k,
{
    if k == 0 {
        assert(s.subrange(0, s.len() as int) =~= s);
    } else {
        assert(is_space_char(s[0]));
        lemma_trim_start_idx(s.drop_first(), k - 1);
        assert(s.drop_first().subrange(k - 1, s.drop_first().len() as int) =~= s.subrange(
            k,
            s.len() as int,
        ));
    }
}

proof fn lemma_trim_end_idx(s: Seq<char>, k: int)
    requires
        0 <= k <= s.len(),
        forall|i: int| k <= i < s.len() ==> is_space_char(s[i]),
        k > 0 ==> !is_space_char(s[k - 1]),
    ensures
        trim_end_seq(s) == s.subrange(0, k),
    decreases s.len() - k,
{
    if k == s.len() {
        assert(trim_end_seq(s) == s.subrange(0, k)) by {
            assert(s.subrange(0, k) =~= s);
        }
    } else {
        assert(is_space_char(s[s.len() - 1]));
        lemma_trim_end_idx(s.drop_last(), k);
        assert(s.drop_last().subrange(0, k) =~= s.subrange(0, k));
    }
}

/// Trim ASCII whitespace from both ends.
pub fn trim_spaces<'a>(s: &'a str) -> (r: &'a str)
    ensures
        r@ == trim_seq(s@),
{
    let len: usize = s.unicode_len();
    let mut start: usize = 0;
    while start < len && is_space(s.get_char(start))
        invariant
            start <= len,
            len == s@.len(),
            forall|i: int| 0 <= i < start ==> is_space_char(s@[i]),
        decreases len - start,
    {
        start = start + 1;
    }
    proof {
        lemma_trim_start_idx(s@, start as int);
    }
    let mut end: usize = len;
    while end > start && is_space(s.get_char(end - 1))
        invariant
            start <= end <= len,
            len == s@.len(),
            forall|i: int| end <= i < len ==> is_space_char(s@[i]),
        decreases end,
    {
        end = end - 1;
    }
    let r = s.substring_char(start, end);
    proof {
        let t = trim_start_seq(s@);
        lemma_trim_end_idx(t, end - start);
        assert(t.subrange(0, end - start) =~= s@.subrange(start as int, end as int));
    }
    r
}

/// Executable test for the whitespace set.
pub fn is_space(c: char) -> (r: bool)
    ensures
        r == is_space_char(c),
{
    c == ' ' || c == '\t' || c == '\n' || c == '\r'
}

/// `s` with every trailing occurrence of `c` dropped.
pub open spec fn trim_end_chars(s: Seq<char>, c: char) -> Seq<char>
    decreases s.len(),
{
    if s.len() > 0 && s[s.len() - 1] == c {
        trim_end_chars(s.drop_last(), c)
    } else {
        s
    }
}

/// `s` with every leading occurrence of `c` dropped.
pub open spec fn trim_start_chars(s: Seq<char>, c: char) -> Seq<char>
    decreases s.len(),
{
    if s.len() > 0 && s[0] == c {
        trim_start_chars(s.drop_first(), c)
    } else {
        s
    }
}

proof fn lemma_trim_end_chars_idx(s: Seq<char>, c: char, k: int)
    requires
        0 <= k <= s.len(),
        forall|i: int| k <= i < s.len() ==> s[i] == c,
        k > 0 ==> s[k - 1] != c,
    ensures
        trim_end_chars(s, c) == s.subrange(0, k),
    decreases s.len() - k,
{
    if k == s.len() {
        assert(trim_end_chars(s, c) == s.subrange(0, k)) by {
            assert(s.subrange(0, k) =~= s);
        }
    } else {
        lemma_trim_end_chars_idx(s.drop_last(), c, k);
        assert(s.drop_last().subrange(0, k) =~= s.subrange(0, k));
    }
}

proof fn lemma_trim_start_chars_idx(s: Seq<char>, c: char, k: int)
    requires
        0 <= k <= s.len(),
        forall|i: int| 0 <= i < k ==> s[i] == c,
        k < s.len() ==> s[k] != c,
    ensures
        trim_start_chars(s, c) == s.subrange(k, s.len() as int),
    decreases k,
{
    if k == 0 {
        assert(s.subrange(0, s.len() as int) =~= s);
    } else {
        lemma_trim_start_chars_idx(s.drop_first(), c, k - 1);
        assert(s.drop_first().subrange(k - 1, s.drop_first().len() as int) =~= s.subrange(
            k,
            s.len() as int,
        ));
    }
}

/// The index of the first occurrence of `c` in `s`, or `s.len()` when
/// `c` does not occur.
pub open spec fn idx_first(s: Seq<char>, c: char) -> int
    decreases s.len(),
{
    if s.len() == 0 {
        0
    } else if s[0] == c {
        0
    } else {
        1 + idx_first(s.drop_first(), c)
    }
}

/// The index just after the last occurrence of `c` in `s`, or zero when
/// `c` does not occur.
pub open spec fn idx_after_last(s: Seq<char>, c: char) -> int
    decreases s.len(),
{
    if s.len() == 0 {
        0
    } else if s[s.len() - 1] == c {
        s.len() as int
    } else {
        idx_after_last(s.drop_last(), c)
    }
}

proof fn lemma_idx_first_at(s: Seq<char>, c: char, k: int)
    requires
        0 <= k <= s.len(),
        forall|i: int| 0 <= i < k ==> s[i] != c,
        k < s.len() ==> s[k] == c,
    ensures
        idx_first(s, c) == k,
    decreases k,
{
    if s.len() == 0 {
    } else if k == 0 {
    } else {
        lemma_idx_first_at(s.drop_first(), c, k - 1);
    }
}

proof fn lemma_idx_after_last_at(s: Seq<char>, c: char, k: int)
    requires
        0 <= k <= s.len(),
        forall|i: int| k <= i < s.len() ==> s[i] != c,
        k > 0 ==> s[k - 1] == c,
    ensures
        idx_after_last(s, c) == k,
    decreases s.len() - k,
{
    if k == s.len() {
        if s.len() > 0 {
        }
    } else {
        lemma_idx_after_last_at(s.drop_last(), c, k);
    }
}

/// The position of the first occurrence of `c`, or the length when `c`
/// does not occur, as str::find reports it.
pub fn find_first(s: &str, c: char) -> (r: usize)
    ensures
        r as int == idx_first(s@, c),
        r <= s@.len(),
{
    let len: usize = s.unicode_len();
    let mut i: usize = 0;
    while i < len && s.get_char(i) != c
        invariant
            i <= len,
            len == s@.len(),
            forall|k: int| 0 <= k < i ==> s@[k] != c,
        decreases len - i,
    {
        i = i + 1;
    }
    proof {
        lemma_idx_first_at(s@, c, i as int);
    }
    i
}

/// The position just after the last occurrence of `c`, or zero when `c`
/// does not occur.
pub fn find_after_last(s: &str, c: char) -> (r: usize)
    ensures
        r as int == idx_after_last(s@, c),
        r <= s@.len(),
{
    let len: usize = s.unicode_len();
    let mut e: usize = len;
    while e > 0 && s.get_char(e - 1) != c
        invariant
            e <= len,
            len == s@.len(),
            forall|k: int| e <= k < len ==> s@[k] != c,
        decreases e,
    {
        e = e - 1;
    }
    proof {
        lemma_idx_after_last_at(s@, c, e as int);
    }
    e
}

/// Trim every trailing occurrence of `c`, as str::trim_end_matches does.
pub fn trim_end_char<'a>(s: &'a str, c: char) -> (r: &'a str)
    ensures
        r@ == trim_end_chars(s@, c),
{
    let len: usize = s.unicode_len();
    let mut end: usize = len;
    while end > 0 && s.get_char(end - 1) == c
        invariant
            end <= len,
            len == s@.len(),
            forall|i: int| end <= i < len ==> s@[i] == c,
        decreases end,
    {
        end = end - 1;
    }
    let r = s.substring_char(0, end);
    proof {
        lemma_trim_end_chars_idx(s@, c, end as int);
    }
    r
}

/// Trim every occurrence of `c` from both ends, as str::trim_matches does.
pub fn trim_both_char<'a>(s: &'a str, c: char) -> (r: &'a str)
    ensures
        r@ == trim_end_chars(trim_start_chars(s@, c), c),
{
    let len: usize = s.unicode_len();
    let mut start: usize = 0;
    while start < len && s.get_char(start) == c
        invariant
            start <= len,
            len == s@.len(),
            forall|i: int| 0 <= i < start ==> s@[i] == c,
        decreases len - start,
    {
        start = start + 1;
    }
    proof {
        lemma_trim_start_chars_idx(s@, c, start as int);
    }
    let mut end: usize = len;
    while end > start && s.get_char(end - 1) == c
        invariant
            start <= end <= len,
            len == s@.len(),
            forall|i: int| end <= i < len ==> s@[i] == c,
        decreases end,
    {
        end = end - 1;
    }
    let r = s.substring_char(start, end);
    proof {
        let t = trim_start_chars(s@, c);
        lemma_trim_end_chars_idx(t, c, end - start);
        assert(t.subrange(0, end - start) =~= s@.subrange(start as int, end as int));
    }
    r
}

} // verus!
