//! Character-sequence utilities: whitespace trimming, string equality and
//! prefix tests, each specified over `Seq<char>` views.

use vstd::prelude::*;

verus! {

/// The whitespace characters stripped from around a tier title: the ASCII
/// whitespace set (space, tab, line feed, carriage return, form feed).
pub open spec fn is_space_char(c: char) -> bool {
    c == ' ' || c == '\t' || c == '\n' || c == '\r' || c == '\u{c}'
}

/// The sequence with its leading whitespace removed.
pub open spec fn trim_start_spec(s: Seq<char>) -> Seq<char>
    decreases s.len(),
{
    if s.len() > 0 && is_space_char(s[0]) {
        trim_start_spec(s.subrange(1, s.len() as int))
    } else {
        s
    }
}

/// The sequence with its trailing whitespace removed.
pub open spec fn trim_end_spec(s: Seq<char>) -> Seq<char>
    decreases s.len(),
{
    if s.len() > 0 && is_space_char(s[s.len() - 1]) {
        trim_end_spec(s.subrange(0, s.len() - 1))
    } else {
        s
    }
}

/// The sequence with surrounding whitespace removed.
pub open spec fn trim_spec(s: Seq<char>) -> Seq<char> {
    trim_end_spec(trim_start_spec(s))
}

/// `p` is a prefix of `s`.
pub open spec fn has_prefix(s: Seq<char>, p: Seq<char>) -> bool {
    p.len() <= s.len() && s.subrange(0, p.len() as int) == p
}

/// Whether `c` belongs to the whitespace set that trimming strips.
pub fn is_space(c: char) -> (r: bool)
    ensures
        r == is_space_char(c),
{
    c == ' ' || c == '\t' || c == '\n' || c == '\r' || c == '\u{c}'
}

proof fn lemma_trim_start_at(s: Seq<char>, i: int)
    requires
        0 <= i <= s.len(),
        forall|k: int| 0 <= k < i ==> is_space_char(s[k]),
        i < s.len() ==> !is_space_char(s[i]),
    ensures
        trim_start_spec(s) == s.subrange(i, s.len() as int),
    decreases i,
{
    if i == 0 {
        assert(s.subrange(0, s.len() as int) =~= s);
    } else {
        let t = s.subrange(1, s.len() as int);
        lemma_trim_start_at(t, i - 1);
        assert(t.subrange(i - 1, t.len() as int) =~= s.subrange(i, s.len() as int));
    }
}

proof fn lemma_trim_end_at(s: Seq<char>, j: int)
    requires
        0 <= j <= s.len(),
        forall|k: int| j <= k < s.len() ==> is_space_char(s[k]),
        j > 0 ==> !is_space_char(s[j - 1]),
    ensures
        trim_end_spec(s) == s.subrange(0, j),
    decreases s.len() - j,
{
    if j == s.len() {
        assert(s.subrange(0, s.len() as int) =~= s);
    } else {
        let t = s.subrange(0, s.len() - 1);
        lemma_trim_end_at(t, j);
        assert(t.subrange(0, j) =~= s.subrange(0, j));
    }
}

proof fn lemma_trim_start_prepend_spaces(w: Seq<char>, s: Seq<char>)
    requires
        forall|k: int| 0 <= k < w.len() ==> is_space_char(w[k]),
    ensures
        trim_start_spec(w + s) == trim_start_spec(s),
    decreases w.len(),
{
    if w.len() == 0 {
        assert(w + s =~= s);
    } else {
        assert((w + s)[0] == w[0]);
        assert((w + s).subrange(1, (w + s).len() as int) =~= w.subrange(1, w.len() as int) + s);
        lemma_trim_start_prepend_spaces(w.subrange(1, w.len() as int), s);
    }
}

proof fn lemma_trim_end_append_spaces(s: Seq<char>, w: Seq<char>)
    requires
        forall|k: int| 0 <= k < w.len() ==> is_space_char(w[k]),
    ensures
        trim_end_spec(s + w) == trim_end_spec(s),
    decreases w.len(),
{
    if w.len() == 0 {
        assert(s + w =~= s);
    } else {
        assert((s + w)[(s + w).len() - 1] == w[w.len() - 1]);
        assert((s + w).subrange(0, (s + w).len() - 1) =~= s + w.subrange(0, w.len() - 1));
        lemma_trim_end_append_spaces(s, w.subrange(0, w.len() - 1));
    }
}

proof fn lemma_trim_start_append(t: Seq<char>, w: Seq<char>)
    requires
        exists|k: int| 0 <= k < t.len() && !is_space_char(t[k]),
    ensures
        trim_start_spec(t + w) == trim_start_spec(t) + w,
    decreases t.len(),
{
    let k = choose|k: int| 0 <= k < t.len() && !is_space_char(t[k]);
    assert((t + w)[0] == t[0]);
    if !is_space_char(t[0]) {
        assert(trim_start_spec(t + w) == t + w);
        assert(trim_start_spec(t) == t);
    } else {
        let rest = t.subrange(1, t.len() as int);
        assert(!is_space_char(rest[k - 1]));
        assert((t + w).subrange(1, (t + w).len() as int) =~= rest + w);
        lemma_trim_start_append(rest, w);
    }
}

proof fn lemma_trim_start_all_spaces(t: Seq<char>)
    requires
        forall|k: int| 0 <= k < t.len() ==> is_space_char(t[k]),
    ensures
        trim_start_spec(t) == Seq::<char>::empty(),
    decreases t.len(),
{
    if t.len() == 0 {
        assert(t =~= Seq::<char>::empty());
    } else {
        lemma_trim_start_all_spaces(t.subrange(1, t.len() as int));
    }
}

/// Surrounding whitespace never changes what trimming yields: padding a
/// sequence with whitespace on either side trims to the same characters.
pub proof fn lemma_trim_ignores_surrounding_whitespace(t: Seq<char>, w1: Seq<char>, w2: Seq<char>)
    requires
        forall|k: int| 0 <= k < w1.len() ==> is_space_char(w1[k]),
        forall|k: int| 0 <= k < w2.len() ==> is_space_char(w2[k]),
    ensures
        trim_spec(w1 + t + w2) == trim_spec(t),
{
    assert(w1 + t + w2 =~= w1 + (t + w2));
    if exists|k: int| 0 <= k < t.len() && !is_space_char(t[k]) {
        lemma_trim_start_prepend_spaces(w1, t + w2);
        lemma_trim_start_append(t, w2);
        lemma_trim_end_append_spaces(trim_start_spec(t), w2);
    } else {
        assert(forall|k: int| 0 <= k < (t + w2).len() ==> is_space_char((t + w2)[k]));
        lemma_trim_start_prepend_spaces(w1, t + w2);
        lemma_trim_start_all_spaces(t + w2);
        lemma_trim_start_all_spaces(t);
    }
}

/// The slice of `s` with surrounding whitespace removed, equal to
/// `trim_spec` of the view.
pub fn trim_whitespace<'a>(s: &'a str) -> (r: &'a str)
    ensures
        r@ == trim_spec(s@),
{
    let n = s.unicode_len();
    let mut lo: usize = 0;
    while lo < n && is_space(s.get_char(lo))
        invariant
            0 <= lo <= n,
            n == s@.len(),
            forall|k: int| 0 <= k < lo ==> is_space_char(s@[k]),
        decreases n - lo,
    {
        lo = lo + 1;
    }
    let mut hi: usize = n;
    while hi > lo && is_space(s.get_char(hi - 1))
        invariant
            lo <= hi <= n,
            n == s@.len(),
            forall|k: int| hi <= k < n ==> is_space_char(s@[k]),
        decreases hi,
    {
        hi = hi - 1;
    }
    proof {
        lemma_trim_start_at(s@, lo as int);
        let t = s@.subrange(lo as int, s@.len() as int);
        lemma_trim_end_at(t, hi - lo as int);
        assert(t.subrange(0, hi - lo as int) =~= s@.subrange(lo as int, hi as int));
    }
    s.substring_char(lo, hi)
}

/// Character-for-character equality of two string slices.
pub fn str_eq(a: &str, b: &str) -> (r: bool)
    ensures
        r == (a@ == b@),
{
    let sa: String = a.to_owned();
    let sb: String = b.to_owned();
    sa == sb
}

/// Whether `p` is a prefix of `s`, by characters.
pub fn str_has_prefix(s: &str, p: &str) -> (r: bool)
    ensures
        r == has_prefix(s@, p@),
{
    let n = s.unicode_len();
    let m = p.unicode_len();
    if m > n {
        false
    } else {
        let head = s.substring_char(0, m);
        str_eq(head, p)
    }
}

} // verus!
