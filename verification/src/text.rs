//! Character-level text primitives: search, replacement, trimming and
//! conversion between `str` and character sequences.
//!
//! Every operation here works on sequences of `char`. Positions are
//! character indices; where a caller needs the byte-oriented behaviour of
//! `str` slicing, `bounded_prefix` models it explicitly.

use vstd::prelude::*;
use vstd::slice::slice_subrange;

verus! {

/// `String::push` appends one character at the end.
pub assume_specification[ String::push ](s: &mut String, ch: char)
    ensures
        final(s)@ == old(s)@.push(ch),
;

// ---------------------------------------------------------------------------
// Conversions
// ---------------------------------------------------------------------------

/// The characters of `s`, in order.
pub fn chars_of(s: &str) -> (v: Vec<char>)
    ensures
        v@ == s@,
{
    let mut v: Vec<char> = Vec::new();
    for c in it: s.chars()
        invariant
            v@ == it.seq().take(it.index() as int),
            it.seq() == s@,
    {
        v.push(c);
    }
    v
}

/// A `String` holding exactly the characters of `v`.
pub fn string_of(v: &[char]) -> (s: String)
    ensures
        s@ == v@,
{
    let mut s = String::new();
    let mut i: usize = 0;
    while i < v.len()
        invariant
            i <= v@.len(),
            s@ == v@.take(i as int),
        decreases v@.len() - i,
    {
        s.push(v[i]);
        i = i + 1;
        assert(s@ == v@.take(i as int));
    }
    assert(v@.take(v@.len() as int) == v@);
    s
}

/// The suffix of `s` that starts at character `k`.
pub fn tail(s: &[char], k: usize) -> (t: &[char])
    requires
        k <= s@.len(),
    ensures
        t@ == s@.skip(k as int),
{
    slice_subrange(s, k, s.len())
}

/// The first `k` characters of `s`.
pub fn head(s: &[char], k: usize) -> (t: &[char])
    requires
        k <= s@.len(),
    ensures
        t@ == s@.take(k as int),
{
    slice_subrange(s, 0, k)
}

/// Appends all characters of `x` to `out`.
pub fn append_chars(out: &mut Vec<char>, x: &[char])
    ensures
        final(out)@ == old(out)@ + x@,
{
    let ghost start = out@;
    let mut i: usize = 0;
    while i < x.len()
        invariant
            i <= x@.len(),
            out@ == start + x@.take(i as int),
        decreases x@.len() - i,
    {
        out.push(x[i]);
        i = i + 1;
        assert(out@ == start + x@.take(i as int));
    }
    assert(x@.take(x@.len() as int) == x@);
}

/// A fresh vector holding the characters of `x`.
pub fn to_vec(x: &[char]) -> (v: Vec<char>)
    ensures
        v@ == x@,
{
    let mut v: Vec<char> = Vec::new();
    append_chars(&mut v, x);
    v
}

// ---------------------------------------------------------------------------
// UTF-8 widths
// ---------------------------------------------------------------------------

/// Number of bytes in the UTF-8 encoding of `c`.
pub open spec fn utf8_width(c: char) -> nat {
    let n = c as u32;
    if n < 0x80 {
        1
    } else if n < 0x800 {
        2
    } else if n < 0x10000 {
        3
    } else {
        4
    }
}

/// Number of bytes in the UTF-8 encoding of `s`.
pub open spec fn utf8_len(s: Seq<char>) -> nat
    decreases s.len(),
{
    if s.len() == 0 {
        0
    } else {
        utf8_width(s[0]) + utf8_len(s.drop_first())
    }
}

pub fn char_utf8_width(c: char) -> (w: usize)
    ensures
        w == utf8_width(c),
{
    let n = c as u32;
    if n < 0x80 {
        1
    } else if n < 0x800 {
        2
    } else if n < 0x10000 {
        3
    } else {
        4
    }
}

/// The number of leading characters of `s` that the byte range `..max` of
/// the UTF-8 encoding of `s` selects, where `max` is clamped to the byte
/// length of `s`; `None` when that clamped bound falls inside the encoding
/// of a character.
pub open spec fn bounded_prefix(s: Seq<char>, max: nat) -> Option<nat>
    decreases s.len(),
{
    if s.len() == 0 {
        Some(0)
    } else if utf8_width(s[0]) > max {
        if max == 0 {
            Some(0)
        } else {
            None
        }
    } else {
        match bounded_prefix(s.drop_first(), (max - utf8_width(s[0])) as nat) {
            Some(k) => Some(k + 1),
            None => None,
        }
    }
}

/// Computes `bounded_prefix(s, max)`.
pub fn bounded_prefix_len(s: &[char], max: usize) -> (r: Option<usize>)
    ensures
        match r {
            Some(k) => bounded_prefix(s@, max as nat) == Some(k as nat),
            None => bounded_prefix(s@, max as nat) is None,
        },
        r matches Some(k) ==> k <= s@.len(),
{
    let mut i: usize = 0;
    let mut budget: usize = max;
    assert(s@.skip(0) == s@);
    while i < s.len()
        invariant
            i <= s@.len(),
            budget <= max,
            bounded_prefix(s@, max as nat) == match bounded_prefix(s@.skip(i as int), budget as nat) {
                Some(k) => Some((k + i) as nat),
                None => None::<nat>,
            },
        decreases s@.len() - i,
    {
        let w = char_utf8_width(s[i]);
        assert(s@.skip(i as int)[0] == s@[i as int]);
        assert(s@.skip(i as int).drop_first() == s@.skip(i + 1));
        if w > budget {
            if budget == 0 {
                return Some(i);
            } else {
                return None;
            }
        }
        budget = budget - w;
        i = i + 1;
    }
    assert(s@.skip(i as int).len() == 0);
    Some(i)
}

// ---------------------------------------------------------------------------
// Whitespace and trimming
// ---------------------------------------------------------------------------

/// Characters with the Unicode `White_Space` property.
pub open spec fn is_ws(c: char) -> bool {
    let n = c as u32;
    (0x09 <= n && n <= 0x0D) || n == 0x20 || n == 0x85 || n == 0xA0 || n == 0x1680 || (0x2000
        <= n && n <= 0x200A) || n == 0x2028 || n == 0x2029 || n == 0x202F || n == 0x205F || n
        == 0x3000
}

pub fn is_whitespace(c: char) -> (b: bool)
    ensures
        b == is_ws(c),
{
    let n = c as u32;
    (0x09 <= n && n <= 0x0D) || n == 0x20 || n == 0x85 || n == 0xA0 || n == 0x1680 || (0x2000
        <= n && n <= 0x200A) || n == 0x2028 || n == 0x2029 || n == 0x202F || n == 0x205F || n
        == 0x3000
}

/// `s` without its leading whitespace.
pub open spec fn trim_start(s: Seq<char>) -> Seq<char>
    decreases s.len(),
{
    if s.len() > 0 && is_ws(s[0]) {
        trim_start(s.drop_first())
    } else {
        s
    }
}

/// `s` without its trailing whitespace.
pub open spec fn trim_end(s: Seq<char>) -> Seq<char>
    decreases s.len(),
{
    if s.len() > 0 && is_ws(s.last()) {
        trim_end(s.drop_last())
    } else {
        s
    }
}

/// `s` without leading and trailing whitespace.
pub open spec fn trim(s: Seq<char>) -> Seq<char> {
    trim_end(trim_start(s))
}

/// Computes `trim(s)`.
pub fn trimmed(s: &[char]) -> (t: Vec<char>)
    ensures
        t@ == trim(s@),
{
    let mut a: usize = 0;
    assert(s@.skip(0) == s@);
    while a < s.len() && is_whitespace(s[a])
        invariant
            a <= s@.len(),
            trim_start(s@) == trim_start(s@.skip(a as int)),
        decreases s@.len() - a,
    {
        assert(s@.skip(a as int).drop_first() == s@.skip(a + 1));
        a = a + 1;
    }
    let mut b: usize = s.len();
    while b > a && is_whitespace(s[b - 1])
        invariant
            a <= b <= s@.len(),
            trim_end(s@.subrange(a as int, s@.len() as int)) == trim_end(s@.subrange(a as int, b as int)),
        decreases b,
    {
        assert(s@.subrange(a as int, b as int).drop_last() == s@.subrange(a as int, b - 1));
        b = b - 1;
    }
    let r = slice_subrange(s, a, b);
    to_vec(r)
}

/// `t` neither starts nor ends with whitespace.
pub open spec fn is_trimmed(t: Seq<char>) -> bool {
    t.len() > 0 ==> !is_ws(t[0]) && !is_ws(t[t.len() - 1])
}

/// Removing leading whitespace leaves a suffix that does not start with
/// whitespace.
pub proof fn lemma_trim_start(s: Seq<char>) -> (a: int)
    ensures
        0 <= a <= s.len(),
        trim_start(s) == s.skip(a),
        a < s.len() ==> !is_ws(s[a]),
    decreases s.len(),
{
    if s.len() > 0 && is_ws(s[0]) {
        let a1 = lemma_trim_start(s.drop_first());
        assert(s.drop_first().skip(a1) == s.skip(a1 + 1));
        a1 + 1
    } else {
        assert(s.skip(0) == s);
        0
    }
}

/// Removing trailing whitespace leaves a prefix that does not end with
/// whitespace.
pub proof fn lemma_trim_end(s: Seq<char>) -> (b: int)
    ensures
        0 <= b <= s.len(),
        trim_end(s) == s.take(b),
        b > 0 ==> !is_ws(s[b - 1]),
    decreases s.len(),
{
    if s.len() > 0 && is_ws(s.last()) {
        let b1 = lemma_trim_end(s.drop_last());
        assert(s.drop_last().take(b1) == s.take(b1));
        b1
    } else {
        assert(s.take(s.len() as int) == s);
        s.len() as int
    }
}

/// Trimming keeps a contiguous part of the text and leaves no whitespace
/// at either end.
pub proof fn lemma_trim(s: Seq<char>) -> (r: (int, int))
    ensures
        0 <= r.0 <= r.1 <= s.len(),
        trim(s) == s.subrange(r.0, r.1),
        is_trimmed(trim(s)),
{
    let a = lemma_trim_start(s);
    let t = s.skip(a);
    let b = lemma_trim_end(t);
    assert(t.take(b) == s.subrange(a, a + b));
    if b > 0 {
        assert(t.take(b)[0] == s[a]);
    }
    (a, a + b)
}

// ---------------------------------------------------------------------------
// Search
// ---------------------------------------------------------------------------

/// `p` occurs in `s` starting at index `i`.
pub open spec fn matches_at(s: Seq<char>, p: Seq<char>, i: int) -> bool {
    0 <= i && i + p.len() <= s.len() && s.subrange(i, i + p.len()) == p
}

/// The first index `>= i` at which `p` occurs in `s`.
pub open spec fn find_at(s: Seq<char>, p: Seq<char>, i: int) -> Option<int>
    decreases s.len() + 1 - i,
{
    if i < 0 || i + p.len() > s.len() {
        None
    } else if matches_at(s, p, i) {
        Some(i)
    } else {
        find_at(s, p, i + 1)
    }
}

/// The first index at which `p` occurs in `s`.
pub open spec fn find(s: Seq<char>, p: Seq<char>) -> Option<int> {
    find_at(s, p, 0)
}

/// The start of the `k`-th occurrence (counting from 0) of `p` in `s`, the
/// occurrences taken left to right without overlap.
pub open spec fn nth_find(s: Seq<char>, p: Seq<char>, k: nat) -> Option<int>
    decreases k,
{
    match find(s, p) {
        None => None,
        Some(f) => if k == 0 {
            Some(f)
        } else {
            match nth_find(s.skip(f + p.len()), p, (k - 1) as nat) {
                None => None,
                Some(q) => Some(f + p.len() + q),
            }
        },
    }
}

/// The last index `<= i` at which `p` occurs in `s`.
pub open spec fn rfind_at(s: Seq<char>, p: Seq<char>, i: int) -> Option<int>
    decreases i + 1,
{
    if i < 0 {
        None
    } else if matches_at(s, p, i) {
        Some(i)
    } else {
        rfind_at(s, p, i - 1)
    }
}

/// The last index at which `p` occurs in `s`.
pub open spec fn rfind(s: Seq<char>, p: Seq<char>) -> Option<int> {
    rfind_at(s, p, s.len() - p.len())
}

/// An exec position agrees with a spec position.
pub open spec fn same_pos(r: Option<usize>, m: Option<int>) -> bool {
    match r {
        Some(k) => m == Some(k as int),
        None => m is None,
    }
}

/// Decides `matches_at(s, p, i)`.
pub fn occurs_at(s: &[char], p: &[char], i: usize) -> (b: bool)
    ensures
        b == matches_at(s@, p@, i as int),
{
    let n = s.len();
    if i > n || p.len() > n - i {
        return false;
    }
    let mut j: usize = 0;
    while j < p.len()
        invariant
            n == s@.len(),
            i + p@.len() <= n,
            j <= p@.len(),
            forall|k: int| 0 <= k < j ==> s@[i + k] == p@[k],
        decreases p@.len() - j,
    {
        if s[i + j] != p[j] {
            assert(s@.subrange(i as int, i + p@.len())[j as int] != p@[j as int]);
            return false;
        }
        j = j + 1;
    }
    assert(s@.subrange(i as int, i + p@.len()) == p@);
    true
}

/// Computes `find(s@, p@)`.
pub fn find_in(s: &[char], p: &[char]) -> (r: Option<usize>)
    ensures
        same_pos(r, find(s@, p@)),
        r matches Some(k) ==> k + p@.len() <= s@.len() <= usize::MAX && matches_at(s@, p@, k as int),
{
    proof {
        lemma_find(s@, p@);
    }
    let n = s.len();
    if p.len() > n {
        return None;
    }
    if p.len() == 0 {
        assert(s@.subrange(0, 0) == p@);
        return Some(0);
    }
    let mut i: usize = 0;
    while i <= n - p.len()
        invariant
            n == s@.len(),
            1 <= p@.len() <= n,
            i <= n,
            find(s@, p@) == find_at(s@, p@, i as int),
        decreases n - i,
    {
        if occurs_at(s, p, i) {
            return Some(i);
        }
        i = i + 1;
    }
    None
}

/// Computes `find(s@, p@)` for a pattern given as a literal.
pub fn find_str(s: &[char], p: &str) -> (r: Option<usize>)
    ensures
        same_pos(r, find(s@, p@)),
        r matches Some(k) ==> k + p@.len() <= s@.len() <= usize::MAX && matches_at(s@, p@, k as int),
{
    let pv = chars_of(p);
    find_in(s, pv.as_slice())
}

/// Computes `find(s@, seq![c])`.
pub fn find_char(s: &[char], c: char) -> (r: Option<usize>)
    ensures
        same_pos(r, find(s@, seq![c])),
        r matches Some(k) ==> k + 1 <= s@.len() <= usize::MAX && s@[k as int] == c,
{
    let mut v: Vec<char> = Vec::new();
    v.push(c);
    assert(v@ == seq![c]);
    let r = find_in(s, v.as_slice());
    if let Some(k) = r {
        assert(s@.subrange(k as int, k + 1)[0] == s@[k as int]);
    }
    r
}

/// Computes `rfind(s@, seq![c])`.
pub fn rfind_char(s: &[char], c: char) -> (r: Option<usize>)
    ensures
        same_pos(r, rfind(s@, seq![c])),
        r matches Some(k) ==> k + 1 <= s@.len() <= usize::MAX,
{
    let mut v: Vec<char> = Vec::new();
    v.push(c);
    assert(v@ == seq![c]);
    rfind_in(s, v.as_slice())
}

/// Computes `rfind(s@, p@)` for a pattern given as a literal.
pub fn rfind_str(s: &[char], p: &str) -> (r: Option<usize>)
    ensures
        same_pos(r, rfind(s@, p@)),
        r matches Some(k) ==> k + p@.len() <= s@.len() <= usize::MAX,
{
    let pv = chars_of(p);
    rfind_in(s, pv.as_slice())
}

/// Computes `rfind(s@, p@)`.
pub fn rfind_in(s: &[char], p: &[char]) -> (r: Option<usize>)
    ensures
        same_pos(r, rfind(s@, p@)),
        r matches Some(k) ==> k + p@.len() <= s@.len() <= usize::MAX,
{
    proof {
        lemma_rfind(s@, p@);
    }
    if p.len() > s.len() {
        return None;
    }
    if p.len() == 0 {
        assert(s@.subrange(s@.len() as int, s@.len() as int) == p@);
        return Some(s.len());
    }
    let mut i: usize = s.len() - p.len() + 1;
    while i > 0
        invariant
            p@.len() <= s@.len(),
            i <= s@.len() - p@.len() + 1,
            s@.len() <= usize::MAX,
            rfind(s@, p@) == rfind_at(s@, p@, i - 1),
        decreases i,
    {
        if occurs_at(s, p, i - 1) {
            return Some(i - 1);
        }
        i = i - 1;
    }
    None
}

/// If `find_at` reports a position, `p` occurs there, no earlier position
/// at or after `i` matches, and the match lies within `s`.
pub proof fn lemma_find_at(s: Seq<char>, p: Seq<char>, i: int)
    ensures
        find_at(s, p, i) matches Some(k) ==> i <= k && k + p.len() <= s.len() && matches_at(s, p, k)
            && forall|j: int| i <= j < k ==> !matches_at(s, p, j),
        find_at(s, p, i) is None && 0 <= i ==> forall|j: int| i <= j ==> !matches_at(s, p, j),
    decreases s.len() + 1 - i,
{
    if i < 0 || i + p.len() > s.len() {
    } else if matches_at(s, p, i) {
    } else {
        lemma_find_at(s, p, i + 1);
    }
}

/// The first match of `p` in `s`, if any, lies within `s`.
pub proof fn lemma_find(s: Seq<char>, p: Seq<char>)
    ensures
        find(s, p) matches Some(k) ==> 0 <= k && k + p.len() <= s.len() && matches_at(s, p, k)
            && forall|j: int| 0 <= j < k ==> !matches_at(s, p, j),
        find(s, p) is None ==> forall|j: int| 0 <= j ==> !matches_at(s, p, j),
{
    lemma_find_at(s, p, 0);
}

/// A match at `k` with none in `[i, k)` is what `find_at` reports from `i`.
pub proof fn lemma_find_at_first(s: Seq<char>, p: Seq<char>, i: int, k: int)
    requires
        0 <= i <= k,
        matches_at(s, p, k),
        forall|j: int| i <= j < k ==> !matches_at(s, p, j),
    ensures
        find_at(s, p, i) == Some(k),
    decreases k - i,
{
    if i < k {
        lemma_find_at_first(s, p, i + 1, k);
    }
}

/// A match at `k` with none before it is the first match.
pub proof fn lemma_find_first(s: Seq<char>, p: Seq<char>, k: int)
    requires
        0 <= k,
        matches_at(s, p, k),
        forall|j: int| 0 <= j < k ==> !matches_at(s, p, j),
    ensures
        find(s, p) == Some(k),
{
    lemma_find_at_first(s, p, 0, k);
}

/// If `rfind_at` reports a position, `p` occurs there and within `s`.
pub proof fn lemma_rfind_at(s: Seq<char>, p: Seq<char>, i: int)
    ensures
        rfind_at(s, p, i) matches Some(k) ==> 0 <= k <= i && k + p.len() <= s.len()
            && matches_at(s, p, k),
    decreases i + 1,
{
    if i >= 0 && !matches_at(s, p, i) {
        lemma_rfind_at(s, p, i - 1);
    }
}

/// The last match of `p` in `s`, if any, lies within `s`.
pub proof fn lemma_rfind(s: Seq<char>, p: Seq<char>)
    ensures
        rfind(s, p) matches Some(k) ==> 0 <= k && k + p.len() <= s.len() && matches_at(s, p, k),
{
    lemma_rfind_at(s, p, s.len() - p.len());
}

// ---------------------------------------------------------------------------
// Replacement
// ---------------------------------------------------------------------------

/// The suffix of `s` from `i` on, with every non-overlapping occurrence of a
/// non-empty `p` (scanning left to right) replaced by `r`. An empty pattern
/// replaces nothing.
pub open spec fn replace_from(s: Seq<char>, p: Seq<char>, r: Seq<char>, i: int) -> Seq<char>
    decreases s.len() - i,
{
    if i < 0 || i >= s.len() {
        Seq::empty()
    } else if p.len() > 0 && matches_at(s, p, i) {
        r + replace_from(s, p, r, i + p.len())
    } else {
        seq![s[i]] + replace_from(s, p, r, i + 1)
    }
}

/// `s` with every non-overlapping occurrence of `p` replaced by `r`.
pub open spec fn replace_all(s: Seq<char>, p: Seq<char>, r: Seq<char>) -> Seq<char> {
    replace_from(s, p, r, 0)
}

/// Computes `replace_all(s@, p@, r@)`.
pub fn replace_chars(s: &[char], p: &[char], r: &[char]) -> (out: Vec<char>)
    ensures
        out@ == replace_all(s@, p@, r@),
{
    let mut out: Vec<char> = Vec::new();
    let mut i: usize = 0;
    while i < s.len()
        invariant
            i <= s@.len(),
            out@ + replace_from(s@, p@, r@, i as int) == replace_all(s@, p@, r@),
        decreases s@.len() - i,
    {
        if p.len() > 0 && occurs_at(s, p, i) {
            let ghost before = out@;
            append_chars(&mut out, r);
            assert(before + replace_from(s@, p@, r@, i as int) == out@ + replace_from(
                s@,
                p@,
                r@,
                i + p@.len(),
            ));
            i = i + p.len();
        } else {
            let ghost before = out@;
            out.push(s[i]);
            assert(before + replace_from(s@, p@, r@, i as int) == out@ + replace_from(
                s@,
                p@,
                r@,
                i + 1,
            ));
            i = i + 1;
        }
    }
    assert(replace_from(s@, p@, r@, i as int) == Seq::<char>::empty());
    assert(out@ + Seq::<char>::empty() == out@);
    out
}

/// Computes `replace_all(s@, p@, r@)` for a pattern and a replacement given
/// as literals.
pub fn replace_str(s: &[char], p: &str, r: &str) -> (out: Vec<char>)
    ensures
        out@ == replace_all(s@, p@, r@),
{
    let pv = chars_of(p);
    let rv = chars_of(r);
    replace_chars(s, pv.as_slice(), rv.as_slice())
}

/// A pattern that differs from `s` at some offset does not match there.
pub proof fn lemma_mismatch(s: Seq<char>, p: Seq<char>, j: int, k: int)
    requires
        0 <= k < p.len(),
        0 <= j,
        j + k < s.len(),
        s[j + k] != p[k],
    ensures
        !matches_at(s, p, j),
{
    if matches_at(s, p, j) {
        assert(s.subrange(j, j + p.len())[k] == s[j + k]);
    }
}

/// A pattern can only match where its first character occurs.
pub proof fn lemma_match_needs_first(s: Seq<char>, p: Seq<char>, j: int)
    requires
        p.len() > 0,
        matches_at(s, p, j),
    ensures
        s[j] == p[0],
{
    assert(s.subrange(j, j + p.len())[0] == s[j]);
}

/// The `k`-th occurrence, when there is one, is a match within `s`.
pub proof fn lemma_nth_find(s: Seq<char>, p: Seq<char>, k: nat)
    ensures
        nth_find(s, p, k) matches Some(q) ==> 0 <= q && q + p.len() <= s.len() && matches_at(
            s,
            p,
            q,
        ),
    decreases k,
{
    lemma_find(s, p);
    if let Some(f) = find(s, p) {
        if k > 0 {
            let s2 = s.skip(f + p.len());
            lemma_nth_find(s2, p, (k - 1) as nat);
            if let Some(q) = nth_find(s2, p, (k - 1) as nat) {
                assert(s.subrange(f + p.len() + q, f + p.len() + q + p.len()) =~= s2.subrange(
                    q,
                    q + p.len(),
                ));
            }
        }
    }
}

/// Positions without a match are copied by the replacement.
pub proof fn lemma_replace_keep(s: Seq<char>, p: Seq<char>, r: Seq<char>, i: int, m: int)
    requires
        0 <= i <= m <= s.len(),
        forall|j: int| i <= j < m ==> !#[trigger] matches_at(s, p, j),
    ensures
        replace_from(s, p, r, i) == s.subrange(i, m) + replace_from(s, p, r, m),
    decreases m - i,
{
    if i < m {
        assert(!matches_at(s, p, i));
        lemma_replace_keep(s, p, r, i + 1, m);
        assert(s.subrange(i, m) =~= seq![s[i]] + s.subrange(i + 1, m));
    } else {
        assert(s.subrange(i, m) =~= Seq::<char>::empty());
    }
}

/// Text in which the pattern matches nowhere is left as it is.
pub proof fn lemma_replace_unmatched(s: Seq<char>, p: Seq<char>, r: Seq<char>)
    requires
        forall|j: int| 0 <= j < s.len() ==> !#[trigger] matches_at(s, p, j),
    ensures
        replace_all(s, p, r) == s,
{
    lemma_replace_keep(s, p, r, 0, s.len() as int);
    assert(s.subrange(0, s.len() as int) =~= s);
    assert(replace_from(s, p, r, s.len() as int) =~= Seq::<char>::empty());
}

/// A single match, at `x.len()` in `x + p + y`, is the one replacement made.
pub proof fn lemma_replace_single(x: Seq<char>, p: Seq<char>, y: Seq<char>, r: Seq<char>)
    requires
        p.len() > 0,
        forall|j: int|
            0 <= j < (x + p + y).len() && j != x.len() ==> !#[trigger] matches_at(x + p + y, p, j),
    ensures
        replace_all(x + p + y, p, r) == x + r + y,
{
    let s = x + p + y;
    let e = x.len() as int;
    lemma_replace_keep(s, p, r, 0, e);
    assert(s.subrange(e, e + p.len()) =~= p);
    assert(matches_at(s, p, e));
    lemma_replace_keep(s, p, r, e + p.len(), s.len() as int);
    assert(replace_from(s, p, r, s.len() as int) =~= Seq::<char>::empty());
    assert(s.subrange(0, e) =~= x);
    assert(s.subrange(e + p.len(), s.len() as int) =~= y);
}

} // verus!
