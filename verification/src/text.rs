//! Character-level text handling shared by the parsers of the library.
//!
//! Every function here works on the `Seq<char>` view of its arguments and
//! states its result over the spec functions of this module.

use vstd::prelude::*;

verus! {

broadcast use vstd::string::group_string_axioms;

// ---------------------------------------------------------------------------
// Character classes and case mappings of std (named results).
// ---------------------------------------------------------------------------

/// What `str::to_lowercase` returns for a string (Unicode lowercase mapping).
pub uninterp spec fn lowercase(s: Seq<char>) -> Seq<char>;

/// What `char::to_lowercase` yields for one character.
pub uninterp spec fn char_lowercase(c: char) -> Seq<char>;

/// What `char::to_uppercase` yields for one character.
pub uninterp spec fn char_uppercase(c: char) -> Seq<char>;

/// Whether `char::is_alphanumeric` holds of a character.
pub uninterp spec fn is_alphanumeric(c: char) -> bool;

/// Whether `char::is_whitespace` holds of a character (Unicode `White_Space`).
pub uninterp spec fn is_whitespace(c: char) -> bool;

pub open spec fn is_ascii_char(c: char) -> bool {
    (c as u32) < 128
}

pub open spec fn ascii_lower(c: char) -> char {
    if 'A' <= c && c <= 'Z' {
        ((c as u32) + 32) as char
    } else {
        c
    }
}

/// A text with its ASCII capitals in lowercase.
pub open spec fn ascii_lowercase(s: Seq<char>) -> Seq<char> {
    s.map_values(|c: char| ascii_lower(c))
}

pub open spec fn ascii_upper(c: char) -> char {
    if 'a' <= c && c <= 'z' {
        ((c as u32) - 32) as char
    } else {
        c
    }
}

pub open spec fn is_ascii_digit(c: char) -> bool {
    '0' <= c && c <= '9'
}

pub open spec fn is_ascii_alphanumeric(c: char) -> bool {
    ('a' <= c && c <= 'z') || ('A' <= c && c <= 'Z') || is_ascii_digit(c)
}

pub open spec fn is_ascii_whitespace_char(c: char) -> bool {
    c == ' ' || ('\t' <= c && c <= '\r')
}

/// `str::to_lowercase`. For ASCII text the result maps `A`..`Z` to `a`..`z`
/// and keeps every other character.
#[verifier::external_body]
pub(crate) fn to_lowercase(s: &str) -> (r: String)
    ensures
        r@ == lowercase(s@),
        vstd::utf8::is_ascii_chars(s@) ==> r@ == ascii_lowercase(s@),
{
    s.to_lowercase()
}

/// `char::to_lowercase`, collected. An ASCII character maps to its ASCII
/// lowercase form.
#[verifier::external_body]
pub(crate) fn char_to_lowercase(c: char) -> (r: Vec<char>)
    ensures
        r@ == char_lowercase(c),
        is_ascii_char(c) ==> r@ == seq![ascii_lower(c)],
{
    c.to_lowercase().collect()
}

/// `char::to_uppercase`, collected. An ASCII character maps to its ASCII
/// uppercase form.
#[verifier::external_body]
pub(crate) fn char_to_uppercase(c: char) -> (r: Vec<char>)
    ensures
        r@ == char_uppercase(c),
        is_ascii_char(c) ==> r@ == seq![ascii_upper(c)],
{
    c.to_uppercase().collect()
}

/// `char::is_alphanumeric`. On ASCII it holds exactly of letters and digits.
#[verifier::external_body]
pub(crate) fn char_is_alphanumeric(c: char) -> (b: bool)
    ensures
        b == is_alphanumeric(c),
        is_ascii_char(c) ==> (b <==> is_ascii_alphanumeric(c)),
{
    c.is_alphanumeric()
}

/// `char::is_whitespace`. On ASCII it holds exactly of the space and of
/// U+0009..=U+000D.
#[verifier::external_body]
pub(crate) fn char_is_whitespace(c: char) -> (b: bool)
    ensures
        b == is_whitespace(c),
        is_ascii_char(c) ==> (b <==> is_ascii_whitespace_char(c)),
{
    c.is_whitespace()
}

/// `String::push`: appends one character.
#[verifier::external_body]
pub(crate) fn push_char(s: &mut String, c: char)
    ensures
        final(s)@ == old(s)@.push(c),
{
    s.push(c);
}

// ---------------------------------------------------------------------------
// Conversions between strings and character vectors.
// ---------------------------------------------------------------------------

pub fn chars_of(s: &str) -> (r: Vec<char>)
    ensures
        r@ == s@,
{
    let mut v: Vec<char> = Vec::new();
    for c in it: s.chars()
        invariant
            it.seq() == s@,
            v@ == it.seq().take(it.index() as int),
    {
        v.push(c);
    }
    v
}

pub fn string_of(v: &[char]) -> (r: String)
    ensures
        r@ == v@,
{
    let mut s = String::new();
    let n = v.len();
    for i in 0..n
        invariant
            n == v@.len(),
            s@ == v@.take(i as int),
    {
        push_char(&mut s, v[i]);
        assert(v@.take(i + 1) =~= v@.take(i as int).push(v@[i as int]));
    }
    assert(v@.take(n as int) =~= v@);
    s
}

pub fn string_of_range(v: &[char], from: usize, to: usize) -> (r: String)
    requires
        from <= to <= v@.len(),
    ensures
        r@ == v@.subrange(from as int, to as int),
{
    let mut s = String::new();
    let mut i = from;
    while i < to
        invariant
            from <= i <= to <= v@.len(),
            s@ == v@.subrange(from as int, i as int),
        decreases to - i,
    {
        push_char(&mut s, v[i]);
        assert(v@.subrange(from as int, i + 1) =~= v@.subrange(from as int, i as int).push(
            v@[i as int],
        ));
        i = i + 1;
    }
    s
}

pub fn copy_string(s: &str) -> (r: String)
    ensures
        r@ == s@,
{
    s.to_string()
}

pub open spec fn opt_view(o: Option<String>) -> Option<Seq<char>> {
    match o {
        Some(s) => Some(s@),
        None => None,
    }
}

pub open spec fn views(v: Seq<String>) -> Seq<Seq<char>> {
    v.map_values(|x: String| x@)
}

pub fn str_eq(a: &str, b: &str) -> (r: bool)
    ensures
        r == (a@ == b@),
{
    let x = chars_of(a);
    let y = chars_of(b);
    chars_eq(&x, &y)
}

pub fn chars_eq(x: &[char], y: &[char]) -> (r: bool)
    ensures
        r == (x@ == y@),
{
    if x.len() != y.len() {
        return false;
    }
    let n = x.len();
    for i in 0..n
        invariant
            n == x@.len(),
            n == y@.len(),
            forall|j: int| 0 <= j < i ==> x@[j] == y@[j],
    {
        if x[i] != y[i] {
            return false;
        }
    }
    assert(x@ =~= y@);
    true
}

// ---------------------------------------------------------------------------
// Prefixes, suffixes and occurrences.
// ---------------------------------------------------------------------------

pub open spec fn starts_with(s: Seq<char>, p: Seq<char>) -> bool {
    p.len() <= s.len() && s.subrange(0, p.len() as int) == p
}

pub open spec fn ends_with(s: Seq<char>, p: Seq<char>) -> bool {
    p.len() <= s.len() && s.subrange(s.len() - p.len(), s.len() as int) == p
}

pub open spec fn occurs_at(s: Seq<char>, p: Seq<char>, i: int) -> bool {
    0 <= i && i + p.len() <= s.len() && s.subrange(i, i + p.len()) == p
}

pub open spec fn contains_seq(s: Seq<char>, p: Seq<char>) -> bool {
    exists|i: int| occurs_at(s, p, i)
}

/// Whether `p` occurs in `x` at position `at`.
pub fn matches_at(x: &[char], p: &[char], at: usize) -> (r: bool)
    ensures
        r == occurs_at(x@, p@, at as int),
{
    if at > x.len() || p.len() > x.len() - at {
        return false;
    }
    let m = p.len();
    let xl = x.len();
    for k in 0..m
        invariant
            m == p@.len(),
            xl == x@.len(),
            at + m <= x@.len(),
            forall|j: int| 0 <= j < k ==> x@[at + j] == p@[j],
    {
        if x[at + k] != p[k] {
            assert(x@.subrange(at as int, at + m)[k as int] != p@[k as int]);
            return false;
        }
    }
    assert(x@.subrange(at as int, at + m) =~= p@);
    true
}

pub fn starts_with_chars(x: &[char], p: &[char]) -> (r: bool)
    ensures
        r == starts_with(x@, p@),
{
    matches_at(x, p, 0)
}

pub fn ends_with_chars(x: &[char], p: &[char]) -> (r: bool)
    ensures
        r == ends_with(x@, p@),
{
    if p.len() > x.len() {
        return false;
    }
    matches_at(x, p, x.len() - p.len())
}

pub fn contains_chars(x: &[char], p: &[char]) -> (r: bool)
    ensures
        r == contains_seq(x@, p@),
{
    if p.len() > x.len() {
        return false;
    }
    let last = x.len() - p.len();
    for i in 0..last
        invariant
            last + p@.len() == x@.len(),
            forall|j: int| 0 <= j < i ==> !occurs_at(x@, p@, j),
    {
        if matches_at(x, p, i) {
            return true;
        }
    }
    if matches_at(x, p, last) {
        return true;
    }
    proof {
        true_false_contains(x@, p@);
    }
    false
}

proof fn true_false_contains(x: Seq<char>, p: Seq<char>)
    requires
        p.len() <= x.len(),
        forall|j: int| 0 <= j <= x.len() - p.len() ==> !occurs_at(x, p, j),
    ensures
        !contains_seq(x, p),
{
}

pub fn str_starts_with(s: &str, p: &str) -> (r: bool)
    ensures
        r == starts_with(s@, p@),
{
    starts_with_chars(&chars_of(s), &chars_of(p))
}

pub fn str_ends_with(s: &str, p: &str) -> (r: bool)
    ensures
        r == ends_with(s@, p@),
{
    ends_with_chars(&chars_of(s), &chars_of(p))
}

pub fn str_contains(s: &str, p: &str) -> (r: bool)
    ensures
        r == contains_seq(s@, p@),
{
    contains_chars(&chars_of(s), &chars_of(p))
}

pub fn str_contains_char(s: &str, c: char) -> (r: bool)
    ensures
        r == s@.contains(c),
{
    let x = chars_of(s);
    let n = x.len();
    for i in 0..n
        invariant
            n == x@.len(),
            x@ == s@,
            forall|j: int| 0 <= j < i ==> x@[j] != c,
    {
        if x[i] == c {
            assert(x@[i as int] == c);
            return true;
        }
    }
    false
}

pub open spec fn strip_prefix(s: Seq<char>, p: Seq<char>) -> Option<Seq<char>> {
    if starts_with(s, p) {
        Some(s.skip(p.len() as int))
    } else {
        None
    }
}

pub open spec fn strip_suffix(s: Seq<char>, p: Seq<char>) -> Option<Seq<char>> {
    if ends_with(s, p) {
        Some(s.take(s.len() - p.len()))
    } else {
        None
    }
}

/// `str::strip_suffix` with a string pattern.
pub fn str_strip_suffix(s: &str, p: &str) -> (r: Option<String>)
    ensures
        opt_view(r) == strip_suffix(s@, p@),
{
    let x = chars_of(s);
    let q = chars_of(p);
    if ends_with_chars(&x, &q) {
        Some(string_of_range(&x, 0, x.len() - q.len()))
    } else {
        None
    }
}

/// `str::strip_prefix` with a string pattern.
pub fn str_strip_prefix(s: &str, p: &str) -> (r: Option<String>)
    ensures
        r matches Some(x) ==> strip_prefix(s@, p@) == Some(x@),
        r is None ==> strip_prefix(s@, p@) is None,
{
    let x = chars_of(s);
    let q = chars_of(p);
    if starts_with_chars(&x, &q) {
        Some(string_of_range(&x, q.len(), x.len()))
    } else {
        None
    }
}

// ---------------------------------------------------------------------------
// Trimming.
// ---------------------------------------------------------------------------

pub open spec fn trim_start(s: Seq<char>) -> Seq<char>
    decreases s.len(),
{
    if s.len() > 0 && is_whitespace(s[0]) {
        trim_start(s.drop_first())
    } else {
        s
    }
}

pub open spec fn trim_end(s: Seq<char>) -> Seq<char>
    decreases s.len(),
{
    if s.len() > 0 && is_whitespace(s.last()) {
        trim_end(s.drop_last())
    } else {
        s
    }
}

/// `str::trim`: both ends lose their Unicode whitespace.
pub open spec fn trim(s: Seq<char>) -> Seq<char> {
    trim_end(trim_start(s))
}

pub open spec fn trim_start_char(s: Seq<char>, c: char) -> Seq<char>
    decreases s.len(),
{
    if s.len() > 0 && s[0] == c {
        trim_start_char(s.drop_first(), c)
    } else {
        s
    }
}

pub open spec fn trim_end_char(s: Seq<char>, c: char) -> Seq<char>
    decreases s.len(),
{
    if s.len() > 0 && s.last() == c {
        trim_end_char(s.drop_last(), c)
    } else {
        s
    }
}

/// `str::trim_matches` with a character pattern.
pub open spec fn trim_char(s: Seq<char>, c: char) -> Seq<char> {
    trim_end_char(trim_start_char(s, c), c)
}

/// `str::trim_end_matches` with a non-empty string pattern: the suffix is
/// removed for as long as it is there.
pub open spec fn trim_end_matches(s: Seq<char>, p: Seq<char>) -> Seq<char>
    decreases s.len(),
{
    if p.len() > 0 && ends_with(s, p) {
        trim_end_matches(s.subrange(0, s.len() - p.len()), p)
    } else {
        s
    }
}

/// Bounds `(i, j)` of `trim(x)` inside `x`.
fn trim_bounds(x: &[char]) -> (r: (usize, usize))
    ensures
        r.0 <= r.1 <= x@.len(),
        trim(x@) == x@.subrange(r.0 as int, r.1 as int),
{
    let n = x.len();
    let mut i: usize = 0;
    assert(x@.skip(0) =~= x@);
    while i < n && char_is_whitespace(x[i])
        invariant
            i <= n == x@.len(),
            trim_start(x@) == trim_start(x@.skip(i as int)),
        decreases n - i,
    {
        assert(x@.skip(i as int).drop_first() =~= x@.skip(i + 1));
        i = i + 1;
    }
    assert(trim_start(x@) == x@.skip(i as int));
    let mut j: usize = n;
    while j > i && char_is_whitespace(x[j - 1])
        invariant
            i <= j <= n == x@.len(),
            trim_start(x@) == x@.skip(i as int),
            trim(x@) == trim_end(x@.subrange(i as int, j as int)),
        decreases j - i,
    {
        assert(x@.subrange(i as int, j as int).drop_last() =~= x@.subrange(i as int, j - 1));
        j = j - 1;
    }
    assert(x@.skip(i as int) =~= x@.subrange(i as int, n as int));
    (i, j)
}

/// `str::trim`.
pub fn str_trim(s: &str) -> (r: String)
    ensures
        r@ == trim(s@),
{
    let x = chars_of(s);
    let (i, j) = trim_bounds(&x);
    string_of_range(&x, i, j)
}

/// `str::trim_matches` with a character pattern.
pub fn str_trim_char(s: &str, c: char) -> (r: String)
    ensures
        r@ == trim_char(s@, c),
{
    let x = chars_of(s);
    let n = x.len();
    let mut i: usize = 0;
    assert(x@.skip(0) =~= x@);
    while i < n && x[i] == c
        invariant
            i <= n == x@.len(),
            trim_start_char(x@, c) == trim_start_char(x@.skip(i as int), c),
        decreases n - i,
    {
        assert(x@.skip(i as int).drop_first() =~= x@.skip(i + 1));
        i = i + 1;
    }
    assert(trim_start_char(x@, c) == x@.skip(i as int));
    let mut j: usize = n;
    while j > i && x[j - 1] == c
        invariant
            i <= j <= n == x@.len(),
            trim_start_char(x@, c) == x@.skip(i as int),
            trim_char(x@, c) == trim_end_char(x@.subrange(i as int, j as int), c),
        decreases j - i,
    {
        assert(x@.subrange(i as int, j as int).drop_last() =~= x@.subrange(i as int, j - 1));
        j = j - 1;
    }
    assert(x@.skip(i as int) =~= x@.subrange(i as int, n as int));
    string_of_range(&x, i, j)
}

/// `str::trim_end_matches` with a non-empty string pattern.
pub fn str_trim_end_matches(s: &str, p: &str) -> (r: String)
    requires
        p@.len() > 0,
    ensures
        r@ == trim_end_matches(s@, p@),
{
    let x = chars_of(s);
    let q = chars_of(p);
    let mut j: usize = x.len();
    assert(x@.subrange(0, j as int) =~= x@);
    while j >= q.len() && matches_at(&x, &q, j - q.len())
        invariant
            j <= x@.len(),
            q@.len() > 0,
            trim_end_matches(x@, q@) == trim_end_matches(x@.subrange(0, j as int), q@),
        decreases j,
    {
        assert(x@.subrange(0, j as int).subrange(j - q@.len(), j as int) =~= x@.subrange(
            j - q@.len(),
            j as int,
        ));
        assert(x@.subrange(0, j as int).subrange(0, j - q@.len()) =~= x@.subrange(
            0,
            j - q@.len(),
        ));
        j = j - q.len();
    }
    if j >= q.len() {
        assert(x@.subrange(0, j as int).subrange(j - q@.len(), j as int) =~= x@.subrange(
            j - q@.len(),
            j as int,
        ));
    }
    string_of_range(&x, 0, j)
}


// ---------------------------------------------------------------------------
// Splitting and joining.
// ---------------------------------------------------------------------------

/// `str::split` with a character separator: always at least one piece.
pub open spec fn split_by(s: Seq<char>, sep: char) -> Seq<Seq<char>>
    decreases s.len(),
{
    if s.len() == 0 {
        seq![Seq::<char>::empty()]
    } else {
        let prev = split_by(s.drop_last(), sep);
        if s.last() == sep {
            prev.push(Seq::<char>::empty())
        } else {
            prev.update(prev.len() - 1, prev.last().push(s.last()))
        }
    }
}

pub proof fn lemma_split_by_len(s: Seq<char>, sep: char)
    ensures
        split_by(s, sep).len() >= 1,
    decreases s.len(),
{
    if s.len() > 0 {
        lemma_split_by_len(s.drop_last(), sep);
    }
}

/// A text without the separator is a single piece.
pub proof fn lemma_split_by_whole(x: Seq<char>, sep: char)
    requires
        !x.contains(sep),
    ensures
        split_by(x, sep) == seq![x],
    decreases x.len(),
{
    if x.len() > 0 {
        let t = x.drop_last();
        assert(!t.contains(sep)) by {
            if t.contains(sep) {
                let i = choose|i: int| 0 <= i < t.len() && t[i] == sep;
                assert(x[i] == sep);
            }
        }
        lemma_split_by_whole(t, sep);
        assert(x.last() != sep) by {
            assert(x[x.len() - 1] == x.last());
        }
        assert(t.push(x.last()) =~= x);
    } else {
        assert(x =~= Seq::<char>::empty());
    }
}

/// A separator and a piece without it, put after a text, add that piece
/// to the text's pieces.
pub proof fn lemma_split_by_field(y: Seq<char>, x: Seq<char>, sep: char)
    requires
        !x.contains(sep),
    ensures
        split_by(y + seq![sep] + x, sep) == split_by(y, sep).push(x),
    decreases x.len(),
{
    lemma_split_by_len(y, sep);
    if x.len() == 0 {
        assert(y + seq![sep] + x =~= y.push(sep));
        assert((y + seq![sep] + x).drop_last() =~= y);
        assert(x =~= Seq::<char>::empty());
    } else {
        let t = x.drop_last();
        assert(!t.contains(sep)) by {
            if t.contains(sep) {
                let i = choose|i: int| 0 <= i < t.len() && t[i] == sep;
                assert(x[i] == sep);
            }
        }
        lemma_split_by_field(y, t, sep);
        assert((y + seq![sep] + x).drop_last() =~= y + seq![sep] + t);
        assert((y + seq![sep] + x).last() == x.last());
        assert(x.last() != sep) by {
            assert(x[x.len() - 1] == x.last());
        }
        assert(t.push(x.last()) =~= x);
        assert(split_by(y, sep).push(t).update(split_by(y, sep).len() as int, x) =~= split_by(
            y,
            sep,
        ).push(x));
    }
}

pub open spec fn strip_cr(l: Seq<char>) -> Seq<char> {
    if l.len() > 0 && l.last() == '\r' {
        l.drop_last()
    } else {
        l
    }
}

/// `str::lines`: pieces between `\n`; a `\r` right before a `\n` is dropped;
/// a final `\n` ends the last line and does not start an empty one.
pub open spec fn lines(s: Seq<char>) -> Seq<Seq<char>> {
    if s.len() == 0 {
        Seq::empty()
    } else if s.last() == '\n' {
        split_by(s.drop_last(), '\n').map_values(|l: Seq<char>| strip_cr(l))
    } else {
        let p = split_by(s, '\n');
        p.drop_last().map_values(|l: Seq<char>| strip_cr(l)).push(p.last())
    }
}

/// `str::split` with a character separator.
pub fn str_split_char(s: &str, sep: char) -> (r: Vec<String>)
    ensures
        views(r@) == split_by(s@, sep),
{
    let x = chars_of(s);
    let n = x.len();
    let mut parts: Vec<String> = Vec::new();
    let mut cur: Vec<char> = Vec::new();
    for i in 0..n
        invariant
            n == x@.len(),
            x@ == s@,
            views(parts@).push(cur@) == split_by(x@.take(i as int), sep),
    {
        let c = x[i];
        proof {
            assert(x@.take(i + 1).drop_last() =~= x@.take(i as int));
            lemma_split_by_len(x@.take(i as int), sep);
        }
        if c == sep {
            let piece = string_of(&cur);
            parts.push(piece);
            cur = Vec::new();
            assert(views(parts@).push(cur@) =~= split_by(x@.take(i + 1), sep));
        } else {
            let ghost old_cur = cur@;
            cur.push(c);
            assert(views(parts@).push(cur@) =~= split_by(x@.take(i + 1), sep));
        }
    }
    let piece = string_of(&cur);
    parts.push(piece);
    assert(x@.take(n as int) =~= x@);
    assert(views(parts@) =~= split_by(x@, sep));
    parts
}

/// `str::lines`.
pub fn str_lines(s: &str) -> (r: Vec<String>)
    ensures
        views(r@) == lines(s@),
{
    let x = chars_of(s);
    let n = x.len();
    if n == 0 {
        let r: Vec<String> = Vec::new();
        assert(views(r@) =~= lines(s@));
        return r;
    }
    let mut parts = str_split_char(s, '\n');
    let ends_nl = x[n - 1] == '\n';
    proof {
        lemma_split_by_len(s@, '\n');
        if ends_nl {
            assert(s@.drop_last() =~= s@.take(n - 1));
        }
    }
    let total = parts.len();
    let keep_last_raw = !ends_nl;
    let limit = if ends_nl { total - 1 } else { total - 1 };
    let ghost p = views(parts@);
    let mut out: Vec<String> = Vec::new();
    for i in 0..limit
        invariant
            limit == total - 1,
            total == parts@.len(),
            views(parts@) == p,
            p == split_by(s@, '\n'),
            views(out@) == p.take(i as int).map_values(|l: Seq<char>| strip_cr(l)),
    {
        let line = &parts[i];
        let lc = chars_of(line.as_str());
        let m = lc.len();
        let fixed = if m > 0 && lc[m - 1] == '\r' {
            string_of_range(&lc, 0, m - 1)
        } else {
            string_of(&lc)
        };
        assert(fixed@ == strip_cr(p[i as int]));
        proof {
            assert(p[i as int] == parts@[i as int]@);
            if m > 0 && lc@[m - 1] == '\r' {
                assert(lc@.subrange(0, m - 1) =~= lc@.drop_last());
            }
        }
        let ghost prev = views(out@);
        let ghost fv = fixed@;
        out.push(fixed);
        assert(views(out@) =~= prev.push(fv));
        assert(p.take(i + 1).map_values(|l: Seq<char>| strip_cr(l)) =~= p.take(
            i as int,
        ).map_values(|l: Seq<char>| strip_cr(l)).push(strip_cr(p[i as int])));
    }
    if keep_last_raw {
        let last = parts.pop().unwrap();
        out.push(last);
        assert(views(out@) =~= lines(s@));
    } else {
        proof {
            assert(split_by(s@, '\n') == split_by(s@.drop_last(), '\n').push(Seq::<char>::empty()));
            assert(p.take(limit as int) =~= split_by(s@.drop_last(), '\n'));
        }
        assert(views(out@) =~= lines(s@));
    }
    out
}

/// State of `str::split_whitespace` after a prefix: finished words and the
/// word being read.
pub open spec fn ws_split(s: Seq<char>) -> (Seq<Seq<char>>, Seq<char>)
    decreases s.len(),
{
    if s.len() == 0 {
        (Seq::empty(), Seq::empty())
    } else {
        let (words, cur) = ws_split(s.drop_last());
        if is_whitespace(s.last()) {
            if cur.len() > 0 {
                (words.push(cur), Seq::empty())
            } else {
                (words, Seq::empty())
            }
        } else {
            (words, cur.push(s.last()))
        }
    }
}

/// `str::split_whitespace`: the non-empty runs of non-whitespace characters.
pub open spec fn split_whitespace(s: Seq<char>) -> Seq<Seq<char>> {
    let (words, cur) = ws_split(s);
    if cur.len() > 0 {
        words.push(cur)
    } else {
        words
    }
}

/// `str::split_whitespace`.
pub fn str_split_whitespace(s: &str) -> (r: Vec<String>)
    ensures
        views(r@) == split_whitespace(s@),
{
    let x = chars_of(s);
    let n = x.len();
    let mut words: Vec<String> = Vec::new();
    let mut cur: Vec<char> = Vec::new();
    for i in 0..n
        invariant
            n == x@.len(),
            x@ == s@,
            (views(words@), cur@) == ws_split(x@.take(i as int)),
    {
        let c = x[i];
        assert(x@.take(i + 1).drop_last() =~= x@.take(i as int));
        if char_is_whitespace(c) {
            if cur.len() > 0 {
                let w = string_of(&cur);
                words.push(w);
                cur = Vec::new();
                assert(views(words@) =~= ws_split(x@.take(i + 1)).0);
            }
        } else {
            cur.push(c);
        }
        assert((views(words@), cur@) =~= ws_split(x@.take(i + 1)));
    }
    assert(x@.take(n as int) =~= x@);
    if cur.len() > 0 {
        let w = string_of(&cur);
        words.push(w);
    }
    assert(views(words@) =~= split_whitespace(s@));
    words
}

/// Index of the first `c` in `s`, or -1.
pub open spec fn find_first(s: Seq<char>, c: char) -> int
    decreases s.len(),
{
    if s.len() == 0 {
        -1
    } else {
        let k = find_first(s.drop_last(), c);
        if k >= 0 {
            k
        } else if s.last() == c {
            s.len() - 1
        } else {
            -1
        }
    }
}

/// Index of the last `c` in `s`, or -1.
pub open spec fn find_last(s: Seq<char>, c: char) -> int
    decreases s.len(),
{
    if s.len() == 0 {
        -1
    } else if s.last() == c {
        s.len() - 1
    } else {
        find_last(s.drop_last(), c)
    }
}

pub proof fn lemma_find_first_bounds(s: Seq<char>, c: char)
    ensures
        -1 <= find_first(s, c) < s.len(),
        find_first(s, c) >= 0 ==> s[find_first(s, c)] == c,
        forall|j: int| 0 <= j < s.len() && (find_first(s, c) < 0 || j < find_first(s, c))
            ==> s[j] != c,
    decreases s.len(),
{
    if s.len() > 0 {
        let t = s.drop_last();
        lemma_find_first_bounds(t, c);
        assert forall|j: int|
            0 <= j < s.len() && (find_first(s, c) < 0 || j < find_first(s, c)) implies s[j]
            != c by {
            if j < s.len() - 1 {
                assert(s[j] == t[j]);
            }
        }
    }
}

pub proof fn lemma_find_last_bounds(s: Seq<char>, c: char)
    ensures
        -1 <= find_last(s, c) < s.len(),
        find_last(s, c) >= 0 ==> s[find_last(s, c)] == c,
    decreases s.len(),
{
    if s.len() > 0 {
        lemma_find_last_bounds(s.drop_last(), c);
    }
}

/// `str::split_once` with a character: text before and after the first `c`.
pub open spec fn split_once(s: Seq<char>, c: char) -> Option<(Seq<char>, Seq<char>)> {
    let k = find_first(s, c);
    if k >= 0 {
        Some((s.take(k), s.skip(k + 1)))
    } else {
        None
    }
}

/// `str::rsplit_once` with a character: text before and after the last `c`.
pub open spec fn rsplit_once(s: Seq<char>, c: char) -> Option<(Seq<char>, Seq<char>)> {
    let k = find_last(s, c);
    if k >= 0 {
        Some((s.take(k), s.skip(k + 1)))
    } else {
        None
    }
}

fn find_first_index(x: &[char], c: char) -> (r: Option<usize>)
    ensures
        r matches Some(k) ==> k == find_first(x@, c),
        r is None ==> find_first(x@, c) == -1,
{
    let n = x.len();
    for i in 0..n
        invariant
            n == x@.len(),
            find_first(x@.take(i as int), c) == -1,
    {
        assert(x@.take(i + 1).drop_last() =~= x@.take(i as int));
        if x[i] == c {
            proof {
                lemma_find_first_prefix(x@, c, i as int + 1);
            }
            return Some(i);
        }
    }
    assert(x@.take(n as int) =~= x@);
    None
}

/// A first occurrence inside a prefix is the first occurrence of the whole.
proof fn lemma_find_first_prefix(s: Seq<char>, c: char, k: int)
    requires
        0 <= k <= s.len(),
        find_first(s.take(k), c) >= 0,
    ensures
        find_first(s, c) == find_first(s.take(k), c),
    decreases s.len() - k,
{
    if k < s.len() {
        assert(s.take(k + 1).drop_last() =~= s.take(k));
        lemma_find_first_prefix(s, c, k + 1);
    } else {
        assert(s.take(k) =~= s);
    }
}

fn find_last_index(x: &[char], c: char) -> (r: Option<usize>)
    ensures
        r matches Some(k) ==> k == find_last(x@, c),
        r is None ==> find_last(x@, c) == -1,
{
    let n = x.len();
    let mut found: Option<usize> = None;
    for i in 0..n
        invariant
            n == x@.len(),
            found matches Some(k) ==> k == find_last(x@.take(i as int), c),
            found is None ==> find_last(x@.take(i as int), c) == -1,
    {
        assert(x@.take(i + 1).drop_last() =~= x@.take(i as int));
        if x[i] == c {
            found = Some(i);
        }
    }
    assert(x@.take(n as int) =~= x@);
    found
}

/// `str::split_once` with a character.
pub fn str_split_once(s: &str, c: char) -> (r: Option<(String, String)>)
    ensures
        r matches Some(p) ==> split_once(s@, c) == Some((p.0@, p.1@)),
        r is None ==> split_once(s@, c) is None,
{
    let x = chars_of(s);
    match find_first_index(&x, c) {
        Some(k) => {
            proof {
                lemma_find_first_bounds(x@, c);
            }
            let n = x.len();
            let a = string_of_range(&x, 0, k);
            let b = string_of_range(&x, k + 1, n);
            assert(a@ =~= x@.take(k as int));
            assert(b@ =~= x@.skip(k + 1));
            Some((a, b))
        },
        None => None,
    }
}

/// `str::rsplit_once` with a character.
pub fn str_rsplit_once(s: &str, c: char) -> (r: Option<(String, String)>)
    ensures
        r matches Some(p) ==> rsplit_once(s@, c) == Some((p.0@, p.1@)),
        r is None ==> rsplit_once(s@, c) is None,
{
    let x = chars_of(s);
    match find_last_index(&x, c) {
        Some(k) => {
            proof {
                lemma_find_last_bounds(x@, c);
            }
            let n = x.len();
            let a = string_of_range(&x, 0, k);
            let b = string_of_range(&x, k + 1, n);
            assert(a@ =~= x@.take(k as int));
            assert(b@ =~= x@.skip(k + 1));
            Some((a, b))
        },
        None => None,
    }
}

pub open spec fn replace_char(s: Seq<char>, from: char, to: char) -> Seq<char> {
    s.map_values(|c: char| if c == from { to } else { c })
}

/// `str::replace` with character pattern and replacement.
pub fn str_replace_char(s: &str, from: char, to: char) -> (r: String)
    ensures
        r@ == replace_char(s@, from, to),
{
    let x = chars_of(s);
    let n = x.len();
    let mut out = String::new();
    for i in 0..n
        invariant
            n == x@.len(),
            x@ == s@,
            out@ == replace_char(x@.take(i as int), from, to),
    {
        let c = x[i];
        if c == from {
            push_char(&mut out, to);
        } else {
            push_char(&mut out, c);
        }
        assert(out@ =~= replace_char(x@.take(i + 1), from, to));
    }
    assert(x@.take(n as int) =~= x@);
    out
}

/// `str::replace` with a non-empty string pattern: occurrences are replaced
/// from left to right without overlapping.
pub open spec fn replace_all(s: Seq<char>, p: Seq<char>, r: Seq<char>) -> Seq<char>
    decreases s.len(),
{
    if p.len() == 0 || s.len() < p.len() {
        s
    } else if s.subrange(0, p.len() as int) == p {
        r + replace_all(s.skip(p.len() as int), p, r)
    } else {
        seq![s[0]] + replace_all(s.drop_first(), p, r)
    }
}

/// `str::replace` with a non-empty string pattern.
pub fn str_replace(s: &str, p: &str, rep: &str) -> (r: String)
    requires
        p@.len() > 0,
    ensures
        r@ == replace_all(s@, p@, rep@),
{
    let x = chars_of(s);
    let q = chars_of(p);
    let n = x.len();
    let mut out = String::new();
    let mut i: usize = 0;
    assert(x@.skip(0) =~= x@);
    while i < n
        invariant
            i <= n == x@.len(),
            q@ == p@,
            q@.len() > 0,
            out@ + replace_all(x@.skip(i as int), q@, rep@) == replace_all(x@, q@, rep@),
        decreases n - i,
    {
        let ghost rest = x@.skip(i as int);
        if matches_at(&x, &q, i) {
            assert(rest.subrange(0, q@.len() as int) =~= x@.subrange(i as int, i + q@.len()));
            assert(rest.skip(q@.len() as int) =~= x@.skip(i + q@.len()));
            out.append(rep);
            assert(out@ + replace_all(x@.skip(i + q@.len()), q@, rep@) =~= replace_all(
                x@,
                q@,
                rep@,
            ));
            i = i + q.len();
        } else {
            proof {
                if rest.len() >= q@.len() {
                    assert(rest.subrange(0, q@.len() as int) =~= x@.subrange(
                        i as int,
                        i + q@.len(),
                    ));
                }
            }
            assert(rest.drop_first() =~= x@.skip(i + 1));
            push_char(&mut out, x[i]);
            assert(out@ + replace_all(x@.skip(i + 1), q@, rep@) =~= replace_all(
                x@,
                q@,
                rep@,
            ));
            i = i + 1;
        }
    }
    assert(x@.skip(n as int) =~= Seq::<char>::empty());
    assert(out@ + replace_all(x@.skip(n as int), q@, rep@) =~= out@);
    out
}

/// `[String]::join`.
pub open spec fn join(parts: Seq<Seq<char>>, sep: Seq<char>) -> Seq<char>
    decreases parts.len(),
{
    if parts.len() == 0 {
        Seq::empty()
    } else if parts.len() == 1 {
        parts[0]
    } else {
        join(parts.drop_last(), sep) + sep + parts.last()
    }
}

/// `[String]::join`.
pub fn join_strings(parts: &Vec<String>, sep: &str) -> (r: String)
    ensures
        r@ == join(views(parts@), sep@),
{
    let mut out = String::new();
    let n = parts.len();
    for i in 0..n
        invariant
            n == parts@.len(),
            out@ == join(views(parts@).take(i as int), sep@),
    {
        assert(views(parts@).take(i + 1).drop_last() =~= views(parts@).take(i as int));
        if i > 0 {
            out.append(sep);
        }
        out.append(parts[i].as_str());
        assert(out@ =~= join(views(parts@).take(i + 1), sep@));
    }
    assert(views(parts@).take(n as int) =~= views(parts@));
    out
}

// ---------------------------------------------------------------------------
// Numbers.
// ---------------------------------------------------------------------------

pub open spec fn all_digits(s: Seq<char>) -> bool {
    forall|i: int| 0 <= i < s.len() ==> is_ascii_digit(#[trigger] s[i])
}

pub open spec fn digits_value(s: Seq<char>) -> nat
    decreases s.len(),
{
    if s.len() == 0 {
        0
    } else {
        digits_value(s.drop_last()) * 10 + ((s.last() as nat) - ('0' as nat)) as nat
    }
}

/// `u64::from_str`: an optional `+` followed by at least one ASCII digit,
/// with a value that fits in 64 bits.
pub open spec fn parse_u64(s: Seq<char>) -> Option<u64> {
    let d = if s.len() > 0 && s[0] == '+' {
        s.drop_first()
    } else {
        s
    };
    if d.len() > 0 && all_digits(d) && digits_value(d) <= u64::MAX {
        Some(digits_value(d) as u64)
    } else {
        None
    }
}

proof fn lemma_digits_value_mono(s: Seq<char>, k: int)
    requires
        0 <= k <= s.len(),
        all_digits(s),
    ensures
        digits_value(s.take(k)) <= digits_value(s),
    decreases s.len() - k,
{
    if k < s.len() {
        assert(s.take(k + 1).drop_last() =~= s.take(k));
        lemma_digits_value_mono(s, k + 1);
    } else {
        assert(s.take(k) =~= s);
    }
}

/// `u64::from_str`.
pub fn str_parse_u64(s: &str) -> (r: Option<u64>)
    ensures
        r == parse_u64(s@),
{
    let x = chars_of(s);
    let n = x.len();
    let start: usize = if n > 0 && x[0] == '+' { 1 } else { 0 };
    let ghost d = if s@.len() > 0 && s@[0] == '+' { s@.drop_first() } else { s@ };
    assert(d =~= x@.skip(start as int));
    if start >= n {
        return None;
    }
    let mut i = start;
    while i < n
        invariant
            start <= i <= n == x@.len(),
            x@ == s@,
            d == (if s@.len() > 0 && s@[0] == '+' { s@.drop_first() } else { s@ }),
            d == x@.skip(start as int),
            forall|j: int| start <= j < i ==> is_ascii_digit(#[trigger] x@[j]),
        decreases n - i,
    {
        if !('0' <= x[i] && x[i] <= '9') {
            assert(d[i - start] == x@[i as int]);
            assert(!is_ascii_digit(d[i - start]));
            return None;
        }
        i = i + 1;
    }
    assert(all_digits(d)) by {
        assert forall|j: int| 0 <= j < d.len() implies is_ascii_digit(#[trigger] d[j]) by {
            assert(d[j] == x@[j + start]);
        }
    }
    let mut value: u64 = 0;
    let mut k = start;
    while k < n
        invariant
            start <= k <= n == x@.len(),
            x@ == s@,
            d == (if s@.len() > 0 && s@[0] == '+' { s@.drop_first() } else { s@ }),
            d == x@.skip(start as int),
            all_digits(d),
            value == digits_value(d.take(k - start)),
        decreases n - k,
    {
        assert(d[k - start] == x@[k as int]);
        assert(is_ascii_digit(d[k - start]));
        let digit = ((x[k] as u32) - ('0' as u32)) as u64;
        assert(d.take(k - start + 1).drop_last() =~= d.take(k - start));
        assert(d.take(k - start + 1).last() == x@[k as int]);
        match value.checked_mul(10) {
            Some(v10) => match v10.checked_add(digit) {
                Some(v) => {
                    value = v;
                    k = k + 1;
                },
                None => {
                    proof {
                        lemma_digits_value_mono(d, k - start + 1);
                    }
                    return None;
                },
            },
            None => {
                proof {
                    lemma_digits_value_mono(d, k - start + 1);
                }
                return None;
            },
        }
    }
    assert(d.take(n - start) =~= d);
    Some(value)
}

} // verus!
