//! Orderings of application records and the stable sort used by the list
//! and by the de-duplication.

use vstd::prelude::*;

use crate::models::{method_rank, AppInfo, InstallMethod, SortBy};
use crate::text::{chars_of, lowercase, to_lowercase};

verus! {

/// Lexicographic order of character sequences by code point (the order of
/// `String`'s `Ord`, since UTF-8 preserves code point order).
pub open spec fn lex_lt(a: Seq<char>, b: Seq<char>) -> bool
    decreases a.len(),
{
    if a.len() == 0 {
        b.len() > 0
    } else if b.len() == 0 {
        false
    } else if (a[0] as u32) < (b[0] as u32) {
        true
    } else if (a[0] as u32) > (b[0] as u32) {
        false
    } else {
        lex_lt(a.drop_first(), b.drop_first())
    }
}

pub fn chars_lt(a: &[char], b: &[char]) -> (r: bool)
    ensures
        r == lex_lt(a@, b@),
{
    let n = a.len();
    let m = b.len();
    let mut i: usize = 0;
    assert(a@.skip(0) =~= a@);
    assert(b@.skip(0) =~= b@);
    while i < n && i < m
        invariant
            i <= n == a@.len(),
            i <= m == b@.len(),
            lex_lt(a@, b@) == lex_lt(a@.skip(i as int), b@.skip(i as int)),
        decreases n - i,
    {
        let x = a[i];
        let y = b[i];
        if (x as u32) < (y as u32) {
            return true;
        }
        if (x as u32) > (y as u32) {
            return false;
        }
        assert(a@.skip(i as int).drop_first() =~= a@.skip(i + 1));
        assert(b@.skip(i as int).drop_first() =~= b@.skip(i + 1));
        i = i + 1;
    }
    i < m
}

pub fn str_lt(a: &str, b: &str) -> (r: bool)
    ensures
        r == lex_lt(a@, b@),
{
    chars_lt(&chars_of(a), &chars_of(b))
}

/// `a` sorts strictly before `b` by lowercased name.
pub open spec fn name_lower_lt(a: AppInfo, b: AppInfo) -> bool {
    lex_lt(lowercase(a.name@), lowercase(b.name@))
}

pub fn lower_name_lt(a: &AppInfo, b: &AppInfo) -> (r: bool)
    ensures
        r == name_lower_lt(*a, *b),
{
    let x = to_lowercase(a.name.as_str());
    let y = to_lowercase(b.name.as_str());
    str_lt(x.as_str(), y.as_str())
}

pub open spec fn size_or_zero(a: AppInfo) -> u64 {
    match a.size_bytes {
        Some(s) => s,
        None => 0,
    }
}

/// Order of optional install dates: absent first, then by seconds and
/// nanoseconds.
pub open spec fn date_lt(a: Option<(i64, u32)>, b: Option<(i64, u32)>) -> bool {
    match (a, b) {
        (None, Some(_)) => true,
        (Some(x), Some(y)) => x.0 < y.0 || (x.0 == y.0 && x.1 < y.1),
        _ => false,
    }
}

/// Whether `a` sorts strictly before `b` in the list order `by`:
/// name (case-insensitive, ascending), size (descending), install date
/// (newest first), method (declaration order, then name) or pending update
/// (updates first, then name).
pub open spec fn sorts_before(by: SortBy, a: AppInfo, b: AppInfo) -> bool {
    match by {
        SortBy::Name => name_lower_lt(a, b),
        SortBy::Size => size_or_zero(a) > size_or_zero(b),
        SortBy::InstallDate => date_lt(b.install_date, a.install_date),
        SortBy::Method => method_rank(a.method) < method_rank(b.method) || (a.method
            == b.method && lex_lt(a.name@, b.name@)),
        SortBy::UpdateAvailable => (a.update_available is Some && b.update_available is None)
            || ((a.update_available is Some) == (b.update_available is Some) && lex_lt(
            a.name@,
            b.name@,
        )),
    }
}

fn rank(m: InstallMethod) -> (r: u8)
    ensures
        r == method_rank(m),
{
    match m {
        InstallMethod::Apt => 0,
        InstallMethod::Dnf => 1,
        InstallMethod::Flatpak => 2,
        InstallMethod::Snap => 3,
        InstallMethod::AppImage => 4,
        InstallMethod::Manual => 5,
        InstallMethod::System => 6,
    }
}

fn date_before(a: Option<(i64, u32)>, b: Option<(i64, u32)>) -> (r: bool)
    ensures
        r == date_lt(a, b),
{
    match (a, b) {
        (None, Some(_)) => true,
        (Some(x), Some(y)) => x.0 < y.0 || (x.0 == y.0 && x.1 < y.1),
        _ => false,
    }
}

pub fn app_sorts_before(by: SortBy, a: &AppInfo, b: &AppInfo) -> (r: bool)
    ensures
        r == sorts_before(by, *a, *b),
{
    match by {
        SortBy::Name => lower_name_lt(a, b),
        SortBy::Size => {
            let x = match a.size_bytes {
                Some(s) => s,
                None => 0,
            };
            let y = match b.size_bytes {
                Some(s) => s,
                None => 0,
            };
            x > y
        },
        SortBy::InstallDate => date_before(b.install_date, a.install_date),
        SortBy::Method => {
            let ra = rank(a.method);
            let rb = rank(b.method);
            ra < rb || (a.method == b.method && str_lt(a.name.as_str(), b.name.as_str()))
        },
        SortBy::UpdateAvailable => {
            let ua = a.update_available.is_some();
            let ub = b.update_available.is_some();
            (ua && !ub) || (ua == ub && str_lt(a.name.as_str(), b.name.as_str()))
        },
    }
}

/// `x` inserted into `s` after every element it does not sort strictly
/// before (stable insertion).
pub open spec fn insert_sorted(s: Seq<AppInfo>, x: AppInfo, by: SortBy) -> Seq<AppInfo>
    decreases s.len(),
{
    if s.len() == 0 {
        seq![x]
    } else if sorts_before(by, x, s.last()) {
        insert_sorted(s.drop_last(), x, by).push(s.last())
    } else {
        s.push(x)
    }
}

/// The stable sort of `s` in the order `by` (what `sort_by` gives).
pub open spec fn sorted_by(s: Seq<AppInfo>, by: SortBy) -> Seq<AppInfo>
    decreases s.len(),
{
    if s.len() == 0 {
        s
    } else {
        insert_sorted(sorted_by(s.drop_last(), by), s.last(), by)
    }
}

fn insert_in_order(out: &mut Vec<AppInfo>, x: AppInfo, by: SortBy)
    ensures
        final(out)@ == insert_sorted(old(out)@, x, by),
{
    let mut j = out.len();
    let ghost s = out@;
    assert(s.take(j as int) =~= s);
    assert(s.skip(j as int) =~= Seq::<AppInfo>::empty());
    while j > 0 && app_sorts_before(by, &x, &out[j - 1])
        invariant
            j <= out@.len(),
            out@ == s,
            insert_sorted(s, x, by) == insert_sorted(s.take(j as int), x, by) + s.skip(j as int),
        decreases j,
    {
        assert(s.take(j as int).drop_last() =~= s.take(j - 1));
        assert(s.take(j as int).last() == s[j - 1]);
        assert(s.skip(j - 1) =~= seq![s[j - 1]] + s.skip(j as int));
        assert(insert_sorted(s.take(j - 1), x, by).push(s[j - 1]) + s.skip(j as int)
            =~= insert_sorted(s.take(j - 1), x, by) + s.skip(j - 1));
        j = j - 1;
    }
    assert(s.take(j as int).insert(j as int, x) =~= s.take(j as int).push(x));
    assert(insert_sorted(s.take(j as int), x, by) =~= s.take(j as int).push(x)) by {
        if j == 0 {
            assert(s.take(0) =~= Seq::<AppInfo>::empty());
        } else {
            assert(s.take(j as int).last() == s[j - 1]);
        }
    }
    assert(s.insert(j as int, x) =~= s.take(j as int).push(x) + s.skip(j as int));
    out.insert(j, x);
}

/// Stable sort of application records.
pub fn sort_apps(v: Vec<AppInfo>, by: SortBy) -> (r: Vec<AppInfo>)
    ensures
        r@ == sorted_by(v@, by),
{
    let ghost orig = v@;
    let mut rest = v;
    let mut out: Vec<AppInfo> = Vec::new();
    let n = rest.len();
    let mut k: usize = 0;
    assert(orig.skip(0) =~= orig);
    while k < n
        invariant
            k <= n == orig.len(),
            rest@ == orig.skip(k as int),
            out@ == sorted_by(orig.take(k as int), by),
        decreases n - k,
    {
        let x = rest.remove(0);
        assert(x == orig[k as int]);
        assert(orig.skip(k as int).remove(0) =~= orig.skip(k + 1));
        assert(orig.take(k + 1).drop_last() =~= orig.take(k as int));
        insert_in_order(&mut out, x, by);
        k = k + 1;
    }
    assert(orig.take(n as int) =~= orig);
    out
}

/// Characters with the same code are the same.
proof fn lemma_char_code(x: char, y: char)
    requires
        (x as u32) == (y as u32),
    ensures
        x == y,
{
    assert((x as int) == (x as u32) as int);
}

/// `lex_lt` is irreflexive.
pub proof fn lemma_lex_irreflexive(a: Seq<char>)
    ensures
        !lex_lt(a, a),
    decreases a.len(),
{
    if a.len() > 0 {
        lemma_lex_irreflexive(a.drop_first());
    }
}

/// `lex_lt` is transitive.
pub proof fn lemma_lex_transitive(a: Seq<char>, b: Seq<char>, c: Seq<char>)
    requires
        lex_lt(a, b),
        lex_lt(b, c),
    ensures
        lex_lt(a, c),
    decreases a.len(),
{
    if a.len() > 0 && b.len() > 0 && c.len() > 0 {
        if (a[0] as u32) == (b[0] as u32) && (b[0] as u32) == (c[0] as u32) {
            lemma_lex_transitive(a.drop_first(), b.drop_first(), c.drop_first());
        }
    }
}

/// Two different sequences are ordered one way or the other.
pub proof fn lemma_lex_total(a: Seq<char>, b: Seq<char>)
    ensures
        a == b || lex_lt(a, b) || lex_lt(b, a),
    decreases a.len(),
{
    if a.len() > 0 && b.len() > 0 {
        if (a[0] as u32) == (b[0] as u32) {
            lemma_lex_total(a.drop_first(), b.drop_first());
            if a.drop_first() == b.drop_first() {
                lemma_char_code(a[0], b[0]);
                assert(a[0] == b[0]);
                assert(a =~= seq![a[0]] + a.drop_first());
                assert(b =~= seq![b[0]] + b.drop_first());
            }
        }
    } else if a.len() == 0 && b.len() == 0 {
        assert(a =~= b);
    }
}

/// `lex_lt` is asymmetric.
pub proof fn lemma_lex_asymmetric(a: Seq<char>, b: Seq<char>)
    ensures
        lex_lt(a, b) ==> !lex_lt(b, a),
{
    if lex_lt(a, b) && lex_lt(b, a) {
        lemma_lex_transitive(a, b, a);
        lemma_lex_irreflexive(a);
    }
}

/// "Not below" chains: when `a` is not below `c` and `c` is not below `b`,
/// `a` is not below `b`.
pub proof fn lemma_lex_not_lt_chain(a: Seq<char>, b: Seq<char>, c: Seq<char>)
    requires
        !lex_lt(a, c),
        !lex_lt(c, b),
    ensures
        !lex_lt(a, b),
{
    lemma_lex_total(a, c);
    lemma_lex_total(c, b);
    if lex_lt(a, b) {
        if a == c {
            lemma_lex_asymmetric(a, b);
        } else if c == b {
        } else {
            lemma_lex_transitive(c, a, b);
        }
    }
}

// ---------------------------------------------------------------------------
// Laws of the orders and of the sort.
// ---------------------------------------------------------------------------

proof fn lemma_rank_injective(m1: InstallMethod, m2: InstallMethod)
    ensures
        method_rank(m1) == method_rank(m2) ==> m1 == m2,
{
}

/// Each list order is a strict weak order: no record sorts before itself,
/// two records are never each before the other, and "not before" chains.
pub proof fn lemma_sorts_before_weak_order(by: SortBy, a: AppInfo, b: AppInfo, c: AppInfo)
    ensures
        !sorts_before(by, a, a),
        sorts_before(by, a, b) ==> !sorts_before(by, b, a),
        !sorts_before(by, a, b) && !sorts_before(by, b, c) ==> !sorts_before(by, a, c),
{
    match by {
        SortBy::Name => {
            let (x, y, z) = (lowercase(a.name@), lowercase(b.name@), lowercase(c.name@));
            lemma_lex_irreflexive(x);
            lemma_lex_asymmetric(x, y);
            if !lex_lt(x, y) && !lex_lt(y, z) {
                lemma_lex_not_lt_chain(x, z, y);
            }
        },
        SortBy::Size => {},
        SortBy::InstallDate => {},
        SortBy::Method => {
            lemma_lex_irreflexive(a.name@);
            lemma_lex_asymmetric(a.name@, b.name@);
            lemma_rank_injective(a.method, b.method);
            lemma_rank_injective(b.method, c.method);
            lemma_rank_injective(a.method, c.method);
            if !lex_lt(a.name@, b.name@) && !lex_lt(b.name@, c.name@) {
                lemma_lex_not_lt_chain(a.name@, c.name@, b.name@);
            }
        },
        SortBy::UpdateAvailable => {
            lemma_lex_irreflexive(a.name@);
            lemma_lex_asymmetric(a.name@, b.name@);
            if !lex_lt(a.name@, b.name@) && !lex_lt(b.name@, c.name@) {
                lemma_lex_not_lt_chain(a.name@, c.name@, b.name@);
            }
        },
    }
}

/// No record of `s` sorts before an earlier one.
pub open spec fn is_sorted_by(s: Seq<AppInfo>, by: SortBy) -> bool {
    forall|i: int, j: int| 0 <= i < j < s.len() ==> !sorts_before(by, #[trigger] s[j], #[trigger] s[i])
}

/// Where the stable insertion puts `x`: after a record it does not sort
/// before, and before every later record, which it sorts before.
pub proof fn lemma_insert_sorted_shape(s: Seq<AppInfo>, x: AppInfo, by: SortBy) -> (k: int)
    ensures
        0 <= k <= s.len(),
        insert_sorted(s, x, by) == s.insert(k, x),
        k > 0 ==> !sorts_before(by, x, s[k - 1]),
        forall|i: int| k <= i < s.len() ==> sorts_before(by, x, #[trigger] s[i]),
    decreases s.len(),
{
    if s.len() == 0 {
        assert(s.insert(0, x) =~= seq![x]);
        0
    } else if sorts_before(by, x, s.last()) {
        let t = s.drop_last();
        let k = lemma_insert_sorted_shape(t, x, by);
        assert(t.insert(k, x).push(s.last()) =~= s.insert(k, x));
        assert forall|i: int| k <= i < s.len() implies sorts_before(by, x, #[trigger] s[i]) by {
            if i < t.len() {
                assert(s[i] == t[i]);
            }
        }
        if k > 0 {
            assert(s[k - 1] == t[k - 1]);
        }
        k
    } else {
        assert(s.push(x) =~= s.insert(s.len() as int, x));
        s.len() as int
    }
}

/// The stable insertion keeps a list sorted and adds exactly `x`.
proof fn lemma_insert_sorted(s: Seq<AppInfo>, x: AppInfo, by: SortBy)
    requires
        is_sorted_by(s, by),
    ensures
        is_sorted_by(insert_sorted(s, x, by), by),
        insert_sorted(s, x, by).to_multiset() == s.to_multiset().insert(x),
{
    broadcast use vstd::seq_lib::group_to_multiset_ensures;

    let k = lemma_insert_sorted_shape(s, x, by);
    let r = s.insert(k, x);
    assert forall|i: int, j: int| 0 <= i < j < r.len() implies !sorts_before(
        by,
        #[trigger] r[j],
        #[trigger] r[i],
    ) by {
        if j < k {
            assert(r[i] == s[i] && r[j] == s[j]);
        } else if j == k {
            assert(r[i] == s[i]);
            if i < k - 1 {
                assert(!sorts_before(by, s[k - 1], s[i]));
                lemma_sorts_before_weak_order(by, x, s[k - 1], s[i]);
            }
        } else if i == k {
            assert(r[j] == s[j - 1]);
            assert(sorts_before(by, x, s[j - 1]));
            lemma_sorts_before_weak_order(by, x, s[j - 1], x);
        } else if i < k {
            assert(r[i] == s[i] && r[j] == s[j - 1]);
        } else {
            assert(r[i] == s[i - 1] && r[j] == s[j - 1]);
        }
    }
}

/// The sort of the list: a sorted arrangement of exactly its records.
pub proof fn lemma_sorted_by(s: Seq<AppInfo>, by: SortBy)
    ensures
        is_sorted_by(sorted_by(s, by), by),
        sorted_by(s, by).to_multiset() == s.to_multiset(),
        sorted_by(s, by).len() == s.len(),
    decreases s.len(),
{
    broadcast use vstd::seq_lib::group_to_multiset_ensures;

    if s.len() > 0 {
        lemma_sorted_by(s.drop_last(), by);
        lemma_insert_sorted(sorted_by(s.drop_last(), by), s.last(), by);
        assert(s.drop_last().push(s.last()) =~= s);
    }
    assert(sorted_by(s, by).to_multiset().len() == sorted_by(s, by).len());
    assert(s.to_multiset().len() == s.len());
}


/// The orders the list offers, on the sorted list: by name, no record's
/// lowercased name comes before an earlier one's; by size, sizes never
/// grow (an unknown size counts as 0); by install date, the newest come
/// first and records without a date come last.
pub proof fn lemma_sorted_orders(s: Seq<AppInfo>)
    ensures
        forall|i: int, j: int|
            0 <= i < j < sorted_by(s, SortBy::Name).len() ==> !lex_lt(
                lowercase((#[trigger] sorted_by(s, SortBy::Name)[j]).name@),
                lowercase((#[trigger] sorted_by(s, SortBy::Name)[i]).name@),
            ),
        forall|i: int, j: int|
            0 <= i < j < sorted_by(s, SortBy::Size).len() ==> (match (#[trigger] sorted_by(
                s,
                SortBy::Size,
            )[i]).size_bytes {
                Some(x) => x,
                None => 0,
            }) >= (match (#[trigger] sorted_by(s, SortBy::Size)[j]).size_bytes {
                Some(x) => x,
                None => 0,
            }),
        forall|i: int, j: int|
            0 <= i < j < sorted_by(s, SortBy::InstallDate).len() ==> ({
                let a = (#[trigger] sorted_by(s, SortBy::InstallDate)[i]).install_date;
                let b = (#[trigger] sorted_by(s, SortBy::InstallDate)[j]).install_date;
                &&& a is None ==> b is None
                &&& (a is Some && b is Some) ==> (a.unwrap().0 > b.unwrap().0 || (a.unwrap().0
                    == b.unwrap().0 && a.unwrap().1 >= b.unwrap().1))
            }),
{
    lemma_sorted_by(s, SortBy::Name);
    lemma_sorted_by(s, SortBy::Size);
    lemma_sorted_by(s, SortBy::InstallDate);
    let n = sorted_by(s, SortBy::Name);
    let z = sorted_by(s, SortBy::Size);
    let d = sorted_by(s, SortBy::InstallDate);
    assert forall|i: int, j: int| 0 <= i < j < n.len() implies !lex_lt(
        lowercase((#[trigger] n[j]).name@),
        lowercase((#[trigger] n[i]).name@),
    ) by {
        assert(!sorts_before(SortBy::Name, n[j], n[i]));
    }
    assert forall|i: int, j: int| 0 <= i < j < z.len() implies (match (#[trigger] z[i]).size_bytes {
        Some(x) => x,
        None => 0,
    }) >= (match (#[trigger] z[j]).size_bytes {
        Some(x) => x,
        None => 0,
    }) by {
        assert(!sorts_before(SortBy::Size, z[j], z[i]));
    }
    assert forall|i: int, j: int| 0 <= i < j < d.len() implies ({
        let a = (#[trigger] d[i]).install_date;
        let b = (#[trigger] d[j]).install_date;
        &&& a is None ==> b is None
        &&& (a is Some && b is Some) ==> (a.unwrap().0 > b.unwrap().0 || (a.unwrap().0 == b.unwrap().0
            && a.unwrap().1 >= b.unwrap().1))
    }) by {
        assert(!sorts_before(SortBy::InstallDate, d[j], d[i]));
    }
}

/// The declaration order of the install methods: APT, DNF, Flatpak, Snap,
/// AppImage, manual, system. `a` comes no later than `b`.
pub open spec fn declared_no_later(a: InstallMethod, b: InstallMethod) -> bool {
    match b {
        InstallMethod::Apt => a == InstallMethod::Apt,
        InstallMethod::Dnf => a == InstallMethod::Apt || a == InstallMethod::Dnf,
        InstallMethod::Flatpak => a == InstallMethod::Apt || a == InstallMethod::Dnf || a
            == InstallMethod::Flatpak,
        InstallMethod::Snap => a != InstallMethod::AppImage && a != InstallMethod::Manual && a
            != InstallMethod::System,
        InstallMethod::AppImage => a != InstallMethod::Manual && a != InstallMethod::System,
        InstallMethod::Manual => a != InstallMethod::System,
        InstallMethod::System => true,
    }
}

/// The other two orders on the sorted list: by method, methods follow
/// their declaration order (APT, DNF, Flatpak, Snap, AppImage, manual,
/// system) and, within one method, names do not go down; by pending update,
/// records with an update come first and, among records alike in that,
/// names do not go down.
pub proof fn lemma_sorted_orders_by_group(s: Seq<AppInfo>)
    ensures
        forall|i: int, j: int|
            0 <= i < j < sorted_by(s, SortBy::Method).len() ==> {
                let a = #[trigger] sorted_by(s, SortBy::Method)[i];
                let b = #[trigger] sorted_by(s, SortBy::Method)[j];
                &&& declared_no_later(a.method, b.method)
                &&& a.method == b.method ==> !lex_lt(b.name@, a.name@)
            },
        forall|i: int, j: int|
            0 <= i < j < sorted_by(s, SortBy::UpdateAvailable).len() ==> {
                let a = #[trigger] sorted_by(s, SortBy::UpdateAvailable)[i];
                let b = #[trigger] sorted_by(s, SortBy::UpdateAvailable)[j];
                &&& a.update_available is None ==> b.update_available is None
                &&& (a.update_available is Some) == (b.update_available is Some) ==> !lex_lt(
                    b.name@,
                    a.name@,
                )
            },
{
    lemma_sorted_by(s, SortBy::Method);
    lemma_sorted_by(s, SortBy::UpdateAvailable);
    let m = sorted_by(s, SortBy::Method);
    let u = sorted_by(s, SortBy::UpdateAvailable);
    assert forall|i: int, j: int| 0 <= i < j < m.len() implies {
        let a = #[trigger] m[i];
        let b = #[trigger] m[j];
        &&& declared_no_later(a.method, b.method)
        &&& a.method == b.method ==> !lex_lt(b.name@, a.name@)
    } by {
        assert(!sorts_before(SortBy::Method, m[j], m[i]));
    }
    assert forall|i: int, j: int| 0 <= i < j < u.len() implies {
        let a = #[trigger] u[i];
        let b = #[trigger] u[j];
        &&& a.update_available is None ==> b.update_available is None
        &&& (a.update_available is Some) == (b.update_available is Some) ==> !lex_lt(
            b.name@,
            a.name@,
        )
    } by {
        assert(!sorts_before(SortBy::UpdateAvailable, u[j], u[i]));
    }
}

} // verus!
