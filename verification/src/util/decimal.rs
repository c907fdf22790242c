//! Decimal numbers written as Rust's `f64::from_str` reads them, scaled by
//! a whole unit and truncated, in exact integer arithmetic.

use vstd::prelude::*;

use crate::text::{all_digits, digits_value, find_first, is_ascii_digit};

verus! {

pub open spec fn pow10(n: nat) -> nat
    decreases n,
{
    if n == 0 {
        1
    } else {
        10 * pow10((n - 1) as nat)
    }
}

pub open spec fn digit_value(c: char) -> nat {
    ((c as nat) - ('0' as nat)) as nat
}

proof fn lemma_pow10_pos(n: nat)
    ensures
        pow10(n) >= 1,
    decreases n,
{
    if n > 0 {
        lemma_pow10_pos((n - 1) as nat);
    }
}

proof fn lemma_pow10_add(a: nat, b: nat)
    ensures
        pow10(a + b) == pow10(a) * pow10(b),
    decreases b,
{
    if b > 0 {
        let b1 = (b - 1) as nat;
        lemma_pow10_add(a, b1);
        assert(a + b == (a + b1) + 1);
        assert(pow10(a + b) == 10 * pow10(a + b1));
        assert(pow10(b) == 10 * pow10(b1));
        let pa = pow10(a);
        let pb1 = pow10(b1);
        assert(pa * (10 * pb1) == 10 * (pa * pb1)) by (nonlinear_arith);
    } else {
        assert(pow10(b) == 1);
        assert(a + b == a);
    }
}

proof fn lemma_pow10_mono(a: nat, b: nat)
    requires
        a <= b,
    ensures
        pow10(a) <= pow10(b),
    decreases b,
{
    if a < b {
        lemma_pow10_mono(a, (b - 1) as nat);
        lemma_pow10_pos((b - 1) as nat);
    }
}

/// The value of a digit string split at `k`: the digits before `k` are
/// worth `10^(len - k)` each unit.
proof fn lemma_digits_split(s: Seq<char>, k: int)
    requires
        0 <= k <= s.len(),
    ensures
        digits_value(s) == digits_value(s.take(k)) * pow10((s.len() - k) as nat) + digits_value(
            s.skip(k),
        ),
    decreases s.len(),
{
    if k == s.len() {
        assert(s.take(k) =~= s);
        assert(s.skip(k) =~= Seq::<char>::empty());
        assert(digits_value(s.skip(k)) == 0);
        assert(pow10((s.len() - k) as nat) == 1);
    } else {
        let t = s.drop_last();
        lemma_digits_split(t, k);
        assert(t.take(k) =~= s.take(k));
        assert(s.skip(k).drop_last() =~= t.skip(k));
        assert(s.skip(k).last() == s.last());
        let a = digits_value(s.take(k));
        let p = pow10((t.len() - k) as nat);
        let b = digits_value(t.skip(k));
        let d = ((s.last() as nat) - ('0' as nat)) as nat;
        assert(digits_value(s) == digits_value(t) * 10 + d);
        assert(digits_value(s.skip(k)) == b * 10 + d);
        assert(digits_value(t) == a * p + b);
        assert(((s.len() - k) as nat) == (t.len() - k) as nat + 1);
        assert(pow10((s.len() - k) as nat) == 10 * p);
        assert((a * p + b) * 10 + d == a * (10 * p) + (b * 10 + d)) by (nonlinear_arith);
        let q = pow10((s.len() - k) as nat);
        assert(a * q == a * (10 * p));
        assert(digits_value(s) == a * q + digits_value(s.skip(k)));
    }
}

/// A string of `n` digits is worth less than `10^n`.
proof fn lemma_digits_bound(s: Seq<char>)
    requires
        all_digits(s),
    ensures
        digits_value(s) < pow10(s.len()),
    decreases s.len(),
{
    if s.len() > 0 {
        let t = s.drop_last();
        assert(all_digits(t)) by {
            assert forall|i: int| 0 <= i < t.len() implies is_ascii_digit(#[trigger] t[i]) by {
                assert(t[i] == s[i]);
            }
        }
        lemma_digits_bound(t);
        assert(is_ascii_digit(s[s.len() - 1]));
        let d = ((s.last() as nat) - ('0' as nat)) as nat;
        assert(d <= 9);
        assert(digits_value(t) + 1 <= pow10(t.len()));
        assert(digits_value(t) * 10 + d < pow10(t.len()) * 10) by (nonlinear_arith)
            requires
                digits_value(t) + 1 <= pow10(t.len()),
                d <= 9,
        ;
    }
}

/// `unit` times the fraction `0.d1 d2 ... dn`, rounded down, computed from
/// the last digit to the first: each step divides by ten.
pub open spec fn frac_scaled(ds: Seq<char>, unit: nat) -> nat
    decreases ds.len(),
{
    if ds.len() == 0 {
        0
    } else {
        (digit_value(ds[0]) * unit + frac_scaled(ds.drop_first(), unit)) / 10
    }
}

proof fn lemma_frac_scaled(ds: Seq<char>, unit: nat)
    ensures
        frac_scaled(ds, unit) == (digits_value(ds) * unit) / pow10(ds.len()),
    decreases ds.len(),
{
    if ds.len() > 0 {
        let rest = ds.drop_first();
        lemma_frac_scaled(rest, unit);
        lemma_digits_split(ds, 1);
        assert(ds.skip(1) =~= rest);
        assert(ds.take(1).drop_last() =~= Seq::<char>::empty());
        assert(ds.take(1).last() == ds[0]);
        assert(digits_value(Seq::<char>::empty()) == 0);
        assert(digits_value(ds.take(1)) == digits_value(ds.take(1).drop_last()) * 10 + ((
        ds.take(1).last() as nat) - ('0' as nat)) as nat);
        assert(digits_value(ds.take(1)) == digit_value(ds[0]));
        let p = pow10(rest.len());
        lemma_pow10_pos(rest.len());
        let x = digits_value(rest) * unit;
        let j = digit_value(ds[0]) * unit;
        assert(digits_value(ds) == digit_value(ds[0]) * p + digits_value(rest));
        assert(digits_value(ds) * unit == x + j * p) by (nonlinear_arith)
            requires
                digits_value(ds) == digit_value(ds[0]) * p + digits_value(rest),
                x == digits_value(rest) * unit,
                j == digit_value(ds[0]) * unit,
        ;
        vstd::arithmetic::div_mod::lemma_hoist_over_denominator(x as int, j as int, p);
        vstd::arithmetic::div_mod::lemma_div_denominator((x + j * p) as int, p as int, 10);
        assert(pow10(ds.len()) == 10 * p);
        assert(p * 10 == 10 * p);
        assert(frac_scaled(rest, unit) == x / p);
        assert(frac_scaled(ds, unit) == (j + x / p) / 10);
        assert(j + x / p == (x + j * p) / p);
        assert(((x + j * p) / p) / 10 == (x + j * p) / (p * 10));
        assert(frac_scaled(ds, unit) == (digits_value(ds) * unit) / (p * 10));
    } else {
        assert(pow10(0) == 1);
        assert(digits_value(ds) == 0);
    }
}

// ---------------------------------------------------------------------------
// The text of a floating-point number.
// ---------------------------------------------------------------------------

/// The sign of a number's text (`-` or an optional `+`) and the text after it.
pub open spec fn signed(t: Seq<char>) -> (bool, Seq<char>) {
    if t.len() > 0 && (t[0] == '+' || t[0] == '-') {
        (t[0] == '-', t.drop_first())
    } else {
        (false, t)
    }
}

/// `s` spells `lo`, each letter in either case (`up` is `lo` in capitals).
pub open spec fn spells(s: Seq<char>, lo: Seq<char>, up: Seq<char>) -> bool {
    &&& s.len() == lo.len()
    &&& forall|i: int| 0 <= i < s.len() ==> (#[trigger] s[i] == lo[i] || s[i] == up[i])
}

pub open spec fn is_infinity_word(b: Seq<char>) -> bool {
    spells(b, "inf"@, "INF"@) || spells(b, "infinity"@, "INFINITY"@)
}

pub open spec fn is_nan_word(b: Seq<char>) -> bool {
    spells(b, "nan"@, "NAN"@)
}

/// Index of the first character that is `c1` or `c2`, or -1.
pub open spec fn first_of(s: Seq<char>, c1: char, c2: char) -> int
    decreases s.len(),
{
    if s.len() == 0 {
        -1
    } else if s[0] == c1 || s[0] == c2 {
        0
    } else if first_of(s.drop_first(), c1, c2) >= 0 {
        first_of(s.drop_first(), c1, c2) + 1
    } else {
        -1
    }
}

proof fn lemma_first_of(s: Seq<char>, c1: char, c2: char)
    ensures
        -1 <= first_of(s, c1, c2) < s.len(),
        first_of(s, c1, c2) >= 0 ==> (s[first_of(s, c1, c2)] == c1 || s[first_of(s, c1, c2)]
            == c2),
        forall|i: int|
            0 <= i < s.len() && (first_of(s, c1, c2) < 0 || i < first_of(s, c1, c2)) ==> #[trigger] s[i]
                != c1 && s[i] != c2,
    decreases s.len(),
{
    if s.len() > 0 {
        lemma_first_of(s.drop_first(), c1, c2);
        assert forall|i: int|
            0 <= i < s.len() && (first_of(s, c1, c2) < 0 || i < first_of(s, c1, c2)) implies #[trigger] s[i]
            != c1 && s[i] != c2 by {
            if i > 0 {
                assert(s[i] == s.drop_first()[i - 1]);
            }
        }
    }
}

/// The number before the exponent.
pub open spec fn mantissa_of(b: Seq<char>) -> Seq<char> {
    let k = first_of(b, 'e', 'E');
    if k >= 0 {
        b.take(k)
    } else {
        b
    }
}

/// The digits before the decimal point.
pub open spec fn int_digits(m: Seq<char>) -> Seq<char> {
    let k = first_of(m, '.', '.');
    if k >= 0 {
        m.take(k)
    } else {
        m
    }
}

/// The digits after the decimal point.
pub open spec fn frac_digits(m: Seq<char>) -> Seq<char> {
    let k = first_of(m, '.', '.');
    if k >= 0 {
        m.skip(k + 1)
    } else {
        Seq::empty()
    }
}

/// A decimal number: digits with an optional decimal point, at least one
/// digit, then optionally `e` or `E`, a sign and at least one digit.
pub open spec fn decimal_syntax(b: Seq<char>) -> bool {
    let m = mantissa_of(b);
    let k = first_of(b, 'e', 'E');
    &&& all_digits(int_digits(m))
    &&& all_digits(frac_digits(m))
    &&& int_digits(m).len() + frac_digits(m).len() >= 1
    &&& k >= 0 ==> {
        let d = signed(b.skip(k + 1)).1;
        d.len() >= 1 && all_digits(d)
    }
}

/// The exponent written after `e`, or 0.
pub open spec fn exponent_of(b: Seq<char>) -> int {
    let k = first_of(b, 'e', 'E');
    if k >= 0 {
        let (neg, d) = signed(b.skip(k + 1));
        if neg {
            -(digits_value(d) as int)
        } else {
            digits_value(d) as int
        }
    } else {
        0
    }
}

/// The text of a floating-point number as `f64::from_str` accepts it: a
/// sign, then `inf`, `infinity` or `nan` in any case, or a decimal number.
pub open spec fn float_text(t: Seq<char>) -> bool {
    let b = signed(t).1;
    is_infinity_word(b) || is_nan_word(b) || decimal_syntax(b)
}

/// A value saturated to the range of `u64`.
pub open spec fn capped(v: nat) -> u64 {
    if v > u64::MAX {
        u64::MAX
    } else {
        v as u64
    }
}

/// `text` units of `unit`, truncated toward zero and saturated to `u64`:
/// negative amounts and NaN give 0, infinity the largest value.
pub open spec fn scaled_amount(t: Seq<char>, unit: nat) -> u64 {
    let (neg, b) = signed(t);
    if is_nan_word(b) {
        0
    } else if is_infinity_word(b) {
        if neg {
            0
        } else {
            u64::MAX
        }
    } else {
        let m = mantissa_of(b);
        let n = digits_value(int_digits(m) + frac_digits(m));
        let e = exponent_of(b) - frac_digits(m).len();
        if neg || n == 0 {
            0
        } else if e >= 0 {
            capped(n * unit * pow10(e as nat))
        } else {
            capped((n * unit) / pow10((-e) as nat))
        }
    }
}

/// The amount a number's text stands for, in units, or `None` when the
/// text is not a number.
pub open spec fn parse_scaled(t: Seq<char>, unit: nat) -> Option<u64> {
    if float_text(t) {
        Some(scaled_amount(t, unit))
    } else {
        None
    }
}

// ---------------------------------------------------------------------------
// Reading the text.
// ---------------------------------------------------------------------------

fn first_of_in(v: &Vec<char>, lo: usize, hi: usize, c1: char, c2: char) -> (r: usize)
    requires
        lo <= hi <= v@.len(),
    ensures
        lo <= r <= hi,
        r < hi ==> r - lo == first_of(v@.subrange(lo as int, hi as int), c1, c2),
        r == hi ==> first_of(v@.subrange(lo as int, hi as int), c1, c2) == -1,
{
    let ghost whole = v@.subrange(lo as int, hi as int);
    let mut i = lo;
    assert(v@.subrange(lo as int, hi as int) =~= whole);
    while i < hi
        invariant
            lo <= i <= hi <= v@.len(),
            whole == v@.subrange(lo as int, hi as int),
            first_of(whole, c1, c2) == (if first_of(v@.subrange(i as int, hi as int), c1, c2) >= 0 {
                first_of(v@.subrange(i as int, hi as int), c1, c2) + (i - lo)
            } else {
                -1
            }),
        decreases hi - i,
    {
        let ghost rest = v@.subrange(i as int, hi as int);
        assert(rest[0] == v@[i as int]);
        assert(rest.drop_first() =~= v@.subrange(i + 1, hi as int));
        if v[i] == c1 || v[i] == c2 {
            return i;
        }
        i = i + 1;
    }
    assert(v@.subrange(hi as int, hi as int) =~= Seq::<char>::empty());
    hi
}

fn all_digits_in(v: &Vec<char>, lo: usize, hi: usize) -> (r: bool)
    requires
        lo <= hi <= v@.len(),
    ensures
        r == all_digits(v@.subrange(lo as int, hi as int)),
{
    let mut i = lo;
    while i < hi
        invariant
            lo <= i <= hi <= v@.len(),
            forall|j: int| lo <= j < i ==> is_ascii_digit(#[trigger] v@[j]),
        decreases hi - i,
    {
        if !('0' <= v[i] && v[i] <= '9') {
            assert(v@.subrange(lo as int, hi as int)[i - lo] == v@[i as int]);
            return false;
        }
        i = i + 1;
    }
    assert forall|j: int| 0 <= j < hi - lo implies is_ascii_digit(
        #[trigger] v@.subrange(lo as int, hi as int)[j],
    ) by {
        assert(v@.subrange(lo as int, hi as int)[j] == v@[lo + j]);
    }
    true
}

pub open spec fn min_nat(a: nat, b: nat) -> nat {
    if a <= b {
        a
    } else {
        b
    }
}

fn digit_at(v: &Vec<char>, i: usize) -> (d: u64)
    requires
        i < v@.len(),
        is_ascii_digit(v@[i as int]),
    ensures
        d as nat == digit_value(v@[i as int]),
        d <= 9,
{
    ((v[i] as u32) - ('0' as u32)) as u64
}

/// The value of the digits in `lo..hi`, or `cap` when it is larger.
fn digits_capped(v: &Vec<char>, lo: usize, hi: usize, cap: u128) -> (r: u128)
    requires
        lo <= hi <= v@.len(),
        all_digits(v@.subrange(lo as int, hi as int)),
        1 <= cap <= 0x1_0000_0000_0000_0000_0000_0000,
    ensures
        r as nat == min_nat(digits_value(v@.subrange(lo as int, hi as int)), cap as nat),
{
    let mut acc: u128 = 0;
    let mut i = lo;
    assert(v@.subrange(lo as int, lo as int) =~= Seq::<char>::empty());
    while i < hi
        invariant
            lo <= i <= hi <= v@.len(),
            all_digits(v@.subrange(lo as int, hi as int)),
            1 <= cap <= 0x1_0000_0000_0000_0000_0000_0000,
            acc as nat == min_nat(digits_value(v@.subrange(lo as int, i as int)), cap as nat),
        decreases hi - i,
    {
        let ghost prev = v@.subrange(lo as int, i as int);
        let ghost next = v@.subrange(lo as int, i + 1);
        assert(next.drop_last() =~= prev);
        assert(next.last() == v@[i as int]);
        assert(v@.subrange(lo as int, hi as int)[i - lo] == v@[i as int]);
        let d = digit_at(v, i);
        assert(digits_value(next) == digits_value(prev) * 10 + d);
        let grown = acc * 10 + (d as u128);
        if grown >= cap {
            acc = cap;
            assert(digits_value(next) >= cap) by (nonlinear_arith)
                requires
                    digits_value(next) == digits_value(prev) * 10 + d,
                    acc as nat == cap,
                    grown == (if digits_value(prev) <= cap { digits_value(prev) } else { cap as nat })
                        * 10 + d,
                    grown >= cap,
            ;
        } else {
            acc = grown;
            assert(digits_value(prev) < cap);
        }
        i = i + 1;
    }
    acc
}

/// `unit` times the fraction written by the digits in `lo..hi`, rounded
/// down.
fn frac_of(v: &Vec<char>, lo: usize, hi: usize, unit: u64) -> (r: u64)
    requires
        lo <= hi <= v@.len(),
        all_digits(v@.subrange(lo as int, hi as int)),
        1 <= unit <= 0x4000_0000,
    ensures
        r as nat == frac_scaled(v@.subrange(lo as int, hi as int), unit as nat),
        r < unit,
{
    let mut a: u64 = 0;
    let mut i = hi;
    assert(v@.subrange(hi as int, hi as int) =~= Seq::<char>::empty());
    while i > lo
        invariant
            lo <= i <= hi <= v@.len(),
            all_digits(v@.subrange(lo as int, hi as int)),
            1 <= unit <= 0x4000_0000,
            a as nat == frac_scaled(v@.subrange(i as int, hi as int), unit as nat),
            a < unit,
        decreases i - lo,
    {
        let ghost cur = v@.subrange(i - 1, hi as int);
        assert(cur.drop_first() =~= v@.subrange(i as int, hi as int));
        assert(cur[0] == v@[i - 1]);
        assert(v@.subrange(lo as int, hi as int)[i - 1 - lo] == v@[i - 1]);
        let d = digit_at(v, i - 1);
        assert(d * unit + a < 10 * unit) by (nonlinear_arith)
            requires
                d <= 9,
                a < unit,
        ;
        let next = (d * unit + a) / 10;
        a = next;
        i = i - 1;
    }
    a
}

fn spells_at(v: &Vec<char>, lo: usize, word: &str, upper: &str) -> (r: bool)
    requires
        lo <= v@.len(),
        word@.len() == upper@.len(),
    ensures
        r == spells(v@.skip(lo as int), word@, upper@),
{
    let w = crate::text::chars_of(word);
    let u = crate::text::chars_of(upper);
    let n = v.len();
    if n - lo != w.len() {
        return false;
    }
    let m = w.len();
    for j in 0..m
        invariant
            m == w@.len() == u@.len() == n - lo,
            n == v@.len(),
            lo <= n,
            w@ == word@,
            u@ == upper@,
            forall|k: int| 0 <= k < j ==> (v@[lo + k] == w@[k] || v@[lo + k] == u@[k]),
    {
        if !(v[lo + j] == w[j] || v[lo + j] == u[j]) {
            assert(v@.skip(lo as int)[j as int] == v@[lo + j]);
            return false;
        }
    }
    assert forall|k: int| 0 <= k < v@.skip(lo as int).len() implies (#[trigger] v@.skip(
        lo as int,
    )[k] == word@[k] || v@.skip(lo as int)[k] == upper@[k]) by {
        assert(v@.skip(lo as int)[k] == v@[lo + k]);
    }
    true
}

proof fn lemma_pow10_big()
    ensures
        pow10(20) > u64::MAX,
        pow10(10) > 0x4000_0000,
{
    reveal_with_fuel(pow10, 21);
}

/// A positive amount scaled by `10^e` with `e >= 20` exceeds `u64`.
proof fn lemma_large_exponent(n: nat, unit: nat, e: nat)
    requires
        n >= 1,
        unit >= 1,
        e >= 20,
    ensures
        n * unit * pow10(e) > u64::MAX,
{
    lemma_pow10_big();
    lemma_pow10_mono(20, e);
    assert(n * unit >= 1) by (nonlinear_arith)
        requires
            n >= 1,
            unit >= 1,
    ;
    assert(n * unit * pow10(e) >= pow10(e)) by (nonlinear_arith)
        requires
            n * unit >= 1,
    ;
}

/// An amount divided by more than ten powers of ten beyond its digits is
/// less than one.
proof fn lemma_tiny(ds: Seq<char>, unit: nat, s: nat)
    requires
        all_digits(ds),
        1 <= unit <= 0x4000_0000,
        s > ds.len() + 10,
    ensures
        (digits_value(ds) * unit) / pow10(s) == 0,
{
    lemma_digits_bound(ds);
    lemma_pow10_big();
    lemma_pow10_add(ds.len(), 10);
    lemma_pow10_mono(ds.len() + 10, s);
    let n = digits_value(ds);
    let p = pow10(ds.len());
    assert(n * unit < p * pow10(10)) by (nonlinear_arith)
        requires
            n < p,
            unit <= 0x4000_0000,
            0x4000_0000 < pow10(10),
    ;
    vstd::arithmetic::div_mod::lemma_basic_div((n * unit) as int, pow10(s) as int);
}

/// `n * unit * 10^e` for `e >= 0`, `n * unit / 10^-e` otherwise, rounded
/// down and saturated.
pub open spec fn scaled_digits(n: nat, unit: nat, e: int) -> u64 {
    if e >= 0 {
        capped(n * unit * pow10(e as nat))
    } else {
        capped((n * unit) / pow10((-e) as nat))
    }
}

/// The digits scaled up by `10^e`.
fn scale_up(ds: &Vec<char>, e: u64, unit: u64) -> (r: u64)
    requires
        all_digits(ds@),
        digits_value(ds@) >= 1,
        1 <= unit <= 0x4000_0000,
    ensures
        r == scaled_digits(digits_value(ds@), unit as nat, e as int),
{
    let ghost nv = digits_value(ds@);
    let ghost un = unit as nat;
    if e >= 20 {
        proof {
            lemma_large_exponent(nv, un, e as nat);
        }
        return u64::MAX;
    }
    let len = ds.len();
    assert(ds@.subrange(0, len as int) =~= ds@);
    let big: u128 = 0x1_0000_0000_0000_0000;
    let ncap = digits_capped(ds, 0, len, big);
    proof {
        lemma_pow10_pos(e as nat);
    }
    if ncap >= big {
        assert(nv * un * pow10(e as nat) >= nv) by (nonlinear_arith)
            requires
                un >= 1,
                pow10(e as nat) >= 1,
        ;
        return u64::MAX;
    }
    assert(ncap == nv);
    assert(ncap * unit < 0x4000_0000_0000_0000_0000_0000) by (nonlinear_arith)
        requires
            ncap < 0x1_0000_0000_0000_0000,
            unit <= 0x4000_0000,
    ;
    let mut w: u128 = ncap * (unit as u128);
    assert(pow10(0) == 1);
    assert(w == nv * un * pow10(0)) by (nonlinear_arith)
        requires
            w == ncap * unit,
            ncap == nv,
            un == unit,
            pow10(0) == 1,
    ;
    if w > u64::MAX as u128 {
        proof {
            lemma_pow10_mono(0, e as nat);
        }
        assert(nv * un * pow10(e as nat) >= nv * un * pow10(0)) by (nonlinear_arith)
            requires
                pow10(e as nat) >= pow10(0),
        ;
        return u64::MAX;
    }
    let mut k: u64 = 0;
    while k < e
        invariant
            0 <= k <= e < 20,
            nv == digits_value(ds@),
            un == unit as nat,
            w <= u64::MAX,
            w == nv * un * pow10(k as nat),
        decreases e - k,
    {
        let grown = w * 10;
        assert(pow10((k + 1) as nat) == 10 * pow10(k as nat));
        assert(grown == nv * un * pow10((k + 1) as nat)) by (nonlinear_arith)
            requires
                grown == w * 10,
                w == nv * un * pow10(k as nat),
                pow10((k + 1) as nat) == 10 * pow10(k as nat),
        ;
        if grown > u64::MAX as u128 {
            proof {
                lemma_pow10_mono((k + 1) as nat, e as nat);
            }
            assert(nv * un * pow10(e as nat) >= nv * un * pow10((k + 1) as nat)) by (nonlinear_arith)
                requires
                    pow10(e as nat) >= pow10((k + 1) as nat),
            ;
            return u64::MAX;
        }
        w = grown;
        k = k + 1;
    }
    w as u64
}

/// The digits scaled down by `10^s`.
fn scale_down(ds: &Vec<char>, s: u128, unit: u64) -> (r: u64)
    requires
        all_digits(ds@),
        s >= 1,
        1 <= unit <= 0x4000_0000,
    ensures
        r == scaled_digits(digits_value(ds@), unit as nat, -(s as int)),
{
    let ghost nv = digits_value(ds@);
    let ghost un = unit as nat;
    let len = ds.len();
    if s > (len as u128) + 10 {
        proof {
            lemma_tiny(ds@, un, s as nat);
        }
        return 0;
    }
    let big: u128 = 0x1_0000_0000_0000_0000;
    if s <= len as u128 {
        let k = len - (s as usize);
        proof {
            lemma_digits_split(ds@, k as int);
            lemma_frac_scaled(ds@.skip(k as int), un);
            lemma_pow10_pos(s as nat);
        }
        assert(ds@.subrange(0, k as int) =~= ds@.take(k as int));
        assert(ds@.subrange(k as int, len as int) =~= ds@.skip(k as int));
        assert(all_digits(ds@.take(k as int)));
        assert(all_digits(ds@.skip(k as int)));
        let h = digits_capped(ds, 0, k, big);
        let ghost hv = digits_value(ds@.take(k as int));
        let ghost lv = digits_value(ds@.skip(k as int));
        let ghost p = pow10(s as nat);
        assert(nv == hv * p + lv);
        assert(nv * un == (lv * un) + (hv * un) * p) by (nonlinear_arith)
            requires
                nv == hv * p + lv,
        ;
        proof {
            vstd::arithmetic::div_mod::lemma_hoist_over_denominator(
                (lv * un) as int,
                (hv * un) as int,
                p,
            );
        }
        assert((nv * un) / p == (lv * un) / p + hv * un);
        if h >= big {
            assert(hv * un >= hv) by (nonlinear_arith)
                requires
                    un >= 1,
            ;
            return u64::MAX;
        }
        let f = frac_of(ds, k, len, unit);
        assert(h * unit < 0x4000_0000_0000_0000_0000_0000) by (nonlinear_arith)
            requires
                h < 0x1_0000_0000_0000_0000,
                unit <= 0x4000_0000,
        ;
        let v = h * (unit as u128) + (f as u128);
        if v > u64::MAX as u128 {
            return u64::MAX;
        }
        v as u64
    } else {
        let z128: u128 = s - (len as u128);
        let z = z128 as usize;
        assert((s as nat) == (len as nat) + (z as nat));
        assert(ds@.subrange(0, len as int) =~= ds@);
        let mut f = frac_of(ds, 0, len, unit);
        let ghost f0 = f as nat;
        proof {
            lemma_frac_scaled(ds@, un);
            lemma_pow10_add(len as nat, z as nat);
            lemma_pow10_pos(len as nat);
            lemma_pow10_pos(z as nat);
            vstd::arithmetic::div_mod::lemma_div_denominator(
                (nv * un) as int,
                pow10(len as nat) as int,
                pow10(z as nat) as int,
            );
        }
        assert(f0 == (nv * un) / pow10(len as nat));
        assert((nv * un) / pow10(s as nat) == f0 / pow10(z as nat));
        let mut t: usize = 0;
        assert(pow10(0) == 1);
        assert(f0 / pow10(0) == f0);
        while t < z
            invariant
                t <= z,
                f as nat == f0 / pow10(t as nat),
                f < unit,
            decreases z - t,
        {
            proof {
                lemma_pow10_pos(t as nat);
                vstd::arithmetic::div_mod::lemma_div_denominator(
                    f0 as int,
                    pow10(t as nat) as int,
                    10,
                );
                assert(pow10((t + 1) as nat) == pow10(t as nat) * 10);
            }
            f = f / 10;
            t = t + 1;
        }
        f
    }
}

fn append_range(x: &Vec<char>, lo: usize, hi: usize, out: &mut Vec<char>)
    requires
        lo <= hi <= x@.len(),
    ensures
        final(out)@ == old(out)@ + x@.subrange(lo as int, hi as int),
{
    let mut i = lo;
    let ghost o = old(out)@;
    while i < hi
        invariant
            lo <= i <= hi <= x@.len(),
            out@ == o + x@.subrange(lo as int, i as int),
        decreases hi - i,
    {
        out.push(x[i]);
        assert(out@ =~= o + x@.subrange(lo as int, i + 1));
        i = i + 1;
    }
}

/// Sign and digits of the exponent text `x[lo..]`, the digits' value
/// capped at 2^70, or `None` when it has no digits or other characters.
fn read_exponent(x: &Vec<char>, lo: usize) -> (r: Option<(bool, u128)>)
    requires
        lo <= x@.len(),
    ensures
        ({
            let (neg, d) = signed(x@.skip(lo as int));
            &&& r is Some <==> (d.len() >= 1 && all_digits(d))
            &&& r matches Some((en, ea)) ==> en == neg && ea as nat == min_nat(
                digits_value(d),
                0x40_0000_0000_0000_0000,
            )
        }),
{
    let n = x.len();
    let dstart: usize = if lo < n && (x[lo] == '+' || x[lo] == '-') {
        lo + 1
    } else {
        lo
    };
    let neg = lo < n && x[lo] == '-';
    let ghost et = x@.skip(lo as int);
    proof {
        if dstart == lo + 1 {
            assert(et.drop_first() =~= x@.subrange(dstart as int, n as int));
        } else {
            assert(et =~= x@.subrange(dstart as int, n as int));
        }
    }
    assert(signed(et) == (neg, x@.subrange(dstart as int, n as int)));
    if dstart >= n || !all_digits_in(x, dstart, n) {
        return None;
    }
    Some((neg, digits_capped(x, dstart, n, 0x40_0000_0000_0000_0000)))
}

/// The amount of digits `ds` with an exponent (its value capped at 2^70)
/// and `fl` digits after the decimal point.
fn amount(
    ds: &Vec<char>,
    exp_neg: bool,
    exp_abs: u128,
    Ghost(exp_value): Ghost<nat>,
    fl: u128,
    unit: u64,
) -> (r: u64)
    requires
        all_digits(ds@),
        digits_value(ds@) >= 1,
        exp_abs as nat == min_nat(exp_value, 0x40_0000_0000_0000_0000),
        fl <= ds@.len() < 0x1_0000_0000_0000_0000,
        1 <= unit <= 0x4000_0000,
    ensures
        r == scaled_digits(
            digits_value(ds@),
            unit as nat,
            (if exp_neg {
                -(exp_value as int)
            } else {
                exp_value as int
            }) - fl,
        ),
{
    let ghost nv = digits_value(ds@);
    let ghost un = unit as nat;
    let ghost e_spec = (if exp_neg {
        -(exp_value as int)
    } else {
        exp_value as int
    }) - fl;
    let cap70: u128 = 0x40_0000_0000_0000_0000;
    if exp_abs >= cap70 {
        if exp_neg {
            proof {
                lemma_tiny(ds@, un, (-e_spec) as nat);
            }
            return 0;
        } else {
            proof {
                lemma_large_exponent(nv, un, e_spec as nat);
            }
            return u64::MAX;
        }
    }
    let signed_exp: i128 = if exp_neg {
        -(exp_abs as i128)
    } else {
        exp_abs as i128
    };
    let e: i128 = signed_exp - (fl as i128);
    assert(e == e_spec);
    if e >= 0 {
        if e >= 20 {
            proof {
                lemma_large_exponent(nv, un, e_spec as nat);
            }
            return u64::MAX;
        }
        return scale_up(ds, e as u64, unit);
    }
    scale_down(ds, (-e) as u128, unit)
}

/// The parts of a decimal number written in `x[start..]`: its digits
/// (before and after the point, together), the exponent's sign and value
/// (capped at 2^70) and the number of digits after the point.
fn decimal_parts(x: &Vec<char>, start: usize) -> (r: Option<(Vec<char>, bool, u128, Ghost<nat>, u128)>)
    requires
        start <= x@.len(),
    ensures
        ({
            let b = x@.skip(start as int);
            let m = mantissa_of(b);
            &&& r is Some <==> decimal_syntax(b)
            &&& r matches Some((ds, en, ea, ev, fl)) ==> {
                &&& ds@ == int_digits(m) + frac_digits(m)
                &&& fl == frac_digits(m).len()
                &&& ea as nat == min_nat(ev@, 0x40_0000_0000_0000_0000)
                &&& exponent_of(b) == (if en {
                    -(ev@ as int)
                } else {
                    ev@ as int
                })
            }
        }),
{
    let n = x.len();
    let ghost b = x@.skip(start as int);
    assert(x@.subrange(start as int, n as int) =~= b);
    let ei = first_of_in(x, start, n, 'e', 'E');
    proof {
        lemma_first_of(b, 'e', 'E');
    }
    let ghost m = mantissa_of(b);
    assert(m =~= x@.subrange(start as int, ei as int));
    let di = first_of_in(x, start, ei, '.', '.');
    proof {
        lemma_first_of(m, '.', '.');
    }
    let frac_lo: usize = if di < ei {
        di + 1
    } else {
        ei
    };
    let ghost ip = int_digits(m);
    let ghost fp = frac_digits(m);
    assert(ip =~= x@.subrange(start as int, di as int));
    assert(fp =~= x@.subrange(frac_lo as int, ei as int));
    if !all_digits_in(x, start, di) || !all_digits_in(x, frac_lo, ei) {
        return None;
    }
    if (di - start) + (ei - frac_lo) == 0 {
        return None;
    }
    assert(ei < n ==> first_of(b, 'e', 'E') == ei - start);
    assert(ei == n ==> first_of(b, 'e', 'E') == -1);
    let (exp_neg, exp_abs) = if ei < n {
        assert(b.skip(ei - start + 1) =~= x@.skip(ei + 1));
        match read_exponent(x, ei + 1) {
            Some(p) => p,
            None => {
                return None;
            },
        }
    } else {
        (false, 0u128)
    };
    let ghost exp_value: nat = if ei < n {
        digits_value(signed(x@.skip(ei + 1)).1)
    } else {
        0
    };
    let mut ds: Vec<char> = Vec::new();
    append_range(x, start, di, &mut ds);
    append_range(x, frac_lo, ei, &mut ds);
    assert(ds@ =~= ip + fp);
    let fl = (ei - frac_lo) as u128;
    Some((ds, exp_neg, exp_abs, Ghost(exp_value), fl))
}

/// The amount of a number's text in units of `unit` (1 to 2^30 bytes), as
/// `(text.parse::<f64>()? * unit as f64) as u64` computes it, but in exact
/// decimal arithmetic.
pub fn scaled_decimal(text: &str, unit: u64) -> (r: Option<u64>)
    requires
        1 <= unit <= 0x4000_0000,
    ensures
        r == parse_scaled(text@, unit as nat),
{
    let x = crate::text::chars_of(text);
    let n = x.len();
    let start: usize = if n > 0 && (x[0] == '+' || x[0] == '-') {
        1
    } else {
        0
    };
    let neg = n > 0 && x[0] == '-';
    let ghost b = x@.skip(start as int);
    assert(signed(text@) == (neg, b)) by {
        if start == 1 {
            assert(x@.drop_first() =~= b);
        } else {
            assert(x@.skip(0) =~= x@);
        }
    }
    proof {
        reveal_strlit("inf");
        reveal_strlit("INF");
        reveal_strlit("infinity");
        reveal_strlit("INFINITY");
        reveal_strlit("nan");
        reveal_strlit("NAN");
    }
    if spells_at(&x, start, "inf", "INF") || spells_at(&x, start, "infinity", "INFINITY") {
        assert(b[0] == 'i' || b[0] == 'I');
        assert(!is_nan_word(b)) by {
            if is_nan_word(b) {
                assert(b[0] == 'n' || b[0] == 'N');
            }
        }
        return Some(
            if neg {
                0
            } else {
                u64::MAX
            },
        );
    }
    if spells_at(&x, start, "nan", "NAN") {
        return Some(0);
    }
    let (ds, exp_neg, exp_abs, exp_value, fl) = match decimal_parts(&x, start) {
        Some(p) => p,
        None => {
            return None;
        },
    };
    let ghost m = mantissa_of(b);
    let ghost digits = int_digits(m) + frac_digits(m);
    assert(all_digits(digits)) by {
        let ip = int_digits(m);
        let fp = frac_digits(m);
        assert forall|k: int| 0 <= k < digits.len() implies is_ascii_digit(#[trigger] digits[k]) by {
            if k < ip.len() {
                assert(digits[k] == ip[k]);
            } else {
                assert(digits[k] == fp[k - ip.len()]);
            }
        }
    }
    let len = ds.len();
    assert(ds@.subrange(0, len as int) =~= ds@);
    let nonzero = digits_capped(&ds, 0, len, 1);
    if neg || nonzero == 0 {
        return Some(0);
    }
    Some(amount(&ds, exp_neg, exp_abs, exp_value, fl, unit))
}

} // verus!
