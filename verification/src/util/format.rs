//! Human-readable sizes.

use vstd::prelude::*;

use crate::text::{copy_string, push_char};

verus! {

/// The character of a decimal digit.
pub open spec fn digit_char(d: nat) -> char {
    if d == 0 {
        '0'
    } else if d == 1 {
        '1'
    } else if d == 2 {
        '2'
    } else if d == 3 {
        '3'
    } else if d == 4 {
        '4'
    } else if d == 5 {
        '5'
    } else if d == 6 {
        '6'
    } else if d == 7 {
        '7'
    } else if d == 8 {
        '8'
    } else {
        '9'
    }
}

/// The decimal digits of a number, without leading zeros (`0` for zero).
pub open spec fn decimal(n: nat) -> Seq<char>
    decreases n,
{
    if n < 10 {
        seq![digit_char(n)]
    } else {
        decimal(n / 10).push(digit_char(n % 10))
    }
}

fn digit(d: u64) -> (c: char)
    requires
        d < 10,
    ensures
        c == digit_char(d as nat),
{
    match d {
        0 => '0',
        1 => '1',
        2 => '2',
        3 => '3',
        4 => '4',
        5 => '5',
        6 => '6',
        7 => '7',
        8 => '8',
        _ => '9',
    }
}

fn push_decimal(out: &mut String, n: u64)
    ensures
        final(out)@ == old(out)@ + decimal(n as nat),
    decreases n,
{
    if n >= 10 {
        push_decimal(out, n / 10);
    }
    push_char(out, digit(n % 10));
    assert(final(out)@ =~= old(out)@ + decimal(n as nat));
}

/// A number in decimal, as `{}` writes it.
pub fn decimal_text(n: u64) -> (r: String)
    ensures
        r@ == decimal(n as nat),
{
    let mut s = String::new();
    push_decimal(&mut s, n);
    assert(s@ =~= decimal(n as nat));
    s
}

/// `bytes / unit` in tenths, rounded to the nearest tenth, halves to even.
pub open spec fn rounded_tenths(bytes: nat, unit: nat) -> nat
    recommends
        unit > 0,
{
    let q = bytes * 10 / unit;
    let r = bytes * 10 % unit;
    if 2 * r > unit || (2 * r == unit && q % 2 == 1) {
        q + 1
    } else {
        q
    }
}

/// A number of tenths with one decimal place: `12.3`.
pub open spec fn tenths_text(t: nat) -> Seq<char> {
    decimal(t / 10) + seq!['.'] + decimal(t % 10)
}

pub open spec fn kib() -> nat {
    1024
}

pub open spec fn mib() -> nat {
    1024 * 1024
}

pub open spec fn gib() -> nat {
    1024 * 1024 * 1024
}

/// A size as shown to the user: in GB, MB or KB (powers of 1024) with one
/// decimal, from the largest unit it reaches, or in bytes.
pub open spec fn size_text(bytes: nat) -> Seq<char> {
    if bytes >= gib() {
        tenths_text(rounded_tenths(bytes, gib())) + " GB"@
    } else if bytes >= mib() {
        tenths_text(rounded_tenths(bytes, mib())) + " MB"@
    } else if bytes >= kib() {
        tenths_text(rounded_tenths(bytes, kib())) + " KB"@
    } else {
        decimal(bytes) + " B"@
    }
}

fn tenths(bytes: u64, unit: u64) -> (r: u64)
    requires
        1024 <= unit <= 1024 * 1024 * 1024,
    ensures
        r as nat == rounded_tenths(bytes as nat, unit as nat),
{
    let b = bytes as u128;
    let u = unit as u128;
    let q = (b * 10) / u;
    let r = (b * 10) % u;
    let up = 2 * r > u || (2 * r == u && q % 2 == 1);
    let t = if up {
        q + 1
    } else {
        q
    };
    assert(q as int + 1 < 0x1_0000_0000_0000_0000) by (nonlinear_arith)
        requires
            u >= 1024,
            b < 0x1_0000_0000_0000_0000,
            q as int == (b as int * 10) / (u as int),
    {
        assert(q as int * (u as int) <= b as int * 10);
        assert(q as int * 1024 <= q as int * (u as int));
    }
    assert(q as int == (bytes as nat * 10) / (unit as nat));
    assert(r as int == (bytes as nat * 10) % (unit as nat));
    t as u64
}

fn with_suffix(t: u64, suffix: &str) -> (r: String)
    ensures
        r@ == tenths_text(t as nat) + suffix@,
{
    let mut s = decimal_text(t / 10);
    push_char(&mut s, '.');
    push_decimal(&mut s, t % 10);
    s.append(suffix);
    assert(s@ =~= tenths_text(t as nat) + suffix@);
    s
}

/// Formats a size in bytes for display (`245.0 MB`, `11.5 GB`, `512 B`).
pub fn format_size(bytes: u64) -> (r: String)
    ensures
        r@ == size_text(bytes as nat),
{
    let gb: u64 = 1024 * 1024 * 1024;
    let mb: u64 = 1024 * 1024;
    let kb: u64 = 1024;
    if bytes >= gb {
        with_suffix(tenths(bytes, gb), " GB")
    } else if bytes >= mb {
        with_suffix(tenths(bytes, mb), " MB")
    } else if bytes >= kb {
        with_suffix(tenths(bytes, kb), " KB")
    } else {
        let mut s = decimal_text(bytes);
        s.append(" B");
        s
    }
}

} // verus!
