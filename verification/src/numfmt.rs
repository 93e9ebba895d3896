//! Decimal rendering of unsigned byte counts.
//!
//! Sizes are shown in binary units (GiB-style "GB" and MiB-style "MB") with
//! two decimal places. To keep the arithmetic exact, a quantity of bytes is
//! first scaled to rounded hundredths of the chosen unit and then printed as
//! `<whole>.<two digits>`.

use vstd::prelude::*;
use vstd::string::*;

verus! {

/// The decimal digit character for a value below ten.
pub open spec fn digit_char(d: nat) -> char {
    if d == 0 {
        '0'
    } else if d == 1 {
        '1'
    } else if d == 2 {
        '2'
    } else if d == 3 {
        '3'
    } else if d == 4 {
        '4'
    } else if d == 5 {
        '5'
    } else if d == 6 {
        '6'
    } else if d == 7 {
        '7'
    } else if d == 8 {
        '8'
    } else {
        '9'
    }
}

/// The usual base-ten rendering of `n`, with no leading zeros
/// (a single `'0'` for zero itself).
pub open spec fn dec_str(n: nat) -> Seq<char>
    decreases n,
{
    if n < 10 {
        seq![digit_char(n)]
    } else {
        dec_str(n / 10) + seq![digit_char(n % 10)]
    }
}

/// `n` hundredths rendered as `<whole>.<two digits>`.
pub open spec fn fixed2_str(n: nat) -> Seq<char> {
    dec_str(n / 100) + seq!['.'] + seq![digit_char((n / 10) % 10)] + seq![digit_char(n % 10)]
}

/// `bytes / unit` in rounded (half away from zero) hundredths of a unit.
pub open spec fn scaled_hundredths(bytes: nat, unit: nat) -> nat
    recommends
        unit >= 2,
{
    (bytes / unit) * 100 + ((bytes % unit) * 100 + unit / 2) / unit
}

/// One gigabyte, counted as 1024 cubed bytes.
pub const BYTES_PER_GB: u64 = 0x40000000;

/// One megabyte, counted as 1024 squared bytes.
pub const BYTES_PER_MB: u64 = 0x100000;

/// A byte count rendered as gigabytes with two decimal places.
pub open spec fn gb_str(bytes: nat) -> Seq<char> {
    fixed2_str(scaled_hundredths(bytes, BYTES_PER_GB as nat))
}

/// A byte count rendered as megabytes with two decimal places.
pub open spec fn mb_str(bytes: nat) -> Seq<char> {
    fixed2_str(scaled_hundredths(bytes, BYTES_PER_MB as nat))
}

/// The one-character string for a decimal digit.
pub fn digit_literal(d: u64) -> (s: &'static str)
    requires
        d < 10,
    ensures
        s@ == seq![digit_char(d as nat)],
{
    let s: &'static str = match d {
        0 => "0",
        1 => "1",
        2 => "2",
        3 => "3",
        4 => "4",
        5 => "5",
        6 => "6",
        7 => "7",
        8 => "8",
        _ => "9",
    };
    proof {
        reveal_strlit("0");
        reveal_strlit("1");
        reveal_strlit("2");
        reveal_strlit("3");
        reveal_strlit("4");
        reveal_strlit("5");
        reveal_strlit("6");
        reveal_strlit("7");
        reveal_strlit("8");
        reveal_strlit("9");
        assert(s@ =~= seq![digit_char(d as nat)]);
    }
    s
}

/// Base-ten rendering of a 64-bit value.
pub fn u64_to_string(n: u64) -> (s: String)
    ensures
        s@ == dec_str(n as nat),
    decreases n,
{
    if n < 10 {
        String::from_str(digit_literal(n))
    } else {
        let mut s = u64_to_string(n / 10);
        s.append(digit_literal(n % 10));
        s
    }
}

/// `n` hundredths printed as `<whole>.<two digits>`.
pub fn format_fixed2(n: u64) -> (s: String)
    ensures
        s@ == fixed2_str(n as nat),
{
    let mut s = u64_to_string(n / 100);
    s.append(".");
    s.append(digit_literal((n / 10) % 10));
    s.append(digit_literal(n % 10));
    proof {
        reveal_strlit(".");
        assert(s@ =~= fixed2_str(n as nat));
    }
    s
}

/// Scales a byte count to rounded hundredths of a unit.
pub fn hundredths_of_unit(bytes: u64, unit: u64) -> (h: u64)
    requires
        1024 <= unit <= 0x40000000,
    ensures
        h == scaled_hundredths(bytes as nat, unit as nat),
{
    let b: u128 = bytes as u128;
    let u: u128 = unit as u128;
    let q: u128 = b / u;
    let r: u128 = b % u;
    proof {
        vstd::arithmetic::div_mod::lemma_fundamental_div_mod(b as int, u as int);
        vstd::arithmetic::div_mod::lemma_mod_bound(b as int, u as int);
        assert((u as int) * (q as int) + (r as int) == b as int);
        assert((q as int) * 1024 <= b as int) by (nonlinear_arith)
            requires
                (u as int) * (q as int) + (r as int) == b as int,
                r >= 0,
                u >= 1024,
                q >= 0,
        ;
        assert(q <= 0x3FFFFFFFFFFFFF);
    }
    let frac: u128 = (r * 100 + u / 2) / u;
    proof {
        vstd::arithmetic::div_mod::lemma_div_is_ordered(
            (r as int) * 100 + (u as int) / 2,
            0x4000000000,
            u as int,
        );
        vstd::arithmetic::div_mod::lemma_div_is_ordered_by_denominator(0x4000000000, 1024, u as int);
        assert(frac <= 0x4000000000int / 1024);
    }
    (q * 100 + frac) as u64
}

/// A byte count as gigabytes, two decimal places.
pub fn format_gb(bytes: u64) -> (s: String)
    ensures
        s@ == gb_str(bytes as nat),
{
    format_fixed2(hundredths_of_unit(bytes, BYTES_PER_GB))
}

/// A byte count as megabytes, two decimal places.
pub fn format_mb(bytes: u64) -> (s: String)
    ensures
        s@ == mb_str(bytes as nat),
{
    format_fixed2(hundredths_of_unit(bytes, BYTES_PER_MB))
}

} // verus!
