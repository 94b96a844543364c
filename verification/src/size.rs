//! File sizes as text.

use vstd::prelude::*;

use crate::text;

verus! {

/// The bytes of a kilobyte.
pub const KB: u64 = 1024;

/// The bytes of a megabyte.
pub const MB: u64 = 1048576;

/// The bytes of a gigabyte.
pub const GB: u64 = 1073741824;

/// `n` divided by `d`, rounded to the nearest whole number, ties to the even one.
pub open spec fn round_div(n: nat, d: nat) -> nat {
    let q = n / d;
    let rest = n % d;
    if 2 * rest > d || (2 * rest == d && q % 2 == 1) {
        q + 1
    } else {
        q
    }
}

/// The spacing of the numbers with 53 significant bits from `n` on.
pub open spec fn grain(n: nat) -> nat
    decreases n,
{
    if n < 0x20_0000_0000_0000 {
        1
    } else {
        2 * grain(n / 2)
    }
}

/// The number with 53 significant bits nearest to `n`, ties to the even one.
/// Sizes are shown with this precision.
pub open spec fn nearest(n: nat) -> nat {
    round_div(n, grain(n)) * grain(n)
}

/// `n / unit` with two decimals, rounded to the nearest, ties to the even digit.
pub open spec fn in_unit(n: nat, unit: nat) -> Seq<char> {
    let hundredths = round_div(100 * n, unit);
    text::decimal(hundredths / 100).push('.').push(text::digit(hundredths / 10 % 10)).push(
        text::digit(hundredths % 10),
    )
}

/// A size as it is shown: whole bytes below a kilobyte, else two decimals in
/// the largest unit that the size reaches.
pub open spec fn size_text(bytes: nat) -> Seq<char> {
    let b = nearest(bytes);
    if b >= GB {
        in_unit(b, GB as nat) + " GB"@
    } else if b >= MB {
        in_unit(b, MB as nat) + " MB"@
    } else if b >= KB {
        in_unit(b, KB as nat) + " KB"@
    } else {
        text::decimal(bytes) + " B"@
    }
}

fn round_div_exec(n: u128, d: u128) -> (r: u128)
    requires
        0 < d <= u64::MAX,
        n < u128::MAX,
    ensures
        r == round_div(n as nat, d as nat),
{
    let q: u128 = n / d;
    let rest: u128 = n % d;
    proof {
        assert(q <= n) by (nonlinear_arith)
            requires
                q == n / d,
                d > 0,
        ;
        assert(rest < d) by (nonlinear_arith)
            requires
                rest == n % d,
                d > 0,
        ;
    }
    if 2 * rest > d || (2 * rest == d && q % 2 == 1) {
        q + 1
    } else {
        q
    }
}

fn grain_exec(n: u64) -> (r: u64)
    ensures
        r == grain(n as nat),
        1 <= r <= 4096,
{
    let mut m: u64 = n;
    let mut g: u64 = 1;
    while m >= 0x20_0000_0000_0000
        invariant
            1 <= g <= 4096,
            m * g <= n,
            grain(n as nat) == g * grain(m as nat),
        decreases m,
    {
        let half: u64 = m / 2;
        proof {
            assert(g < 2048) by (nonlinear_arith)
                requires
                    m * g <= n <= 0xffff_ffff_ffff_ffff,
                    m >= 0x20_0000_0000_0000,
            ;
            assert(half * (g * 2) <= m * g) by (nonlinear_arith)
                requires
                    half == m / 2,
            ;
            assert(g * (2 * grain(half as nat)) == (g * 2) * grain(half as nat)) by (nonlinear_arith);
        }
        m = half;
        g = g * 2;
    }
    assert(g * grain(m as nat) == g) by (nonlinear_arith)
        requires
            grain(m as nat) == 1,
    ;
    g
}

/// Rounding to 53 bits adds little to a size.
proof fn nearest_is_near(n: nat)
    requires
        1 <= grain(n) <= 4096,
    ensures
        nearest(n) <= n + 4096,
{
    let g = grain(n);
    let q = n / g;
    let rest = n % g;
    vstd::arithmetic::div_mod::lemma_fundamental_div_mod(n as int, g as int);
    assert(q * g == g * q) by (nonlinear_arith);
    assert((q + 1) * g == g * q + g) by (nonlinear_arith);
}

fn in_unit_exec(n: u128, unit: u64) -> (r: String)
    requires
        unit > 0,
        n <= 0x1_0000_0000_0000_1000,
    ensures
        r@ == in_unit(n as nat, unit as nat),
{
    let hundredths: u128 = round_div_exec(100 * n, unit as u128);
    let whole: u128 = hundredths / 100;
    let tenths: u128 = hundredths / 10 % 10;
    let last: u128 = hundredths % 10;
    let mut r = text::decimal_text(whole);
    r.append(".");
    let a = text::decimal_text(tenths);
    r.append(a.as_str());
    let b = text::decimal_text(last);
    r.append(b.as_str());
    proof {
        reveal_strlit(".");
        assert(r@ =~= in_unit(n as nat, unit as nat));
    }
    r
}

/// A size as text.
pub fn format_bytes(bytes: u64) -> (r: String)
    ensures
        r@ == size_text(bytes as nat),
{
    let g: u64 = grain_exec(bytes);
    proof {
        nearest_is_near(bytes as nat);
    }
    let b: u128 = round_div_exec(bytes as u128, g as u128) * (g as u128);
    let mut r: String;
    if b >= GB as u128 {
        r = in_unit_exec(b, GB);
        r.append(" GB");
    } else if b >= MB as u128 {
        r = in_unit_exec(b, MB);
        r.append(" MB");
    } else if b >= KB as u128 {
        r = in_unit_exec(b, KB);
        r.append(" KB");
    } else {
        r = text::decimal_text(bytes as u128);
        r.append(" B");
    }
    r
}

/// Sizes below 2^53 are not rounded before they are shown, and below a kilobyte
/// the text is the exact number of bytes.
pub proof fn small_sizes_are_exact(bytes: nat)
    requires
        bytes < 0x20_0000_0000_0000,
    ensures
        nearest(bytes) == bytes,
        bytes < KB ==> size_text(bytes) == text::decimal(bytes) + " B"@,
{
    assert(grain(bytes) == 1);
    assert(bytes / 1 == bytes && bytes % 1 == 0) by (nonlinear_arith);
    assert(round_div(bytes, 1) == bytes);
    assert(bytes * 1 == bytes) by (nonlinear_arith);
}

/// `r` is the whole number nearest to `n / d`; of two that are as near, the even one.
pub open spec fn is_nearest(n: nat, d: nat, r: nat) -> bool {
    let off = 2 * (n - d * r);
    -(d as int) <= off <= d && (off == d || off == -(d as int) ==> r % 2 == 0)
}

/// Division rounds to the nearest whole number.
pub proof fn round_div_is_nearest(n: nat, d: nat)
    requires
        d > 0,
    ensures
        is_nearest(n, d, round_div(n, d)),
{
    let q = n / d;
    let rest = n % d;
    vstd::arithmetic::div_mod::lemma_fundamental_div_mod(n as int, d as int);
    assert(rest < d) by (nonlinear_arith)
        requires
            rest == n % d,
            d > 0,
    ;
    assert(d * (q + 1) == d * q + d) by (nonlinear_arith);
}

/// The numbers that 53 bits can hold from `n` on lie as far apart as the power
/// of two that makes `n` fit into them, and no farther.
pub proof fn grain_keeps_53_bits(n: nat)
    ensures
        grain(n) >= 1,
        n < grain(n) * 0x20_0000_0000_0000,
        grain(n) > 1 ==> grain(n) * 0x10_0000_0000_0000 <= n && grain(n) % 2 == 0,
        n < 0x20_0000_0000_0000 ==> grain(n) == 1,
        n >= 0x20_0000_0000_0000 ==> grain(n) == 2 * grain(n / 2),
    decreases n,
{
    if n >= 0x20_0000_0000_0000 {
        grain_keeps_53_bits(n / 2);
    }
}

/// What is shown of a size lies no farther from it than half the distance of
/// the numbers that 53 bits can hold there.
pub proof fn nearest_is_half_a_grain_off(n: nat)
    ensures
        nearest(n) == grain(n) * round_div(n, grain(n)),
        -(grain(n) as int) <= 2 * (n - nearest(n)) <= grain(n),
{
    grain_keeps_53_bits(n);
    round_div_is_nearest(n, grain(n));
    let q = round_div(n, grain(n));
    assert(q * grain(n) == grain(n) * q) by (nonlinear_arith);
}

/// The text is an amount of `b` bytes in that unit: a whole number, a point, two
/// digits and the sign of the unit, and as near to the amount as two digits
/// behind the point can come.
pub open spec fn is_amount(t: Seq<char>, b: nat, unit: nat, sign: Seq<char>) -> bool {
    exists|whole: nat, tenths: nat, hundredths: nat| #[trigger]
        is_amount_of(t, b, unit, sign, whole, tenths, hundredths)
}

/// The same, with the whole number and the two digits.
pub open spec fn is_amount_of(
    t: Seq<char>,
    b: nat,
    unit: nat,
    sign: Seq<char>,
    whole: nat,
    tenths: nat,
    hundredths: nat,
) -> bool {
    &&& tenths < 10 && hundredths < 10
    &&& t == text::decimal(whole) + seq!['.', (48 + tenths) as char, (48 + hundredths) as char] + sign
    &&& is_nearest(100 * b, unit, 100 * whole + 10 * tenths + hundredths)
}

proof fn in_unit_is_amount(b: nat, unit: nat, sign: Seq<char>)
    requires
        unit > 0,
    ensures
        is_amount(in_unit(b, unit) + sign, b, unit, sign),
{
    let h = round_div(100 * b, unit);
    round_div_is_nearest(100 * b, unit);
    let whole = h / 100;
    let tenths = h / 10 % 10;
    let hundredths = h % 10;
    assert(h == 100 * whole + 10 * tenths + hundredths);
    assert(in_unit(b, unit) + sign =~= text::decimal(whole) + seq![
        '.',
        (48 + tenths) as char,
        (48 + hundredths) as char,
    ] + sign);
    assert(is_amount_of(in_unit(b, unit) + sign, b, unit, sign, whole, tenths, hundredths));
}

/// A size is shown in bytes below 1024 of them, in KB below 1024 KB, in MB below
/// 1024 MB, and in GB from there on; in bytes exactly, else rounded to two
/// digits behind the point.
pub proof fn size_is_shown_in_its_unit(bytes: nat)
    ensures
        bytes < 1024 ==> size_text(bytes) == text::decimal(bytes) + " B"@,
        1024 <= bytes < 1024 * 1024 ==> is_amount(size_text(bytes), bytes, 1024, " KB"@),
        1024 * 1024 <= bytes < 1024 * 1024 * 1024 ==> is_amount(
            size_text(bytes),
            bytes,
            1024 * 1024,
            " MB"@,
        ),
        1024 * 1024 * 1024 <= bytes ==> is_amount(
            size_text(bytes),
            nearest(bytes),
            1024 * 1024 * 1024,
            " GB"@,
        ),
{
    if bytes < 0x20_0000_0000_0000 {
        small_sizes_are_exact(bytes);
    } else {
        grain_keeps_53_bits(bytes);
        nearest_is_half_a_grain_off(bytes);
    }
    let b = nearest(bytes);
    in_unit_is_amount(b, 1024, " KB"@);
    in_unit_is_amount(b, 1048576, " MB"@);
    in_unit_is_amount(b, 1073741824, " GB"@);
}

} // verus!
