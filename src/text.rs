use vstd::prelude::*;

verus! {

pub open spec fn digit_char(d: nat) -> char {
    if d == 0 {
        '0'
    } else if d == 1 {
        '1'
    } else if d == 2 {
        '2'
    } else if d == 3 {
        '3'
    } else if d == 4 {
        '4'
    } else if d == 5 {
        '5'
    } else if d == 6 {
        '6'
    } else if d == 7 {
        '7'
    } else if d == 8 {
        '8'
    } else {
        '9'
    }
}

/// The decimal digits of `n`, most significant first, without leading zeros.
pub open spec fn decimal(n: nat) -> Seq<char>
    decreases n,
{
    if n < 10 {
        seq![digit_char(n)]
    } else {
        decimal(n / 10) + seq![digit_char(n % 10)]
    }
}

/// `n / d` rounded to the nearest integer, ties to the even one.
pub open spec fn div_round_even(n: nat, d: nat) -> nat
    recommends
        d > 0,
{
    let q = n / d;
    let r = n % d;
    if 2 * r > d || (2 * r == d && q % 2 == 1) {
        q + 1
    } else {
        q
    }
}

/// The spacing of double-precision values around `n`: 1 below 2^53, doubling with each
/// further bit.
pub open spec fn f64_spacing(n: nat) -> nat
    decreases n,
{
    if n < 0x20_0000_0000_0000 {
        1
    } else {
        2 * f64_spacing(n / 2)
    }
}

/// The double-precision value nearest to `n` (ties to even), which is what `n as f64` holds.
pub open spec fn as_f64(n: nat) -> nat {
    div_round_even(n, f64_spacing(n)) * f64_spacing(n)
}

/// `h` hundredths written with two decimals, as `{:.2}` writes them.
pub open spec fn fixed_two(h: nat) -> Seq<char> {
    decimal(h / 100) + seq!['.', digit_char((h % 100) / 10), digit_char(h % 10)]
}

/// The one-character string of digit `d`.
pub fn digit_str(d: u64) -> (r: &'static str)
    requires
        d < 10,
    ensures
        r@ == seq![digit_char(d as nat)],
{
    proof {
        reveal_strlit("0");
        reveal_strlit("1");
        reveal_strlit("2");
        reveal_strlit("3");
        reveal_strlit("4");
        reveal_strlit("5");
        reveal_strlit("6");
        reveal_strlit("7");
        reveal_strlit("8");
        reveal_strlit("9");
    }
    if d == 0 {
        "0"
    } else if d == 1 {
        "1"
    } else if d == 2 {
        "2"
    } else if d == 3 {
        "3"
    } else if d == 4 {
        "4"
    } else if d == 5 {
        "5"
    } else if d == 6 {
        "6"
    } else if d == 7 {
        "7"
    } else if d == 8 {
        "8"
    } else {
        "9"
    }
}

/// Appends the decimal digits of `n` to `s`.
pub fn push_decimal(s: &mut String, n: u128)
    ensures
        final(s)@ == old(s)@ + decimal(n as nat),
    decreases n,
{
    if n >= 10 {
        push_decimal(s, n / 10);
    }
    s.append(digit_str((n % 10) as u64));
    assert(final(s)@ =~= old(s)@ + decimal(n as nat));
}

/// Appends `h` hundredths with two decimals to `s`.
pub fn push_fixed_two(s: &mut String, h: u128)
    ensures
        final(s)@ == old(s)@ + fixed_two(h as nat),
{
    push_decimal(s, h / 100);
    s.append(".");
    s.append(digit_str(((h % 100) / 10) as u64));
    s.append(digit_str((h % 10) as u64));
    proof {
        reveal_strlit(".");
    }
    assert(final(s)@ =~= old(s)@ + fixed_two(h as nat));
}

/// `n / d` rounded to the nearest integer, ties to the even one.
pub fn div_round_even_u128(n: u128, d: u128) -> (r: u128)
    requires
        d > 0,
        n < u128::MAX,
    ensures
        r == div_round_even(n as nat, d as nat),
{
    let q = n / d;
    assert(q <= n) by (nonlinear_arith)
        requires
            d >= 1,
            q == n / d,
    ;
    let rem = n % d;
    if rem > d - rem || (rem == d - rem && q % 2 == 1) {
        q + 1
    } else {
        q
    }
}

/// The value of `n as f64`, as an integer.
pub fn as_f64_u64(n: u64) -> (r: u128)
    ensures
        r == as_f64(n as nat),
        r <= n + 0x1000,
{
    let mut t: u64 = n;
    let mut spacing: u64 = 1;
    while t >= 0x20_0000_0000_0000
        invariant
            f64_spacing(n as nat) == spacing * f64_spacing(t as nat),
            1 <= spacing <= 0x1000,
            t * spacing <= n,
        decreases t,
    {
        assert(spacing * (2 * f64_spacing((t / 2) as nat)) == (2 * spacing) * f64_spacing(
            (t / 2) as nat,
        )) by (nonlinear_arith);
        assert((t / 2) * (2 * spacing) <= t * spacing) by (nonlinear_arith)
            requires
                spacing >= 1,
        ;
        assert(2 * spacing <= 0x1000) by (nonlinear_arith)
            requires
                t * spacing <= n,
                n <= u64::MAX,
                t >= 0x20_0000_0000_0000,
        ;
        t = t / 2;
        spacing = spacing * 2;
    }
    assert(f64_spacing(t as nat) == 1);
    assert(spacing == f64_spacing(n as nat)) by (nonlinear_arith)
        requires
            f64_spacing(n as nat) == spacing * f64_spacing(t as nat),
            f64_spacing(t as nat) == 1,
    ;
    let q = div_round_even_u128(n as u128, spacing as u128);
    assert(q <= n / spacing + 1);
    assert(q * spacing <= n + spacing) by (nonlinear_arith)
        requires
            q <= n / spacing + 1,
            spacing >= 1,
    ;
    q * (spacing as u128)
}

} // verus!
