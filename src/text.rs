use vstd::prelude::*;

verus! {

pub open spec fn digit_char(d: int) -> char {
    if d == 0 { '0' }
    else if d == 1 { '1' }
    else if d == 2 { '2' }
    else if d == 3 { '3' }
    else if d == 4 { '4' }
    else if d == 5 { '5' }
    else if d == 6 { '6' }
    else if d == 7 { '7' }
    else if d == 8 { '8' }
    else { '9' }
}

/// The decimal digits of `n`, most significant first, without leading zeros.
pub open spec fn decimal_digits(n: nat) -> Seq<char>
    decreases n,
{
    if n < 10 {
        seq![digit_char(n as int)]
    } else {
        decimal_digits(n / 10).push(digit_char((n % 10) as int))
    }
}

/// The decimal digits of `n`.
fn decimal(n: u64) -> (r: String)
    ensures
        r@ == decimal_digits(n as nat),
    decreases n,
{
    if n < 10 {
        String::from_str(digit_str(n))
    } else {
        let mut r = decimal(n / 10);
        r.append(digit_str(n % 10));
        r
    }
}

/// The decimal digits of a count.
pub fn count_string(n: usize) -> (r: String)
    ensures
        r@ == decimal_digits(n as nat),
{
    decimal(n as u64)
}

/// A magnitude in millionths rounded half-up to hundredths.
pub open spec fn hundredths(magnitude: nat) -> nat {
    (magnitude + 5_000) / 10_000
}

/// `magnitude / 10^6` written with two decimals, preceded by `-` when
/// `negative`, or by `+` when `plus` and not `negative`.
pub open spec fn fixed2_text(magnitude: nat, negative: bool, plus: bool) -> Seq<char> {
    let c = hundredths(magnitude);
    let sign = if negative { seq!['-'] } else if plus { seq!['+'] } else { Seq::empty() };
    sign + decimal_digits(c / 100) + seq!['.', digit_char((c % 100) as int / 10), digit_char(
        (c % 100) as int % 10,
    )]
}

/// A fixed-point value (millionths) with two decimals: `-1.50` for -1_500_000.
pub open spec fn price_text(v: int) -> Seq<char> {
    fixed2_text((if v < 0 { -v } else { v }) as nat, v < 0, false)
}

/// As `price_text`, with a leading `+` on values that are not negative.
pub open spec fn signed_text(v: int) -> Seq<char> {
    fixed2_text((if v < 0 { -v } else { v }) as nat, v < 0, true)
}

fn digit_str(d: u64) -> (r: &'static str)
    requires
        d < 10,
    ensures
        r@ == seq![digit_char(d as int)],
{
    proof {
        reveal_strlit("0");
        reveal_strlit("1");
        reveal_strlit("2");
        reveal_strlit("3");
        reveal_strlit("4");
        reveal_strlit("5");
        reveal_strlit("6");
        reveal_strlit("7");
        reveal_strlit("8");
        reveal_strlit("9");
    }
    let r = if d == 0 { "0" }
    else if d == 1 { "1" }
    else if d == 2 { "2" }
    else if d == 3 { "3" }
    else if d == 4 { "4" }
    else if d == 5 { "5" }
    else if d == 6 { "6" }
    else if d == 7 { "7" }
    else if d == 8 { "8" }
    else { "9" };
    assert(r@ =~= seq![digit_char(d as int)]);
    r
}

/// Writes `magnitude / 10^6` with two decimals and the requested sign.
pub fn fixed2(magnitude: u64, negative: bool, plus: bool) -> (r: String)
    ensures
        r@ == fixed2_text(magnitude as nat, negative, plus),
{
    let c: u64 = magnitude / 10_000 + (if magnitude % 10_000 >= 5_000 { 1u64 } else { 0u64 });
    assert(c == hundredths(magnitude as nat)) by {
        vstd::arithmetic::div_mod::lemma_fundamental_div_mod(magnitude as int, 10_000);
        vstd::arithmetic::div_mod::lemma_fundamental_div_mod(magnitude as int + 5_000, 10_000);
    }
    proof {
        reveal_strlit("-");
        reveal_strlit("+");
        reveal_strlit(".");
    }
    let mut r = if negative {
        String::from_str("-")
    } else if plus {
        String::from_str("+")
    } else {
        String::new()
    };
    let whole = decimal(c / 100);
    r.append(whole.as_str());
    r.append(".");
    let frac = c % 100;
    r.append(digit_str(frac / 10));
    r.append(digit_str(frac % 10));
    let ghost sign = if negative { seq!['-'] } else if plus { seq!['+'] } else { Seq::<char>::empty() };
    assert(r@ =~= sign + decimal_digits((c / 100) as nat) + seq!['.', digit_char((c % 100) as int / 10), digit_char((c % 100) as int % 10)]);
    r
}

/// `v` (millionths) with two decimals.
pub fn price_string(v: i64) -> (r: String)
    ensures
        r@ == price_text(v as int),
{
    let m: u64 = if v < 0 { (-(v as i128)) as u64 } else { v as u64 };
    fixed2(m, v < 0, false)
}

/// `v` (millionths) with two decimals and an explicit sign.
pub fn signed_string(v: i64) -> (r: String)
    ensures
        r@ == signed_text(v as int),
{
    let m: u64 = if v < 0 { (-(v as i128)) as u64 } else { v as u64 };
    fixed2(m, v < 0, true)
}

} // verus!
