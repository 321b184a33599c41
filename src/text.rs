//! Decimal text of the numbers shown in HUD panels.
use crate::fixed::trunc_div;
use crate::widgets::repeat_text;
use vstd::prelude::*;

verus! {

pub open spec fn digit_char(d: int) -> char {
    if d == 0 {
        '0'
    } else if d == 1 {
        '1'
    } else if d == 2 {
        '2'
    } else if d == 3 {
        '3'
    } else if d == 4 {
        '4'
    } else if d == 5 {
        '5'
    } else if d == 6 {
        '6'
    } else if d == 7 {
        '7'
    } else if d == 8 {
        '8'
    } else {
        '9'
    }
}

/// The decimal digits of `n`, most significant first, without leading zeros.
pub open spec fn digits_of(n: nat) -> Seq<char>
    decreases n,
{
    if n < 10 {
        seq![digit_char(n as int)]
    } else {
        digits_of(n / 10) + seq![digit_char((n % 10) as int)]
    }
}

/// The decimal text of `n`: a minus sign for negatives, then the digits.
pub open spec fn decimal_of(n: int) -> Seq<char> {
    if n < 0 {
        seq!['-'] + digits_of((-n) as nat)
    } else {
        digits_of(n as nat)
    }
}

/// The decimal text of `n` zero-padded to `width` characters, sign included.
pub open spec fn padded_of(n: int, width: int) -> Seq<char> {
    let sign: Seq<char> = if n < 0 { seq!['-'] } else { seq![] };
    let digits = digits_of(if n < 0 { (-n) as nat } else { n as nat });
    sign + repeat_text(seq!['0'], width - sign.len() - digits.len()) + digits
}

/// A thousandths quantity rounded to the nearest whole, halves away from zero.
pub open spec fn rounded_whole(milli: int) -> int {
    if milli >= 0 { trunc_div(milli + 500, 1000) } else { trunc_div(milli - 500, 1000) }
}

/// The decimal text of `n`.
pub fn decimal_text(n: i128) -> (r: String)
    ensures
        r@ == decimal_of(n as int),
{
    decimal(n)
}

/// The one-character text of the digit `d`.
fn digit_text(d: u128) -> (r: &'static str)
    requires
        d < 10,
    ensures
        r@ == seq![digit_char(d as int)],
{
    proof {
        reveal_strlit("0");
        reveal_strlit("1");
        reveal_strlit("2");
        reveal_strlit("3");
        reveal_strlit("4");
        reveal_strlit("5");
        reveal_strlit("6");
        reveal_strlit("7");
        reveal_strlit("8");
        reveal_strlit("9");
    }
    let r = if d == 0 {
        "0"
    } else if d == 1 {
        "1"
    } else if d == 2 {
        "2"
    } else if d == 3 {
        "3"
    } else if d == 4 {
        "4"
    } else if d == 5 {
        "5"
    } else if d == 6 {
        "6"
    } else if d == 7 {
        "7"
    } else if d == 8 {
        "8"
    } else {
        "9"
    };
    assert(r@ =~= seq![digit_char(d as int)]);
    r
}

/// The decimal digits of `n`, most significant first.
fn digits(n: u128) -> (r: String)
    ensures
        r@ == digits_of(n as nat),
    decreases n,
{
    if n < 10 {
        String::from_str(digit_text(n))
    } else {
        let mut r = digits(n / 10);
        r.append(digit_text(n % 10));
        r
    }
}

/// The decimal text of `n`: a minus sign for negatives, then the digits.
fn decimal(n: i128) -> (r: String)
    ensures
        r@ == decimal_of(n as int),
{
    proof {
        reveal_strlit("-");
    }
    if n < 0 {
        let mag: u128 = if n == i128::MIN { 0x8000_0000_0000_0000_0000_0000_0000_0000 } else { (-n) as u128 };
        let mut r = String::from_str("-");
        let d = digits(mag);
        r.append(d.as_str());
        assert(r@ =~= decimal_of(n as int));
        r
    } else {
        digits(n as u128)
    }
}

/// The decimal text of `n` zero-padded to `width` characters, sign included.
pub fn zero_padded(n: i64, width: usize) -> (r: String)
    ensures
        r@ == padded_of(n as int, width as int),
{
    proof {
        reveal_strlit("-");
        reveal_strlit("0");
    }
    let neg = n < 0;
    let mag: i128 = if neg { -(n as i128) } else { n as i128 };
    let digits = decimal(mag);
    let ghost sign: Seq<char> = if neg { seq!['-'] } else { seq![] };
    let mut out = if neg { String::from_str("-") } else { String::new() };
    let sign_len: usize = if neg { 1 } else { 0 };
    let dl = digits.unicode_len();
    let pad: usize = if width > sign_len && width - sign_len > dl { width - sign_len - dl } else { 0 };
    assert(digits@ == digits_of(if n < 0 { (-n) as nat } else { n as nat }));
    let mut j: usize = 0;
    while j < pad
        invariant
            j <= pad,
            out@ == sign + repeat_text(seq!['0'], j as int),
        decreases pad - j,
    {
        let ghost prev = out@;
        out.append("0");
        proof {
            reveal_strlit("0");
        }
        assert("0"@ =~= seq!['0']);
        assert(repeat_text(seq!['0'], j + 1) == repeat_text(seq!['0'], j as int) + seq!['0']);
        assert(out@ =~= sign + repeat_text(seq!['0'], j + 1));
        j = j + 1;
    }
    assert(repeat_text(seq!['0'], pad as int) == repeat_text(seq!['0'], width - sign.len() - digits@.len()));
    out.append(digits.as_str());
    out
}

/// A thousandths quantity rounded to the nearest whole, as text.
pub fn rounded_text(milli: i64) -> (r: String)
    ensures
        r@ == decimal_of(rounded_whole(milli as int)),
{
    let m = milli as i128;
    let q: i128 = if m >= 0 { (m + 500) / 1000 } else { -((500 - m) / 1000) };
    decimal(q)
}

/// A thousandths quantity rounded to hundredths, as text with two decimals.
pub open spec fn hundredths_of(milli: int) -> Seq<char> {
    let h = if milli >= 0 { trunc_div(milli + 5, 10) } else { trunc_div(milli - 5, 10) };
    let mag = if h < 0 { -h } else { h };
    let frac = mag % 100;
    (if h < 0 { seq!['-'] } else { seq![] }) + decimal_of(mag / 100) + seq!['.', digit_char(frac / 10), digit_char(frac % 10)]
}

pub fn hundredths_text(milli: i64) -> (r: String)
    ensures
        r@ == hundredths_of(milli as int),
{
    proof {
        reveal_strlit("-");
        reveal_strlit(".");
    }
    let m = milli as i128;
    let h: i128 = if m >= 0 { (m + 5) / 10 } else { -((5 - m) / 10) };
    let mag: i128 = if h < 0 { -h } else { h };
    let frac: i128 = mag % 100;
    let mut out = if h < 0 { String::from_str("-") } else { String::new() };
    let whole = decimal(mag / 100);
    out.append(whole.as_str());
    out.append(".");
    let tens = decimal(frac / 10);
    let ones = decimal(frac % 10);
    out.append(tens.as_str());
    out.append(ones.as_str());
    assert(out@ =~= hundredths_of(milli as int));
    out
}

} // verus!
