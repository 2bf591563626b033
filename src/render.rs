//! Rendering amounts as decimal text: the whole part, a point, and the
//! fractional digits without trailing zeros, keeping at least one
//! (`0.0`, `1.5`, `0.1235`, `-2.0`).
use crate::amount::Amount;
use vstd::prelude::*;

verus! {

pub open spec fn digit_char(d: nat) -> char {
    if d == 0 {
        '0'
    } else if d == 1 {
        '1'
    } else if d == 2 {
        '2'
    } else if d == 3 {
        '3'
    } else if d == 4 {
        '4'
    } else if d == 5 {
        '5'
    } else if d == 6 {
        '6'
    } else if d == 7 {
        '7'
    } else if d == 8 {
        '8'
    } else {
        '9'
    }
}

/// The decimal digits of `n`, most significant first, without leading zeros.
pub open spec fn digits(n: nat) -> Seq<char>
    decreases n,
{
    if n < 10 {
        seq![digit_char(n)]
    } else {
        digits(n / 10).push(digit_char(n % 10))
    }
}

/// The four fractional digits of `f` ten-thousandths, trailing zeros dropped
/// but the first digit always kept.
pub open spec fn fraction_digits(f: nat) -> Seq<char> {
    let all = seq![
        digit_char(f / 1000),
        digit_char(f / 100 % 10),
        digit_char(f / 10 % 10),
        digit_char(f % 10),
    ];
    let keep: int = if f % 1000 == 0 {
        1
    } else if f % 100 == 0 {
        2
    } else if f % 10 == 0 {
        3
    } else {
        4
    };
    all.take(keep)
}

/// The text of an amount of `units` ten-thousandths.
pub open spec fn rendered(units: int) -> Seq<char> {
    let mag: nat = if units < 0 {
        (-units) as nat
    } else {
        units as nat
    };
    let sign = if units < 0 {
        seq!['-']
    } else {
        Seq::<char>::empty()
    };
    sign + digits(mag / 10000) + seq!['.'] + fraction_digits(mag % 10000)
}

fn digit_char_of(d: u128) -> (c: char)
    requires
        d < 10,
    ensures
        c == digit_char(d as nat),
{
    if d == 0 {
        '0'
    } else if d == 1 {
        '1'
    } else if d == 2 {
        '2'
    } else if d == 3 {
        '3'
    } else if d == 4 {
        '4'
    } else if d == 5 {
        '5'
    } else if d == 6 {
        '6'
    } else if d == 7 {
        '7'
    } else if d == 8 {
        '8'
    } else {
        '9'
    }
}

/// Appends the decimal digits of `n` to `out`.
fn push_digits(out: &mut Vec<char>, n: u128)
    ensures
        final(out)@ == old(out)@ + digits(n as nat),
{
    let mut rev: Vec<char> = Vec::new();
    let mut k: u128 = n;
    while k >= 10
        invariant
            digits(n as nat) == digits(k as nat) + rev@,
        decreases k,
    {
        let c = digit_char_of(k % 10);
        assert(digits(k as nat) == digits((k / 10) as nat).push(c));
        rev.insert(0, c);
        assert(digits(n as nat) =~= digits((k / 10) as nat) + rev@);
        k = k / 10;
    }
    rev.insert(0, digit_char_of(k));
    assert(digits(n as nat) =~= rev@);
    let ghost start = out@;
    let mut i: usize = 0;
    while i < rev.len()
        invariant
            i <= rev@.len(),
            out@ == start + rev@.take(i as int),
        decreases rev.len() - i,
    {
        out.push(rev[i]);
        assert(rev@.take(i + 1) =~= rev@.take(i as int).push(rev@[i as int]));
        i = i + 1;
    }
    assert(rev@.take(rev@.len() as int) =~= rev@);
}

/// Relies on `String`'s `FromIterator<char>`: the string holds the
/// characters in order.
#[verifier::external_body]
fn string_from_chars(chars: Vec<char>) -> (r: String)
    ensures
        r@ == chars@,
{
    chars.into_iter().collect()
}

/// Renders an amount as decimal text: `0.0` for zero, `0.1235`, `-1.5`.
pub fn serialize_decimal(value: Amount) -> (r: String)
    ensures
        r@ == rendered(value.value()),
{
    let units = value.units;
    let mag: u128 = if units < 0 {
        (-(units + 1)) as u128 + 1
    } else {
        units as u128
    };
    let mut out: Vec<char> = Vec::new();
    if units < 0 {
        out.push('-');
    }
    push_digits(&mut out, mag / 10000);
    out.push('.');
    let f = mag % 10000;
    let mut frac: Vec<char> = Vec::new();
    frac.push(digit_char_of(f / 1000));
    if f % 1000 != 0 {
        frac.push(digit_char_of(f / 100 % 10));
        if f % 100 != 0 {
            frac.push(digit_char_of(f / 10 % 10));
            if f % 10 != 0 {
                frac.push(digit_char_of(f % 10));
            }
        }
    }
    assert(frac@ =~= fraction_digits(f as nat));
    out.append(&mut frac);
    let ghost sign = if units < 0 {
        seq!['-']
    } else {
        Seq::<char>::empty()
    };
    assert(out@ =~= sign + digits((mag / 10000) as nat) + seq!['.'] + fraction_digits(f as nat));
    string_from_chars(out)
}

} // verus!
