//! Decimal numerals of integers.

use vstd::prelude::*;
use vstd::string::StringExecFns;

verus! {

/// The character of the decimal digit `d`.
pub open spec fn digit(d: int) -> char
    recommends
        0 <= d <= 9,
{
    if d == 0 {
        '0'
    } else if d == 1 {
        '1'
    } else if d == 2 {
        '2'
    } else if d == 3 {
        '3'
    } else if d == 4 {
        '4'
    } else if d == 5 {
        '5'
    } else if d == 6 {
        '6'
    } else if d == 7 {
        '7'
    } else if d == 8 {
        '8'
    } else {
        '9'
    }
}

/// The decimal numeral of a natural number: its digits, the most significant
/// first, with no leading zero except for zero itself.
pub open spec fn natural_text(n: nat) -> Seq<char>
    decreases n,
{
    if n < 10 {
        seq![digit(n as int)]
    } else {
        natural_text(n / 10).push(digit((n % 10) as int))
    }
}

/// The decimal numeral of an integer: a minus sign before the numeral of the
/// magnitude if the integer is negative, else the numeral alone.
pub open spec fn decimal_text(v: int) -> Seq<char> {
    if v < 0 {
        seq!['-'] + natural_text((-v) as nat)
    } else {
        natural_text(v as nat)
    }
}

/// The characters of the digits `ds`, last digit first.
spec fn reversed(ds: Seq<u8>) -> Seq<char> {
    Seq::new(ds.len(), |i: int| digit(ds[ds.len() - 1 - i] as int))
}

/// The one-character text of the digit `d`.
fn digit_str(d: u8) -> (s: &'static str)
    requires
        d <= 9,
    ensures
        s@ == seq![digit(d as int)],
{
    proof {
        reveal_strlit("0");
        reveal_strlit("1");
        reveal_strlit("2");
        reveal_strlit("3");
        reveal_strlit("4");
        reveal_strlit("5");
        reveal_strlit("6");
        reveal_strlit("7");
        reveal_strlit("8");
        reveal_strlit("9");
    }
    let s = match d {
        0 => "0",
        1 => "1",
        2 => "2",
        3 => "3",
        4 => "4",
        5 => "5",
        6 => "6",
        7 => "7",
        8 => "8",
        _ => "9",
    };
    assert(s@ =~= seq![digit(d as int)]);
    s
}

/// The decimal numeral of `n`.
pub fn natural_to_string(n: u128) -> (text: String)
    ensures
        text@ == natural_text(n as nat),
{
    let mut digits: Vec<u8> = Vec::new();
    let mut rest: u128 = n;
    assert(natural_text(rest as nat) + reversed(digits@) =~= natural_text(n as nat));
    while rest >= 10
        invariant
            forall|i: int| 0 <= i < digits.len() ==> digits[i] <= 9,
            natural_text(n as nat) == natural_text(rest as nat) + reversed(digits@),
        decreases rest,
    {
        let d: u8 = (rest % 10) as u8;
        let ghost before = digits@;
        digits.push(d);
        proof {
            let tail = seq![digit(d as int)];
            assert(reversed(digits@) =~= tail + reversed(before));
            assert(natural_text(rest as nat) == natural_text((rest / 10) as nat) + tail);
            assert(natural_text((rest / 10) as nat) + reversed(digits@) =~= natural_text(
                rest as nat,
            ) + reversed(before));
        }
        rest = rest / 10;
    }
    let ghost before = digits@;
    digits.push(rest as u8);
    assert(reversed(digits@) =~= natural_text(rest as nat) + reversed(before));

    let mut text = String::new();
    let mut i: usize = digits.len();
    while i > 0
        invariant
            i <= digits.len(),
            forall|j: int| 0 <= j < digits.len() ==> digits[j] <= 9,
            text@ == reversed(digits@).subrange(0, digits.len() - i),
        decreases i,
    {
        i = i - 1;
        text.append(digit_str(digits[i]));
        assert(text@ =~= reversed(digits@).subrange(0, digits.len() - i));
    }
    assert(text@ =~= reversed(digits@));
    text
}

/// The decimal numeral of `v`.
pub fn integer_to_string(v: i128) -> (text: String)
    ensures
        text@ == decimal_text(v as int),
{
    if v < 0 {
        let magnitude: u128 = (-(v + 1)) as u128 + 1;
        let mut text = String::from_str("-");
        proof {
            reveal_strlit("-");
        }
        let numeral = natural_to_string(magnitude);
        text.append(numeral.as_str());
        assert(text@ =~= decimal_text(v as int));
        text
    } else {
        natural_to_string(v as u128)
    }
}

} // verus!
