use vstd::prelude::*;

verus! {

/// The decimal digit character of a value below ten.
pub open spec fn digit_char(value: int) -> char {
    ((value + 48) as u8) as char
}

/// The decimal notation of a natural number, without leading zeros.
pub open spec fn decimal(value: nat) -> Seq<char>
    decreases value,
{
    if value < 10 {
        seq![digit_char(value as int)]
    } else {
        decimal(value / 10) + seq![digit_char((value % 10) as int)]
    }
}

/// The decimal notation of an integer, with a leading minus sign when negative.
pub open spec fn signed_decimal(value: int) -> Seq<char> {
    if value < 0 {
        seq!['-'] + decimal((-value) as nat)
    } else {
        decimal(value as nat)
    }
}

/// `numerator / unit` rounded to the nearest integer, ties to even.
pub open spec fn rounded_quotient(numerator: nat, unit: nat) -> nat {
    let quotient = numerator / unit;
    let remainder = numerator % unit;
    if remainder * 2 > unit || (remainder * 2 == unit && quotient % 2 == 1) {
        quotient + 1
    } else {
        quotient
    }
}

/// `numerator / denominator` rounded to the nearest tenth, ties to even.
pub open spec fn rounded_tenths(numerator: nat, denominator: nat) -> nat {
    rounded_quotient(numerator * 10, denominator)
}

/// A number of tenths written with one decimal place, such as `12.5`.
pub open spec fn one_decimal(tenths: nat) -> Seq<char> {
    decimal(tenths / 10) + seq!['.', digit_char((tenths % 10) as int)]
}

pub(crate) fn digit_str(value: u128) -> (digit: &'static str)
    requires
        value < 10,
    ensures
        digit@ == seq![digit_char(value as int)],
{
    match value {
        0 => {
            proof {
                reveal_strlit("0");
            }
            "0"
        },
        1 => {
            proof {
                reveal_strlit("1");
            }
            "1"
        },
        2 => {
            proof {
                reveal_strlit("2");
            }
            "2"
        },
        3 => {
            proof {
                reveal_strlit("3");
            }
            "3"
        },
        4 => {
            proof {
                reveal_strlit("4");
            }
            "4"
        },
        5 => {
            proof {
                reveal_strlit("5");
            }
            "5"
        },
        6 => {
            proof {
                reveal_strlit("6");
            }
            "6"
        },
        7 => {
            proof {
                reveal_strlit("7");
            }
            "7"
        },
        8 => {
            proof {
                reveal_strlit("8");
            }
            "8"
        },
        _ => {
            proof {
                reveal_strlit("9");
            }
            "9"
        },
    }
}

/// Appends the decimal notation of `value`.
pub(crate) fn push_decimal(text: &mut String, value: u128)
    ensures
        final(text)@ == old(text)@ + decimal(value as nat),
    decreases value,
{
    if value >= 10 {
        push_decimal(text, value / 10);
    }
    text.append(digit_str(value % 10));
    proof {
        if value >= 10 {
            assert(decimal(value as nat) == decimal((value / 10) as nat) + seq![
                digit_char((value % 10) as int),
            ]);
        }
    }
}

/// The decimal notation of `value`.
pub fn decimal_string(value: u64) -> (text: String)
    ensures
        text@ == decimal(value as nat),
{
    let mut text = String::new();
    push_decimal(&mut text, value as u128);
    assert(text@ =~= decimal(value as nat));
    text
}

/// Appends the decimal notation of a signed value.
pub(crate) fn push_signed_decimal(text: &mut String, value: i32)
    ensures
        final(text)@ == old(text)@ + signed_decimal(value as int),
{
    if value < 0 {
        text.append("-");
        proof {
            reveal_strlit("-");
        }
        let magnitude: u128 = (0 - (value as i64)) as u128;
        push_decimal(text, magnitude);
        assert(final(text)@ =~= old(text)@ + signed_decimal(value as int));
    } else {
        push_decimal(text, value as u128);
    }
}

/// Appends the number of tenths `numerator / unit`, rounded to the nearest
/// tenth with ties to even, written with one decimal place.
pub(crate) fn push_tenths(text: &mut String, numerator: u128, unit: u128)
    requires
        unit > 0,
        unit * 2 <= u128::MAX,
    ensures
        final(text)@ == old(text)@ + one_decimal(rounded_quotient(numerator as nat, unit as nat)),
{
    let quotient = numerator / unit;
    let remainder = numerator % unit;
    let round_up = remainder * 2 > unit || (remainder * 2 == unit && quotient % 2 == 1);
    if round_up {
        assert(remainder > 0);
        proof {
            vstd::arithmetic::div_mod::lemma_fundamental_div_mod(numerator as int, unit as int);
        }
        assert(quotient < u128::MAX) by (nonlinear_arith)
            requires
                numerator == unit * quotient + remainder,
                unit >= 1,
                remainder > 0,
                numerator <= u128::MAX,
        ;
    }
    let tenths = if round_up { quotient + 1 } else { quotient };
    assert(tenths == rounded_quotient(numerator as nat, unit as nat));
    push_decimal(text, tenths / 10);
    text.append(".");
    proof {
        reveal_strlit(".");
    }
    text.append(digit_str(tenths % 10));
    assert(final(text)@ =~= old(text)@ + one_decimal(tenths as nat));
}

/// Whether two strings have the same characters.
pub fn same_text(first: &str, second: &str) -> (same: bool)
    ensures
        same == (first@ == second@),
{
    let length = first.unicode_len();
    if length != second.unicode_len() {
        return false;
    }
    let mut index: usize = 0;
    while index < length
        invariant
            length == first@.len(),
            length == second@.len(),
            index <= length,
            forall|earlier: int| 0 <= earlier < index ==> first@[earlier] == second@[earlier],
        decreases length - index,
    {
        if first.get_char(index) != second.get_char(index) {
            return false;
        }
        index = index + 1;
    }
    assert(first@ =~= second@);
    true
}

/// A whole number of seconds as minutes and two-digit seconds, `m:ss`.
pub open spec fn clock(total_seconds: nat) -> Seq<char> {
    decimal(total_seconds / 60) + seq![
        ':',
        digit_char(((total_seconds % 60) / 10) as int),
        digit_char((total_seconds % 10) as int),
    ]
}

/// A whole number of seconds written as minutes and two-digit seconds.
pub fn clock_text(total_seconds: u64) -> (text: String)
    ensures
        text@ == clock(total_seconds as nat),
{
    let mut text = String::new();
    push_decimal(&mut text, (total_seconds / 60) as u128);
    text.append(":");
    proof {
        reveal_strlit(":");
    }
    let seconds = total_seconds % 60;
    text.append(digit_str((seconds / 10) as u128));
    text.append(digit_str((total_seconds % 10) as u128));
    assert(seconds % 10 == total_seconds % 10);
    assert(text@ =~= clock(total_seconds as nat));
    text
}

/// A remaining time: a minus sign before the clock text.
pub fn remaining_clock_text(total_seconds: u64) -> (text: String)
    ensures
        text@ == seq!['\u{2212}'] + clock(total_seconds as nat),
{
    let mut text = String::from_str("\u{2212}");
    proof {
        reveal_strlit("\u{2212}");
    }
    let clock_part = clock_text(total_seconds);
    text.append(clock_part.as_str());
    assert(text@ =~= seq!['\u{2212}'] + clock(total_seconds as nat));
    text
}

} // verus!
