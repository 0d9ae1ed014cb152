//! Decimal rendering of integers, used to place numbers inside filter
//! expressions and configuration summaries.

use vstd::prelude::*;

verus! {

/// The decimal digit character of one digit value.
pub open spec fn spec_digit_char(d: nat) -> char {
    ((d + 48) as u8) as char
}

/// The decimal digit string of a natural number, most significant digit
/// first, with no leading zeros except for the number 0 itself.
pub open spec fn spec_dec_digits(n: nat) -> Seq<char>
    decreases n,
{
    if n < 10 {
        seq![spec_digit_char(n)]
    } else {
        spec_dec_digits(n / 10).push(spec_digit_char(n % 10))
    }
}

/// The decimal string of an integer: a minus sign for negative values,
/// then the digits of the magnitude.
pub open spec fn spec_dec_int(n: int) -> Seq<char> {
    if n < 0 {
        seq!['-'] + spec_dec_digits((-n) as nat)
    } else {
        spec_dec_digits(n as nat)
    }
}

/// The one-character string of a decimal digit.
fn digit_str(d: u64) -> (s: &'static str)
    requires
        d < 10,
    ensures
        s@ == seq![spec_digit_char(d as nat)],
{
    proof {
        reveal_strlit("0");
        reveal_strlit("1");
        reveal_strlit("2");
        reveal_strlit("3");
        reveal_strlit("4");
        reveal_strlit("5");
        reveal_strlit("6");
        reveal_strlit("7");
        reveal_strlit("8");
        reveal_strlit("9");
    }
    match d {
        0 => "0",
        1 => "1",
        2 => "2",
        3 => "3",
        4 => "4",
        5 => "5",
        6 => "6",
        7 => "7",
        8 => "8",
        _ => "9",
    }
}

/// Renders an unsigned integer in decimal.
pub fn u64_to_dec(n: u64) -> (s: String)
    ensures
        s@ == spec_dec_digits(n as nat),
    decreases n,
{
    if n < 10 {
        digit_str(n).to_owned()
    } else {
        let mut s = u64_to_dec(n / 10);
        s.append(digit_str(n % 10));
        proof {
            assert(s@ =~= spec_dec_digits(n as nat));
        }
        s
    }
}

/// Renders a signed integer in decimal.
pub fn i64_to_dec(n: i64) -> (s: String)
    ensures
        s@ == spec_dec_int(n as int),
{
    if n >= 0 {
        u64_to_dec(n as u64)
    } else {
        let magnitude: u64 = if n == i64::MIN {
            9223372036854775808u64
        } else {
            (-n) as u64
        };
        proof {
            reveal_strlit("-");
        }
        let mut s: String = "-".to_owned();
        let digits = u64_to_dec(magnitude);
        s.append(digits.as_str());
        proof {
            assert(s@ =~= spec_dec_int(n as int));
        }
        s
    }
}

} // verus!
