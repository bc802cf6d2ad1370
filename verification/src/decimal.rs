//! Whole numbers as decimal text.

use vstd::prelude::*;
use vstd::string::*;

use crate::text::chars_of;

verus! {

/// The character of a decimal digit.
pub open spec fn digit(d: nat) -> char
    recommends
        d < 10,
{
    (48 + d) as char
}

/// The decimal digits of `n`, without leading zeros.
pub open spec fn decimal(n: nat) -> Seq<char>
    decreases n,
{
    if n < 10 {
        seq![digit(n)]
    } else {
        decimal(n / 10).push(digit(n % 10))
    }
}

/// The decimal text of an integer, with a minus sign in front of a negative one.
pub open spec fn signed_decimal(n: int) -> Seq<char> {
    if n < 0 {
        seq!['-'] + decimal((-n) as nat)
    } else {
        decimal(n as nat)
    }
}

/// Whether a character is a decimal digit.
pub open spec fn is_digit(c: char) -> bool {
    '0' <= c <= '9'
}

/// A text made of decimal digits alone, at least one of them.
pub open spec fn all_digits(s: Seq<char>) -> bool {
    &&& s.len() > 0
    &&& forall|i: int| 0 <= i < s.len() ==> is_digit(#[trigger] s[i])
}

/// The number that a text of decimal digits stands for.
pub open spec fn digits_value(s: Seq<char>) -> nat
    decreases s.len(),
{
    if s.len() == 0 {
        0
    } else {
        (digits_value(s.drop_last()) * 10 + (s.last() as nat - 48)) as nat
    }
}

/// The number that a text stands for: digits with an optional sign in front,
/// where the number fits 32 bits.
pub open spec fn i32_value(s: Seq<char>) -> Option<i32> {
    let signed = s.len() > 0 && (s[0] == '-' || s[0] == '+');
    let digits = if signed {
        s.skip(1)
    } else {
        s
    };
    let value = if signed && s[0] == '-' {
        -(digits_value(digits) as int)
    } else {
        digits_value(digits) as int
    };
    if all_digits(digits) && i32::MIN <= value <= i32::MAX {
        Some(value as i32)
    } else {
        None
    }
}

/// The character of a decimal digit.
fn digit_char(d: u64) -> (c: char)
    requires
        d < 10,
    ensures
        c == digit(d as nat),
{
    (48u8 + d as u8) as char
}

/// The decimal text of `n`.
pub fn decimal_text(n: u64) -> (s: String)
    ensures
        s@ == decimal(n as nat),
    decreases n,
{
    if n < 10 {
        let mut s = String::new();
        s.push(digit_char(n));
        assert(s@ =~= seq![digit(n as nat)]);
        s
    } else {
        let mut s = decimal_text(n / 10);
        s.push(digit_char(n % 10));
        s
    }
}

/// The decimal text of `n`, with its sign.
pub fn signed_decimal_text(n: i32) -> (s: String)
    ensures
        s@ == signed_decimal(n as int),
{
    if n < 0 {
        let mut s = String::new();
        s.push('-');
        s.append(decimal_text((-(n as i64)) as u64).as_str());
        assert(s@ =~= seq!['-'] + decimal((-n) as nat));
        s
    } else {
        decimal_text(n as u64)
    }
}

/// The number that a text stands for, where it is one that fits 32 bits.
pub fn parse_i32(s: &str) -> (n: Option<i32>)
    ensures
        n == i32_value(s@),
{
    let chars = chars_of(s);
    let signed = chars.len() > 0 && (chars[0] == '-' || chars[0] == '+');
    let negative = signed && chars[0] == '-';
    let from: usize = if signed {
        1
    } else {
        0
    };
    let ghost digits = chars@.skip(from as int);
    proof {
        assert(!signed ==> digits =~= s@);
    }
    if chars.len() == from {
        return None;
    }
    // Far above any 32-bit number, and still far below the 64-bit range.
    let limit: u64 = 0x1_0000_0000;
    let mut value: u64 = 0;
    let mut i: usize = from;
    while i < chars.len()
        invariant
            chars@ == s@,
            from <= i <= chars@.len(),
            signed == (s@.len() > 0 && (s@[0] == '-' || s@[0] == '+')),
            from == (if signed { 1int } else { 0int }),
            digits == chars@.skip(from as int),
            !signed ==> digits == s@,
            limit == 0x1_0000_0000,
            value <= limit,
            forall|j: int| 0 <= j < i - from ==> is_digit(#[trigger] digits[j]),
            value < limit ==> value == digits_value(digits.take(i - from)),
            value == limit ==> digits_value(digits.take(i - from)) >= limit,
        decreases chars@.len() - i,
    {
        let c = chars[i];
        assert(c == digits[i - from]);
        if c < '0' || c > '9' {
            assert(!is_digit(digits[i - from]));
            return None;
        }
        proof {
            let next = digits.take(i - from + 1);
            assert(next.drop_last() =~= digits.take(i - from));
            assert(next.last() == c);
            assert(digits_value(next) == digits_value(digits.take(i - from)) * 10 + (c as nat
                - 48));
        }
        if value < limit {
            let d: u64 = (c as u32 - 48) as u64;
            let sum: u64 = value * 10 + d;
            value = if sum < limit {
                sum
            } else {
                limit
            };
        }
        i += 1;
    }
    proof {
        assert(digits.take(digits.len() as int) =~= digits);
        assert(all_digits(digits));
    }
    if negative {
        if value <= 0x8000_0000 {
            Some((-(value as i64)) as i32)
        } else {
            None
        }
    } else if value <= 0x7fff_ffff {
        Some(value as i32)
    } else {
        None
    }
}

/// The digits of a number are digits, and stand for it.
pub proof fn decimal_is_the_number(n: nat)
    ensures
        all_digits(decimal(n)),
        digits_value(decimal(n)) == n,
    decreases n,
{
    if n < 10 {
        assert(decimal(n).drop_last() =~= Seq::empty());
        assert(digits_value(decimal(n).drop_last()) == 0);
    } else {
        decimal_is_the_number(n / 10);
        assert(decimal(n).drop_last() =~= decimal(n / 10));
    }
}

/// Reading the text of a 32-bit number gives the number back.
pub proof fn signed_decimal_reads_back(n: i32)
    ensures
        i32_value(signed_decimal(n as int)) == Some(n),
{
    if n < 0 {
        decimal_is_the_number((-n) as nat);
        assert(signed_decimal(n as int).skip(1) =~= decimal((-n) as nat));
    } else {
        decimal_is_the_number(n as nat);
        assert(is_digit(decimal(n as nat)[0]));
    }
}

/// A number is written without leading zeros: one digit below ten, and more
/// from there on.
pub proof fn decimals_have_no_leading_zeros(n: nat)
    ensures
        n > 0 ==> decimal(n)[0] != '0',
        n < 10 ==> decimal(n).len() == 1,
        n >= 10 ==> decimal(n).len() > 1,
    decreases n,
{
    if n >= 10 {
        decimals_have_no_leading_zeros(n / 10);
        decimal_is_the_number(n / 10);
        assert(decimal(n)[0] == decimal(n / 10)[0]);
    }
}

/// Each digit further to the left counts ten times as much.
pub proof fn digits_count_in_tens(s: Seq<char>, c: char)
    requires
        is_digit(c),
    ensures
        digits_value(s.push(c)) == 10 * digits_value(s) + (c as int - '0' as int),
        digits_value(Seq::empty()) == 0,
{
    assert(s.push(c).drop_last() =~= s);
}

/// Two numbers are never written alike.
pub proof fn decimals_differ(a: nat, b: nat)
    requires
        decimal(a) == decimal(b),
    ensures
        a == b,
{
    decimal_is_the_number(a);
    decimal_is_the_number(b);
}

/// Digits read as their number, with a plus sign in front too, and with a minus
/// sign as its negative; a number beyond 32 bits does not read.
pub proof fn signed_digits_read_as_their_number(digits: Seq<char>)
    requires
        all_digits(digits),
    ensures
        digits_value(digits) <= 2_147_483_647 ==> i32_value(digits) == Some(
            digits_value(digits) as i32,
        ),
        digits_value(digits) > 2_147_483_647 ==> i32_value(digits) is None,
        i32_value(seq!['+'] + digits) == i32_value(digits),
        digits_value(digits) <= 2_147_483_648 ==> i32_value(seq!['-'] + digits) == Some(
            (-(digits_value(digits) as int)) as i32,
        ),
        digits_value(digits) > 2_147_483_648 ==> i32_value(seq!['-'] + digits) is None,
{
    assert(is_digit(digits[0]));
    assert((seq!['+'] + digits).skip(1) =~= digits);
    assert((seq!['-'] + digits).skip(1) =~= digits);
}

/// Nothing but digits, with at most one sign in front, reads as a number.
pub proof fn only_signed_digits_read_as_numbers(s: Seq<char>)
    requires
        i32_value(s) is Some,
    ensures
        all_digits(s) || (s.len() > 1 && (s[0] == '+' || s[0] == '-') && all_digits(s.skip(1))),
{
}

/// There are ten digits, from 0 to 9.
pub proof fn there_are_ten_digits(c: char, d: nat)
    ensures
        d < 10 ==> is_digit(digit(d)) && digits_value(seq![digit(d)]) == d,
        is_digit(c) ==> c as int - 48 < 10 && digit((c as int - 48) as nat) == c,
        is_digit(c) <==> c == '0' || c == '1' || c == '2' || c == '3' || c == '4' || c == '5' || c
            == '6' || c == '7' || c == '8' || c == '9',
{
    assert(seq![digit(d)].drop_last() =~= Seq::empty());
    assert(digits_value(Seq::<char>::empty()) == 0);
}

/// The text of a number that is not negative is its digits, without a sign; that
/// of a negative one is a minus sign and the digits of its opposite.
pub proof fn only_negative_numbers_have_a_sign(n: int)
    ensures
        n >= 0 ==> all_digits(signed_decimal(n)) && digits_value(signed_decimal(n)) == n,
        n < 0 ==> {
            &&& signed_decimal(n)[0] == '-'
            &&& all_digits(signed_decimal(n).skip(1))
            &&& digits_value(signed_decimal(n).skip(1)) == -n
        },
        n > 0 ==> signed_decimal(n)[0] != '0',
{
    if n >= 0 {
        decimal_is_the_number(n as nat);
        decimals_have_no_leading_zeros(n as nat);
    } else {
        decimal_is_the_number((-n) as nat);
        assert(signed_decimal(n).skip(1) =~= decimal((-n) as nat));
    }
}

} // verus!
