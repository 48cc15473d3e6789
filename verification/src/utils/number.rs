//! Numbers and truth values written as text.

use vstd::arithmetic::power::{lemma_pow0, lemma_pow_increases, pow};
use vstd::prelude::*;

use crate::utils::text::{chars_of, str_eq};

verus! {

/// The character that stands for a decimal digit.
pub open spec fn digit(d: nat) -> char {
    (d + '0' as nat) as char
}

/// A number in decimal digits.
pub open spec fn decimal(n: nat) -> Seq<char>
    decreases n,
{
    if n < 10 {
        seq![digit(n)]
    } else {
        decimal(n / 10).push(digit(n % 10))
    }
}

/// A number in decimal digits, with zeros in front up to the given width.
pub open spec fn zero_padded(n: nat, width: nat) -> Seq<char> {
    let digits = decimal(n);
    if digits.len() < width {
        Seq::new((width - digits.len()) as nat, |i: int| '0') + digits
    } else {
        digits
    }
}

/// The least number of decimal digits whose power of ten is no less than `n`.
pub open spec fn is_ceil_log10(n: nat, k: nat) -> bool {
    &&& n <= pow(10, k)
    &&& k > 0 ==> pow(10, (k - 1) as nat) < n
}

fn digit_char(d: u64) -> (c: char)
    requires
        d < 10,
    ensures
        c == digit(d as nat),
{
    match d {
        0 => '0',
        1 => '1',
        2 => '2',
        3 => '3',
        4 => '4',
        5 => '5',
        6 => '6',
        7 => '7',
        8 => '8',
        _ => '9',
    }
}

/// Write a number in decimal digits, with zeros in front up to the given width.
pub fn format_padded(n: u64, width: usize) -> (text: String)
    ensures
        text@ == zero_padded(n as nat, width as nat),
{
    let mut reversed: Vec<char> = Vec::new();
    let mut rest: u64 = n;
    reversed.push(digit_char(rest % 10));
    rest = rest / 10;
    assert(reversed@.reverse() =~= seq![digit((n % 10) as nat)]);
    while rest > 0
        invariant
            reversed@.len() > 0,
            rest == 0 ==> decimal(n as nat) == reversed@.reverse(),
            rest > 0 ==> decimal(n as nat) == decimal(rest as nat) + reversed@.reverse(),
        decreases rest,
    {
        let ghost before = reversed@;
        let ghost old_rest = rest as nat;
        reversed.push(digit_char(rest % 10));
        rest = rest / 10;
        proof {
            assert(reversed@.reverse() =~= seq![digit(old_rest % 10)] + before.reverse());
            if rest > 0 {
                assert(decimal(old_rest) + before.reverse() =~= decimal(rest as nat)
                    + reversed@.reverse());
            } else {
                assert(decimal(old_rest) + before.reverse() =~= reversed@.reverse());
            }
        }
    }
    let mut text: String = String::new();
    let mut pad: usize = if reversed.len() < width { width - reversed.len() } else { 0 };
    let ghost pads = pad as int;
    while pad > 0
        invariant
            0 <= pad <= pads,
            text@ == Seq::new((pads - pad) as nat, |i: int| '0'),
        decreases pad,
    {
        text.push('0');
        pad -= 1;
        assert(text@ =~= Seq::new((pads - pad) as nat, |i: int| '0'));
    }
    let ghost zeros = text@;
    let mut i: usize = reversed.len();
    assert(reversed@.subrange(i as int, reversed@.len() as int).reverse() =~= Seq::empty());
    while i > 0
        invariant
            i <= reversed@.len(),
            text@ == zeros + reversed@.reverse().take(reversed@.len() - i),
        decreases i,
    {
        i -= 1;
        text.push(reversed[i]);
        assert(text@ =~= zeros + reversed@.reverse().take(reversed@.len() - i));
    }
    assert(reversed@.reverse().take(reversed@.len() as int) =~= reversed@.reverse());
    assert(text@ =~= zero_padded(n as nat, width as nat));
    text
}

/// Write a number in decimal digits.
pub fn format_decimal(n: u64) -> (text: String)
    ensures
        text@ == decimal(n as nat),
{
    format_padded(n, 0)
}

/// The least number of decimal digits whose power of ten is no less than `n`.
pub fn ceil_log10(n: usize) -> (k: usize)
    ensures
        is_ceil_log10(n as nat, k as nat),
{
    let mut k: usize = 0;
    let mut power: u128 = 1;
    proof {
        lemma_pow0(10);
    }
    while power < n as u128
        invariant
            power == pow(10, k as nat),
            k > 0 ==> pow(10, (k - 1) as nat) < n,
            power <= 10 * (usize::MAX as u128),
            1 <= power,
            k < power,
        decreases 10 * (n as int) - power,
    {
        proof {
            reveal(pow);
        }
        power = power * 10;
        k += 1;
    }
    k
}

/// No two numbers of digits are both the least one.
pub(crate) proof fn lemma_ceil_log10_unique(n: nat, j: nat, k: nat)
    requires
        is_ceil_log10(n, j),
        is_ceil_log10(n, k),
    ensures
        j == k,
{
    if j < k {
        lemma_pow_increases(10, j, (k - 1) as nat);
    } else if k < j {
        lemma_pow_increases(10, k, (j - 1) as nat);
    }
}

/// A decimal digit.
pub open spec fn is_digit(c: char) -> bool {
    '0' <= c && c <= '9'
}

/// The number that a list of decimal digits stands for.
pub open spec fn digits_value(digits: Seq<char>) -> nat
    decreases digits.len(),
{
    if digits.len() == 0 {
        0
    } else {
        digits_value(digits.drop_last()) * 10 + (digits.last() as nat - '0' as nat) as nat
    }
}

/// The digits of a number that may have one plus sign in front.
pub open spec fn unsigned_digits(text: Seq<char>) -> Seq<char> {
    if text.len() > 0 && text[0] == '+' {
        text.drop_first()
    } else {
        text
    }
}

/// The number that a text stands for: an optional plus sign, and at least one decimal digit, that
/// give a value of 64 bits.
pub open spec fn parsed_u64(text: Seq<char>) -> Option<u64> {
    let digits = unsigned_digits(text);
    if digits.len() > 0 && (forall|i: int| 0 <= i < digits.len() ==> is_digit(#[trigger] digits[i]))
        && digits_value(digits) <= u64::MAX {
        Some(digits_value(digits) as u64)
    } else {
        None
    }
}

proof fn lemma_digits_value_grows(digits: Seq<char>, n: int)
    requires
        0 <= n <= digits.len(),
    ensures
        digits_value(digits.take(n)) <= digits_value(digits),
    decreases digits.len() - n,
{
    if n < digits.len() {
        lemma_digits_value_grows(digits, n + 1);
        assert(digits.take(n + 1).drop_last() =~= digits.take(n));
    } else {
        assert(digits.take(n) =~= digits);
    }
}

/// Read a number of 64 bits.
pub fn parse_u64(text: &str) -> (value: Option<u64>)
    ensures
        value == parsed_u64(text@),
{
    let chars: Vec<char> = chars_of(text);
    let start: usize = if chars.len() > 0 && chars[0] == '+' { 1 } else { 0 };
    let ghost digits = unsigned_digits(text@);
    assert(digits =~= chars@.subrange(start as int, chars@.len() as int));
    if start == chars.len() {
        return None;
    }
    let mut value: u64 = 0;
    let mut i: usize = start;
    while i < chars.len()
        invariant
            start <= i <= chars@.len(),
            chars@ == text@,
            digits == unsigned_digits(text@),
            digits == chars@.subrange(start as int, chars@.len() as int),
            forall|j: int| 0 <= j < i - start ==> is_digit(#[trigger] digits[j]),
            value == digits_value(digits.take(i - start)),
        decreases chars@.len() - i,
    {
        let c: char = chars[i];
        assert(digits[i - start] == c);
        if !('0' <= c && c <= '9') {
            return None;
        }
        proof {
            assert(digits.take(i - start + 1).drop_last() =~= digits.take(i - start));
            lemma_digits_value_grows(digits, i - start + 1);
        }
        let d: u64 = c as u64 - '0' as u64;
        match value.checked_mul(10) {
            None => {
                return None;
            },
            Some(tens) => match tens.checked_add(d) {
                None => {
                    return None;
                },
                Some(next) => {
                    value = next;
                },
            },
        }
        i += 1;
    }
    assert(digits.take(digits.len() as int) =~= digits);
    Some(value)
}

/// Some digits at the start of a text, behind a plus sign that may stand in front, already give more
/// than 64 bits can hold.
pub open spec fn starts_too_large(text: Seq<char>) -> bool {
    exists|n: int| #[trigger] is_too_large(unsigned_digits(text), n)
}

/// The first `n` characters are digits that give more than 64 bits can hold.
pub open spec fn is_too_large(text: Seq<char>, n: int) -> bool {
    &&& 0 <= n <= text.len()
    &&& forall|i: int| 0 <= i < n ==> is_digit(#[trigger] text[i])
    &&& digits_value(text.take(n)) > u64::MAX
}

/// Do the digits at the start of a text already give more than 64 bits can hold?
pub fn begins_too_large(text: &str) -> (large: bool)
    ensures
        large == starts_too_large(text@),
{
    let chars: Vec<char> = chars_of(text);
    let start: usize = if chars.len() > 0 && chars[0] == '+' { 1 } else { 0 };
    let ghost digits = unsigned_digits(text@);
    assert(digits =~= chars@.subrange(start as int, chars@.len() as int));
    let mut value: u128 = 0;
    let mut i: usize = start;
    while i < chars.len() && '0' <= chars[i] && chars[i] <= '9'
        invariant
            start <= i <= chars@.len(),
            chars@ == text@,
            digits == unsigned_digits(text@),
            digits == chars@.subrange(start as int, chars@.len() as int),
            forall|j: int| 0 <= j < i - start ==> is_digit(#[trigger] digits[j]),
            value == digits_value(digits.take(i - start)),
            value <= u64::MAX,
        decreases chars@.len() - i,
    {
        let c: char = chars[i];
        assert(digits[i - start] == c);
        assert(digits.take(i - start + 1).drop_last() =~= digits.take(i - start));
        value = value * 10 + (c as u128 - '0' as u128);
        i += 1;
        if value > u64::MAX as u128 {
            assert(is_too_large(digits, i - start));
            return true;
        }
    }
    proof {
        assert forall|n: int| !#[trigger] is_too_large(digits, n) by {
            if is_too_large(digits, n) {
                if n <= i - start {
                    lemma_digits_value_grows(digits.take(i - start), n);
                    assert(digits.take(i - start).take(n) =~= digits.take(n));
                } else {
                    assert(is_digit(digits[i - start]));
                    assert(digits[i - start] == chars@[i as int]);
                }
            }
        }
    }
    false
}

/// The truth value that a text stands for.
pub open spec fn parsed_bool(text: Seq<char>) -> Option<bool> {
    if text == "true"@ {
        Some(true)
    } else if text == "false"@ {
        Some(false)
    } else {
        None
    }
}

/// Read a truth value.
pub fn parse_bool(text: &str) -> (value: Option<bool>)
    ensures
        value == parsed_bool(text@),
{
    if str_eq(text, "true") {
        Some(true)
    } else if str_eq(text, "false") {
        Some(false)
    } else {
        None
    }
}

} // verus!
