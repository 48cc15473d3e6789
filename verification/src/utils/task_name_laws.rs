//! What holds of the names of generated tasks.

use vstd::arithmetic::power::pow;
use vstd::prelude::*;

use crate::utils::number::{
    decimal, digit, digits_value, is_ceil_log10, is_digit, zero_padded,
};
use crate::utils::task_name::{
    enterprise_suffix, generated_task_name, index_width, without_gen_suffix, GEN_SUFFIX,
};

verus! {

/// The value of the digits of a number is the number.
proof fn lemma_decimal_value(n: nat)
    ensures
        digits_value(decimal(n)) == n,
        decimal(n).len() > 0,
    decreases n,
{
    reveal_with_fuel(digits_value, 2);
    if n < 10 {
        assert(decimal(n).drop_last() =~= Seq::<char>::empty());
        lemma_digit_value(n);
    } else {
        lemma_decimal_value(n / 10);
        assert(decimal(n).drop_last() =~= decimal(n / 10));
        lemma_digit_value(n % 10);
    }
}

/// The character of a digit tells the digit.
proof fn lemma_digit_value(d: nat)
    requires
        d < 10,
    ensures
        digit(d) as nat - '0' as nat == d,
{
}

/// Zeros in front do not change the value of digits.
proof fn lemma_leading_zeros(zeros: nat, digits: Seq<char>)
    ensures
        digits_value(Seq::new(zeros, |i: int| '0') + digits) == digits_value(digits),
    decreases zeros + digits.len(),
{
    let front = Seq::new(zeros, |i: int| '0');
    let all = front + digits;
    if digits.len() > 0 {
        assert(all.drop_last() =~= front + digits.drop_last());
        lemma_leading_zeros(zeros, digits.drop_last());
    } else if zeros > 0 {
        let fewer = Seq::new((zeros - 1) as nat, |i: int| '0');
        assert(all.drop_last() =~= fewer + digits);
        lemma_leading_zeros((zeros - 1) as nat, digits);
    }
}

/// The value of a padded number is the number.
proof fn lemma_padded_value(n: nat, width: nat)
    ensures
        digits_value(zero_padded(n, width)) == n,
{
    let digits = decimal(n);
    lemma_decimal_value(n);
    if digits.len() < width {
        lemma_leading_zeros((width - digits.len()) as nat, digits);
    }
}

/// A number under a power of ten has no more digits than the exponent says, but at least one.
proof fn lemma_decimal_length(n: nat, k: nat)
    requires
        n < pow(10, k),
    ensures
        decimal(n).len() <= (if k == 0 { 1 } else { k }),
    decreases k,
{
    reveal(pow);
    if n >= 10 {
        assert(pow(10, k) == 10 * pow(10, (k - 1) as nat));
        lemma_decimal_length(n / 10, (k - 1) as nat);
        if k == 1 {
            assert(pow(10, 0) == 1);
        }
    }
}

/// The sub-tasks of a task have different names.
pub proof fn law_sub_task_names_differ(
    display_name: Seq<char>,
    i: usize,
    j: usize,
    total_tasks: nat,
    is_enterprise: bool,
)
    requires
        i != j,
    ensures
        generated_task_name(display_name, Some(i), total_tasks, is_enterprise)
            != generated_task_name(display_name, Some(j), total_tasks, is_enterprise),
{
    let width = index_width(total_tasks);
    let first = zero_padded(i as nat, width);
    let second = zero_padded(j as nat, width);
    lemma_padded_value(i as nat, width);
    lemma_padded_value(j as nat, width);
    let front = display_name + "_"@;
    let back = enterprise_suffix(is_enterprise);
    let left = generated_task_name(display_name, Some(i), total_tasks, is_enterprise);
    let right = generated_task_name(display_name, Some(j), total_tasks, is_enterprise);
    assert(left =~= front + first + back);
    assert(right =~= front + second + back);
    if left == right {
        let start = front.len() as int;
        assert(first.len() == second.len());
        assert(left.subrange(start, start + first.len()) =~= first);
        assert(right.subrange(start, start + second.len()) =~= second);
    }
}

/// The names of the sub-tasks of a task are equally long.
pub proof fn law_sub_task_names_equally_long(
    display_name: Seq<char>,
    i: usize,
    j: usize,
    total_tasks: usize,
    is_enterprise: bool,
)
    requires
        i < total_tasks,
        j < total_tasks,
    ensures
        generated_task_name(display_name, Some(i), total_tasks as nat, is_enterprise).len()
            == generated_task_name(display_name, Some(j), total_tasks as nat, is_enterprise).len(),
{
    let total = total_tasks as nat;
    let width = index_width(total);
    lemma_some_width(total);
    lemma_decimal_length(i as nat, width);
    lemma_decimal_length(j as nat, width);
    lemma_decimal_value(i as nat);
    lemma_decimal_value(j as nat);
    assert(generated_task_name(display_name, Some(i), total, is_enterprise).len()
        == display_name.len() + "_"@.len() + zero_padded(i as nat, width).len()
        + enterprise_suffix(is_enterprise).len());
    assert(generated_task_name(display_name, Some(j), total, is_enterprise).len()
        == display_name.len() + "_"@.len() + zero_padded(j as nat, width).len()
        + enterprise_suffix(is_enterprise).len());
}

/// A text stands in front of another one in the order of texts: the first characters in which they
/// differ are in that order.
pub open spec fn comes_before(left: Seq<char>, right: Seq<char>) -> bool {
    exists|k: int| #[trigger] differs_first_at(left, right, k) && left[k] < right[k]
}

/// Two texts are the same up to a place.
pub open spec fn differs_first_at(left: Seq<char>, right: Seq<char>, k: int) -> bool {
    0 <= k < left.len() && k < right.len() && left.take(k) == right.take(k)
}

/// All characters are digits.
spec fn all_digits(text: Seq<char>) -> bool {
    forall|i: int| 0 <= i < text.len() ==> is_digit(#[trigger] text[i])
}

proof fn lemma_decimal_digits(n: nat)
    ensures
        all_digits(decimal(n)),
    decreases n,
{
    if n >= 10 {
        lemma_decimal_digits(n / 10);
    }
}

/// A number that is no less than a power of ten has more digits than the exponent says.
proof fn lemma_decimal_reaches(n: nat, k: nat)
    requires
        pow(10, k) <= n,
    ensures
        k < decimal(n).len(),
    decreases k,
{
    reveal(pow);
    if k > 0 {
        assert(pow(10, k) == 10 * pow(10, (k - 1) as nat));
        lemma_decimal_reaches(n / 10, (k - 1) as nat);
        vstd::arithmetic::power::lemma_pow_positive(10, (k - 1) as nat);
    } else {
        lemma_decimal_value(n);
    }
}

/// Digits of the same number of places are in the order of their values.
proof fn lemma_digits_in_order(left: Seq<char>, right: Seq<char>)
    requires
        left.len() == right.len(),
        all_digits(left),
        all_digits(right),
    ensures
        digits_value(left) < digits_value(right) ==> comes_before(left, right),
        digits_value(left) == digits_value(right) ==> left == right,
    decreases left.len(),
{
    if left.len() > 0 {
        let a = left.drop_last();
        let b = right.drop_last();
        assert(is_digit(left.last()) && is_digit(right.last()));
        lemma_digits_in_order(a, b);
        lemma_digits_in_order(b, a);
        if digits_value(left) < digits_value(right) {
            if digits_value(a) < digits_value(b) {
                let k = choose|k: int| #[trigger] differs_first_at(a, b, k) && a[k] < b[k];
                assert(left.take(k) =~= a.take(k));
                assert(right.take(k) =~= b.take(k));
                assert(differs_first_at(left, right, k));
            } else {
                assert(digits_value(a) == digits_value(b));
                let k = left.len() - 1;
                assert(left.take(k) =~= a);
                assert(right.take(k) =~= b);
                assert(differs_first_at(left, right, k));
            }
        } else if digits_value(left) == digits_value(right) {
            assert(digits_value(a) == digits_value(b));
            assert(left =~= a.push(left.last()));
            assert(right =~= b.push(right.last()));
        }
    } else {
        assert(left =~= right);
    }
}

/// The names of the sub-tasks of a task are in the order of their indexes.
pub proof fn law_sub_task_names_are_in_order(
    display_name: Seq<char>,
    i: usize,
    j: usize,
    total_tasks: usize,
    is_enterprise: bool,
)
    requires
        i < j < total_tasks,
    ensures
        comes_before(
            generated_task_name(display_name, Some(i), total_tasks as nat, is_enterprise),
            generated_task_name(display_name, Some(j), total_tasks as nat, is_enterprise),
        ),
{
    let total = total_tasks as nat;
    let width = index_width(total);
    let first = zero_padded(i as nat, width);
    let second = zero_padded(j as nat, width);
    lemma_some_width(total);
    lemma_decimal_length(i as nat, width);
    lemma_decimal_length(j as nat, width);
    lemma_padded_value(i as nat, width);
    lemma_padded_value(j as nat, width);
    lemma_decimal_value(i as nat);
    lemma_decimal_value(j as nat);
    lemma_decimal_digits(i as nat);
    lemma_decimal_digits(j as nat);
    lemma_digits_in_order(first, second);
    let at = choose|k: int| #[trigger] differs_first_at(first, second, k) && first[k] < second[k];
    let front = display_name + "_"@;
    let back = enterprise_suffix(is_enterprise);
    let left = generated_task_name(display_name, Some(i), total, is_enterprise);
    let right = generated_task_name(display_name, Some(j), total, is_enterprise);
    assert(left =~= front + first + back);
    assert(right =~= front + second + back);
    let k = front.len() + at;
    assert(left.take(k) =~= front + first.take(at));
    assert(right.take(k) =~= front + second.take(at));
    assert(differs_first_at(left, right, k));
}

/// The index of the last sub-task of a task is written without zeros in front.
pub proof fn law_last_index_is_not_padded(
    display_name: Seq<char>,
    total_tasks: usize,
    is_enterprise: bool,
)
    requires
        total_tasks > 0,
    ensures
        generated_task_name(
            display_name,
            Some((total_tasks - 1) as usize),
            total_tasks as nat,
            is_enterprise,
        ) == display_name + "_"@ + decimal((total_tasks - 1) as nat) + enterprise_suffix(
            is_enterprise,
        ),
{
    let total = total_tasks as nat;
    let width = index_width(total);
    let last = (total - 1) as nat;
    lemma_some_width(total);
    if width > 0 {
        lemma_decimal_reaches(last, (width - 1) as nat);
    }
    assert(zero_padded(last, width) == decimal(last));
    assert(display_name + ("_"@ + decimal(last)) + enterprise_suffix(is_enterprise)
        =~= display_name + "_"@ + decimal(last) + enterprise_suffix(is_enterprise));
}

/// There is a least number of digits for each number.
proof fn lemma_some_width(n: nat)
    ensures
        is_ceil_log10(n, index_width(n)),
{
    lemma_power_exceeds(n);
    let k = least_width(n, n);
    assert(is_ceil_log10(n, k));
}

/// Find the least number of digits, given one whose power of ten is enough.
proof fn least_width(n: nat, enough: nat) -> (k: nat)
    requires
        n <= pow(10, enough),
    ensures
        is_ceil_log10(n, k),
    decreases enough,
{
    if enough > 0 && n <= pow(10, (enough - 1) as nat) {
        least_width(n, (enough - 1) as nat)
    } else {
        enough
    }
}

/// A power of ten is more than its exponent.
proof fn lemma_power_exceeds(k: nat)
    ensures
        k < pow(10, k),
    decreases k,
{
    reveal(pow);
    if k > 0 {
        lemma_power_exceeds((k - 1) as nat);
    }
}

/// A sub-task is named differently on enterprise build variants than on others.
pub proof fn law_enterprise_names_differ(
    display_name: Seq<char>,
    index: Option<usize>,
    total_tasks: nat,
)
    ensures
        generated_task_name(display_name, index, total_tasks, true) != generated_task_name(
            display_name,
            index,
            total_tasks,
            false,
        ),
{
    reveal_strlit("-");
    assert(enterprise_suffix(true).len() > 0);
    assert(generated_task_name(display_name, index, total_tasks, true).len()
        > generated_task_name(display_name, index, total_tasks, false).len());
}

/// Taking the suffix of generating tasks off gives back the name that it was put on.
pub proof fn law_gen_suffix_comes_off(name: Seq<char>)
    ensures
        without_gen_suffix(name + GEN_SUFFIX@) == name,
{
    let whole = name + GEN_SUFFIX@;
    assert(GEN_SUFFIX@ =~= whole.subrange(
        whole.len() - GEN_SUFFIX@.len(),
        whole.len() as int,
    ));
    assert(whole.take(name.len() as int) =~= name);
}

} // verus!
