//! What holds of writing and reading numbers.

use vstd::prelude::*;

use crate::utils::number::{
    decimal, digit, digits_value, is_digit, parsed_u64, unsigned_digits, zero_padded,
};
use crate::utils::task_name::{generated_task_name, index_width};
use crate::utils::task_name_laws::{law_last_index_is_not_padded, law_sub_task_names_equally_long};

verus! {

proof fn lemma_written_number(n: nat)
    ensures
        decimal(n).len() > 0,
        forall|i: int| 0 <= i < decimal(n).len() ==> '0' <= #[trigger] decimal(n)[i] <= '9',
        digits_value(decimal(n)) == n,
    decreases n,
{
    if n < 10 {
        assert(decimal(n).drop_last() =~= Seq::<char>::empty());
        assert(decimal(n).last() == digit(n));
        assert(digits_value(decimal(n).drop_last()) == 0);
    } else {
        lemma_written_number(n / 10);
        assert(decimal(n).drop_last() =~= decimal(n / 10));
        assert(decimal(n).last() == digit(n % 10));
        assert forall|i: int| 0 <= i < decimal(n).len() implies '0' <= #[trigger] decimal(n)[i]
            <= '9' by {
            if i < decimal(n / 10).len() {
                assert(decimal(n)[i] == decimal(n / 10)[i]);
            }
        }
    }
}

proof fn lemma_leading_zeros(zeros: Seq<char>, digits: Seq<char>)
    requires
        forall|i: int| 0 <= i < zeros.len() ==> #[trigger] zeros[i] == '0',
    ensures
        digits_value(zeros + digits) == digits_value(digits),
    decreases zeros.len() + digits.len(),
{
    if digits.len() > 0 {
        lemma_leading_zeros(zeros, digits.drop_last());
        assert((zeros + digits).drop_last() =~= zeros + digits.drop_last());
    } else {
        assert(zeros + digits =~= zeros);
        if zeros.len() > 0 {
            lemma_leading_zeros(zeros.drop_last(), digits);
            assert(zeros.drop_last() + digits =~= zeros.drop_last());
            assert(zeros.last() == zeros[zeros.len() - 1]);
        }
    }
}

proof fn lemma_digits_are_read(digits: Seq<char>, n: u64)
    requires
        digits.len() > 0,
        forall|i: int| 0 <= i < digits.len() ==> '0' <= #[trigger] digits[i] <= '9',
        digits_value(digits) == n,
    ensures
        parsed_u64(digits) == Some(n),
{
    assert('0' <= digits[0] <= '9');
    assert(unsigned_digits(digits) == digits);
    assert forall|i: int| 0 <= i < digits.len() implies is_digit(#[trigger] digits[i]) by {
        assert('0' <= digits[i] <= '9');
    }
}

/// A number that is written, with or without leading zeros, is read back.
pub proof fn law_written_numbers_are_read_back(n: u64, width: nat)
    ensures
        parsed_u64(decimal(n as nat)) == Some(n),
        parsed_u64(zero_padded(n as nat, width)) == Some(n),
        zero_padded(n as nat, width).len() >= width,
        n >= 10 ==> decimal(n as nat)[0] != '0',
    decreases n,
{
    let digits = decimal(n as nat);
    lemma_written_number(n as nat);
    lemma_digits_are_read(digits, n);
    let padded = zero_padded(n as nat, width);
    if digits.len() < width {
        let zeros = Seq::new((width - digits.len()) as nat, |i: int| '0');
        lemma_leading_zeros(zeros, digits);
        assert(padded == zeros + digits);
        assert forall|i: int| 0 <= i < padded.len() implies '0' <= #[trigger] padded[i] <= '9' by {
            if i >= zeros.len() {
                assert(padded[i] == digits[i - zeros.len()]);
            }
        }
        lemma_digits_are_read(padded, n);
    }
    if n >= 10 {
        law_written_numbers_are_read_back(n / 10, width);
        assert(digits[0] == decimal(n as nat / 10)[0]) by {
            lemma_written_number(n as nat / 10);
        }
        if n < 100 {
            assert(decimal(n as nat / 10)[0] == digit(n as nat / 10));
        }
    }
}

/// What is read as a number is made of digits, the last of which counts least. A plus sign may
/// stand before them.
pub proof fn law_numbers_are_read_digit_by_digit(text: Seq<char>, last: char, n: u64)
    ensures
        parsed_u64(text) == Some(n) && '0' <= last <= '9' && n * 10 + (last as nat - '0' as nat)
            <= u64::MAX ==> parsed_u64(text.push(last)) == Some(
            (n * 10 + (last as nat - '0' as nat)) as u64,
        ),
        !('0' <= last <= '9') ==> parsed_u64(text.push(last)) is None,
        parsed_u64(text) is Some && text.len() > 0 && text[0] != '+' ==> parsed_u64(seq!['+'] + text)
            == parsed_u64(text),
        text.len() == 0 ==> parsed_u64(text) is None,
        '0' <= last <= '9' ==> parsed_u64(seq![last]) == Some((last as nat - '0' as nat) as u64),
{
    let longer = text.push(last);
    let digits = unsigned_digits(text);
    if text.len() > 0 {
        assert(unsigned_digits(longer) =~= digits.push(last));
    } else {
        assert(text =~= Seq::<char>::empty());
        if last == '+' {
            assert(longer[0] == '+');
            assert(unsigned_digits(longer).len() == 0);
        } else {
            assert(unsigned_digits(longer) =~= longer);
            assert(longer =~= digits.push(last));
        }
    }
    assert(digits.push(last).drop_last() =~= digits);
    if parsed_u64(text) == Some(n) && '0' <= last <= '9' {
        assert forall|i: int| 0 <= i < digits.push(last).len() implies is_digit(
            #[trigger] digits.push(last)[i],
        ) by {
            if i < digits.len() {
                assert(is_digit(digits[i]));
            }
        }
    }
    if !('0' <= last <= '9') && parsed_u64(longer) is Some {
        let read = unsigned_digits(longer);
        assert(is_digit(read[read.len() - 1]));
    }
    let signed = seq!['+'] + text;
    assert(unsigned_digits(signed) =~= text);
    let single = seq![last];
    assert(single.drop_last() =~= Seq::<char>::empty());
    if '0' <= last <= '9' {
        assert(unsigned_digits(single) == single);
        assert(digits_value(single.drop_last()) == 0);
        assert forall|i: int| 0 <= i < single.len() implies is_digit(#[trigger] single[i]) by {}
    }
}

/// A name that is made of another and a number, and tells enterprise tasks apart. The number has as
/// many digits as the last of all that are counted.
pub open spec fn is_numbered_name(
    name: Seq<char>,
    base: Seq<char>,
    number: usize,
    total: nat,
    is_enterprise: bool,
) -> bool {
    exists|digits: Seq<char>| #[trigger]
        parsed_u64(digits) == Some(number as u64) && (number < total <= usize::MAX ==> digits.len()
            == decimal((total - 1) as nat).len()) && name == base + "_"@ + digits + (
        if is_enterprise {
            "-enterprise"@
        } else {
            ""@
        })
}

/// The name of a sub-task is that of its task, the index of the sub-task, and the module of
/// enterprise tasks.
pub proof fn law_sub_task_names_hold_their_index(
    display_name: Seq<char>,
    index: usize,
    total_tasks: nat,
    is_enterprise: bool,
)
    ensures
        is_numbered_name(
            generated_task_name(display_name, Some(index), total_tasks, is_enterprise),
            display_name,
            index,
            total_tasks,
            is_enterprise,
        ),
        generated_task_name(display_name, None, total_tasks, is_enterprise) == display_name
            + "_misc"@ + (if is_enterprise {
            "-enterprise"@
        } else {
            ""@
        }),
{
    reveal_strlit("");
    reveal_strlit("-");
    reveal_strlit("enterprise");
    reveal_strlit("-enterprise");
    assert("-"@ + "enterprise"@ =~= "-enterprise"@);
    let digits = zero_padded(index as nat, index_width(total_tasks));
    law_written_numbers_are_read_back(index as u64, index_width(total_tasks));
    let name = generated_task_name(display_name, Some(index), total_tasks, is_enterprise);
    assert(parsed_u64(digits) == Some(index as u64));
    if index < total_tasks <= usize::MAX {
        let last = (total_tasks - 1) as nat;
        law_sub_task_names_equally_long(
            display_name,
            index,
            last as usize,
            total_tasks as usize,
            is_enterprise,
        );
        law_last_index_is_not_padded(display_name, total_tasks as usize, is_enterprise);
    }
    assert(name =~= display_name + "_"@ + digits + (if is_enterprise {
        "-enterprise"@
    } else {
        ""@
    }));
    assert(generated_task_name(display_name, None, total_tasks, is_enterprise) =~= display_name
        + "_misc"@ + (if is_enterprise {
        "-enterprise"@
    } else {
        ""@
    }));
}

} // verus!
