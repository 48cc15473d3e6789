//! Utilities for working with task names.

use vstd::prelude::*;

use crate::evergreen_names::ENTERPRISE_MODULE;
use crate::utils::number::{
    ceil_log10, format_padded, is_ceil_log10, lemma_ceil_log10_unique, zero_padded,
};
use crate::utils::text::ends_with;

verus! {

/// What a generating task's name ends with.
pub const GEN_SUFFIX: &'static str = "_gen";

/// What the name of a generated task ends with on an enterprise build variant.
pub open spec fn enterprise_suffix(is_enterprise: bool) -> Seq<char> {
    if is_enterprise {
        "-"@ + ENTERPRISE_MODULE@
    } else {
        Seq::empty()
    }
}

/// The number of digits that the index of one of `total_tasks` sub-tasks is written with.
pub open spec fn index_width(total_tasks: nat) -> nat {
    choose|k: nat| is_ceil_log10(total_tasks, k)
}

/// The name of a generated task.
pub open spec fn generated_task_name(
    display_name: Seq<char>,
    sub_task_index: Option<usize>,
    total_tasks: nat,
    is_enterprise: bool,
) -> Seq<char> {
    let middle = match sub_task_index {
        Some(index) => "_"@ + zero_padded(index as nat, index_width(total_tasks)),
        None => "_misc"@,
    };
    display_name + middle + enterprise_suffix(is_enterprise)
}

/// Generate a name for a generated task.
///
/// The sub-tasks are numbered, with zeros in front so that all numbers are written equally long.
/// A sub-task without an index is the one for miscellaneous tests.
///
/// # Arguments
///
/// * `display_name` - Name of task parent task being generated.
/// * `sub_task_index` - Index of sub-task being named.
/// * `total_tasks` - Total number of sub-tasks generated for this parent task.
/// * `is_enterprise` - Is the task for an enterprise build variant.
pub fn name_generated_task(
    display_name: &str,
    sub_task_index: Option<usize>,
    total_tasks: usize,
    is_enterprise: bool,
) -> (name: String)
    ensures
        name@ == generated_task_name(display_name@, sub_task_index, total_tasks as nat, is_enterprise),
{
    let mut name: String = display_name.to_owned();
    match sub_task_index {
        Some(index) => {
            let width: usize = ceil_log10(total_tasks);
            proof {
                lemma_ceil_log10_unique(total_tasks as nat, width as nat, index_width(total_tasks as nat));
            }
            name.append("_");
            name.append(format_padded(index as u64, width).as_str());
        },
        None => {
            name.append("_misc");
        },
    }
    if is_enterprise {
        name.append("-");
        name.append(ENTERPRISE_MODULE);
    }
    assert(name@ =~= generated_task_name(
        display_name@,
        sub_task_index,
        total_tasks as nat,
        is_enterprise,
    ));
    name
}

/// A task name without the suffix of generating tasks.
pub open spec fn without_gen_suffix(task_name: Seq<char>) -> Seq<char> {
    if GEN_SUFFIX@.is_suffix_of(task_name) {
        task_name.take(task_name.len() - GEN_SUFFIX@.len())
    } else {
        task_name
    }
}

/// Remove the '_gen' from end of the given task name if it exists.
///
/// # Arguments
///
/// * `task_name` - Name of task.
///
/// # Returns
///
/// Name of task with `_gen` stripped off.
pub fn remove_gen_suffix(task_name: &str) -> (name: &str)
    ensures
        name@ == without_gen_suffix(task_name@),
{
    if ends_with(task_name, GEN_SUFFIX) {
        let end: usize = task_name.unicode_len() - GEN_SUFFIX.unicode_len();
        assert(task_name@.subrange(0, end as int) =~= task_name@.take(end as int));
        task_name.substring_char(0, end)
    } else {
        task_name
    }
}

} // verus!
