//! What holds of the order of tests in the sub-suites that they are divided into by runtime.

use vstd::prelude::*;

use crate::evergreen::history_laws::law_base_names_have_no_directory;
use crate::task_types::test_splitting::{
    dealt, is_timed, lemma_min_index, lemma_next_in_turn, lemma_placed_lengths, min_index, placed,
    rank_of, runtime_of, sorted_by_runtime, split_by_runtime, Timings,
};
use crate::task_types::test_splitting_laws::{descending, lemma_sorting_descends};

verus! {

/// The runtime of a test file is the one that is known under its base name.
pub proof fn law_runtimes_are_known_by_base_name(
    timings: Timings,
    directory: Seq<char>,
    name: Seq<char>,
)
    requires
        !name.contains('/'),
        !".js"@.is_suffix_of(name),
    ensures
        is_timed(timings, directory + "/"@ + name + ".js"@) <==> timings.contains_key(name),
        timings.contains_key(name) ==> runtime_of(timings, directory + "/"@ + name + ".js"@)
            == timings[name].average_runtime,
        !timings.contains_key(name) ==> runtime_of(timings, directory + "/"@ + name + ".js"@) == 0,
{
    law_base_names_have_no_directory(directory, name);
}

/// No test has a lower rank.
spec fn all_at_least(timings: Timings, tests: Seq<Seq<char>>, rank: int) -> bool {
    forall|i: int| 0 <= i < tests.len() ==> rank_of(timings, #[trigger] tests[i]) >= rank
}

proof fn lemma_push_keeps_order(timings: Timings, tests: Seq<Seq<char>>, test: Seq<char>)
    requires
        descending(timings, tests),
        all_at_least(timings, tests, rank_of(timings, test)),
    ensures
        descending(timings, tests.push(test)),
        all_at_least(timings, tests.push(test), rank_of(timings, test)),
{
    let all = tests.push(test);
    assert forall|i: int, j: int|
        #![trigger all[i], all[j]]
        0 <= i < j < all.len() implies rank_of(timings, all[i]) >= rank_of(timings, all[j]) by {
        assert(all[i] == tests[i]);
        if j < tests.len() {
            assert(all[j] == tests[j]);
        }
    }
}

proof fn lemma_placed_order(timings: Timings, tests: Seq<Seq<char>>, n: nat, i: int)
    requires
        descending(timings, tests),
        0 <= i < n,
    ensures
        placed(timings, tests, n).suites.len() == n,
        descending(timings, placed(timings, tests, n).suites[i]),
        tests.len() > 0 ==> all_at_least(
            timings,
            placed(timings, tests, n).suites[i],
            rank_of(timings, tests.last()),
        ),
        forall|k: int|
            0 <= k < placed(timings, tests, n).left.len() ==> !is_timed(
                timings,
                #[trigger] placed(timings, tests, n).left[k],
            ),
    decreases tests.len(),
{
    lemma_placed_lengths(timings, tests, n);
    if tests.len() > 0 {
        let rest = tests.drop_last();
        let test = tests.last();
        assert(descending(timings, rest)) by {
            assert forall|a: int, b: int|
                #![trigger rest[a], rest[b]]
                0 <= a < b < rest.len() implies rank_of(timings, rest[a]) >= rank_of(
                timings,
                rest[b],
            ) by {
                assert(rest[a] == tests[a] && rest[b] == tests[b]);
            }
        }
        lemma_placed_order(timings, rest, n, i);
        let before = placed(timings, rest, n);
        lemma_placed_lengths(timings, rest, n);
        lemma_min_index(before.loads);
        if rest.len() > 0 {
            assert(rank_of(timings, tests[rest.len() - 1]) >= rank_of(
                timings,
                tests[tests.len() - 1],
            ));
            assert(all_at_least(timings, before.suites[i], rank_of(timings, test)));
        }
        if is_timed(timings, test) {
            let k = min_index(before.loads);
            if i == k {
                lemma_push_keeps_order(timings, before.suites[i], test);
            }
        }
    }
}

proof fn lemma_dealt_order(
    timings: Timings,
    suites: Seq<Seq<Seq<char>>>,
    tests: Seq<Seq<char>>,
    start: int,
    i: int,
)
    requires
        0 <= i < suites.len(),
        0 <= start < suites.len(),
        descending(timings, suites[i]),
        forall|k: int| 0 <= k < tests.len() ==> !is_timed(timings, #[trigger] tests[k]),
    ensures
        dealt(suites, tests, start).len() == suites.len(),
        descending(timings, dealt(suites, tests, start)[i]),
    decreases tests.len(),
{
    if tests.len() > 0 {
        let rest = tests.drop_last();
        lemma_dealt_order(timings, suites, rest, start, i);
        let before = dealt(suites, rest, start);
        lemma_next_in_turn(start, tests.len() - 1, suites.len() as int);
        let k = (start + tests.len() - 1) % (suites.len() as int);
        assert(!is_timed(timings, tests[tests.len() - 1]));
        if i == k {
            lemma_push_keeps_order(timings, before[i], tests.last());
        }
    }
}

/// Tests come into a sub-suite in the order of their runtimes, longest first, and behind them those
/// without a runtime history.
pub proof fn law_sub_suites_run_long_tests_first(
    timings: Timings,
    tests: Seq<Seq<char>>,
    n: nat,
    i: int,
    a: int,
    b: int,
)
    requires
        0 <= i < n,
        0 <= a < b < split_by_runtime(timings, tests, n)[i].len(),
    ensures
        is_timed(timings, split_by_runtime(timings, tests, n)[i][b]) ==> is_timed(
            timings,
            split_by_runtime(timings, tests, n)[i][a],
        ) && runtime_of(timings, split_by_runtime(timings, tests, n)[i][a]) >= runtime_of(
            timings,
            split_by_runtime(timings, tests, n)[i][b],
        ),
{
    let sorted = sorted_by_runtime(timings, tests);
    lemma_sorting_descends(timings, tests);
    let placement = placed(timings, sorted, n);
    lemma_placed_order(timings, sorted, n, i);
    lemma_placed_lengths(timings, sorted, n);
    lemma_min_index(placement.loads);
    let start = min_index(placement.loads);
    lemma_dealt_order(timings, placement.suites, placement.left, start, i);
    let suite = split_by_runtime(timings, tests, n)[i];
    assert(rank_of(timings, suite[a]) >= rank_of(timings, suite[b]));
}

} // verus!
