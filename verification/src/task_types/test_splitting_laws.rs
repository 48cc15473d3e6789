//! What holds of every division of tests into sub-suites.

use vstd::multiset::Multiset;
use vstd::prelude::*;

use crate::task_types::test_splitting::{
    dealt, even_start, insert_by_runtime, is_timed, law_sorting_keeps_tests, lemma_even_starts,
    lemma_min_index, lemma_next_in_turn, lemma_placed_lengths, min_index, placed, rank_of,
    runtime_of, sorted_by_runtime, split_by_runtime, split_evenly, Timings,
};

verus! {

/// The tests that have exactly the given rank, in their order.
pub open spec fn with_rank(timings: Timings, tests: Seq<Seq<char>>, rank: int) -> Seq<Seq<char>>
    decreases tests.len(),
{
    if tests.len() == 0 {
        Seq::empty()
    } else if rank_of(timings, tests.last()) == rank {
        with_rank(timings, tests.drop_last(), rank).push(tests.last())
    } else {
        with_rank(timings, tests.drop_last(), rank)
    }
}

/// The tests of all the sub-suites together.
pub open spec fn gathered(suites: Seq<Seq<Seq<char>>>) -> Multiset<Seq<char>>
    decreases suites.len(),
{
    if suites.len() == 0 {
        Multiset::empty()
    } else {
        gathered(suites.drop_last()).add(suites.last().to_multiset())
    }
}

/// The sub-suites one after the other.
pub open spec fn concatenated(suites: Seq<Seq<Seq<char>>>) -> Seq<Seq<char>>
    decreases suites.len(),
{
    if suites.len() == 0 {
        Seq::empty()
    } else {
        concatenated(suites.drop_last()) + suites.last()
    }
}

/// The historic runtime of a sub-suite.
pub open spec fn suite_runtime(timings: Timings, suite: Seq<Seq<char>>) -> int
    decreases suite.len(),
{
    if suite.len() == 0 {
        0
    } else {
        suite_runtime(timings, suite.drop_last()) + runtime_of(timings, suite.last())
    }
}

/// The number of tests without a runtime history in a sub-suite.
pub open spec fn untimed_count(timings: Timings, suite: Seq<Seq<char>>) -> int
    decreases suite.len(),
{
    if suite.len() == 0 {
        0
    } else {
        untimed_count(timings, suite.drop_last()) + (if is_timed(timings, suite.last()) {
            0int
        } else {
            1int
        })
    }
}

/// The tests are in descending order of what they are sorted by.
pub open spec fn descending(timings: Timings, tests: Seq<Seq<char>>) -> bool {
    forall|i: int, j: int|
        #![trigger tests[i], tests[j]]
        0 <= i < j < tests.len() ==> rank_of(timings, tests[i]) >= rank_of(timings, tests[j])
}

proof fn lemma_insertion_descends(timings: Timings, sorted: Seq<Seq<char>>, test: Seq<char>)
    requires
        descending(timings, sorted),
    ensures
        descending(timings, insert_by_runtime(timings, sorted, test)),
        sorted.len() > 0 && rank_of(timings, sorted.last()) < rank_of(timings, test)
            ==> forall|i: int|
            0 <= i < insert_by_runtime(timings, sorted, test).len() ==> rank_of(
                timings,
                #[trigger] insert_by_runtime(timings, sorted, test)[i],
            ) >= rank_of(timings, sorted.last()),
    decreases sorted.len(),
{
    let result = insert_by_runtime(timings, sorted, test);
    if sorted.len() == 0 || rank_of(timings, sorted.last()) >= rank_of(timings, test) {
        assert forall|i: int, j: int|
            #![trigger result[i], result[j]]
            0 <= i < j < result.len() implies rank_of(timings, result[i]) >= rank_of(
            timings,
            result[j],
        ) by {
            assert(result[i] == sorted[i]);
            assert(rank_of(timings, sorted[i]) >= rank_of(timings, sorted.last())) by {
                if i < sorted.len() - 1 {
                    assert(sorted[i] == sorted[i]);
                    assert(sorted[sorted.len() - 1] == sorted.last());
                }
            }
            if j < sorted.len() {
                assert(result[j] == sorted[j]);
            }
        }
    } else {
        let rest = sorted.drop_last();
        let inner = insert_by_runtime(timings, rest, test);
        lemma_insertion_descends(timings, rest, test);
        assert forall|i: int| 0 <= i < inner.len() implies rank_of(timings, #[trigger] inner[i])
            >= rank_of(timings, sorted.last()) by {
            lemma_insertion_members(timings, rest, test, i);
            if inner[i] != test {
                let k = choose|k: int| 0 <= k < rest.len() && rest[k] == inner[i];
                assert(sorted[k] == rest[k]);
                assert(sorted[sorted.len() - 1] == sorted.last());
            }
        }
        assert(result == inner.push(sorted.last()));
        assert forall|i: int| 0 <= i < result.len() implies rank_of(
            timings,
            #[trigger] result[i],
        ) >= rank_of(timings, sorted.last()) by {
            if i < inner.len() {
                assert(result[i] == inner[i]);
            }
        }
        assert forall|i: int, j: int|
            #![trigger result[i], result[j]]
            0 <= i < j < result.len() implies rank_of(timings, result[i]) >= rank_of(
            timings,
            result[j],
        ) by {
            assert(result[i] == inner[i]);
            if j < inner.len() {
                assert(result[j] == inner[j]);
            }
        }
    }
}

proof fn lemma_insertion_members(timings: Timings, sorted: Seq<Seq<char>>, test: Seq<char>, i: int)
    requires
        0 <= i < insert_by_runtime(timings, sorted, test).len(),
    ensures
        insert_by_runtime(timings, sorted, test)[i] == test || exists|k: int|
            0 <= k < sorted.len() && sorted[k] == insert_by_runtime(timings, sorted, test)[i],
    decreases sorted.len(),
{
    let result = insert_by_runtime(timings, sorted, test);
    if sorted.len() == 0 || rank_of(timings, sorted.last()) >= rank_of(timings, test) {
        if i < sorted.len() {
            assert(sorted[i] == result[i]);
        }
    } else {
        let rest = sorted.drop_last();
        let inner = insert_by_runtime(timings, rest, test);
        if i < inner.len() {
            lemma_insertion_members(timings, rest, test, i);
            if inner[i] != test {
                let k = choose|k: int| 0 <= k < rest.len() && rest[k] == inner[i];
                assert(sorted[k] == result[i]);
            }
        } else {
            assert(sorted[sorted.len() - 1] == result[i]);
        }
    }
}

pub(crate) proof fn lemma_sorting_descends(timings: Timings, tests: Seq<Seq<char>>)
    ensures
        descending(timings, sorted_by_runtime(timings, tests)),
    decreases tests.len(),
{
    if tests.len() > 0 {
        lemma_sorting_descends(timings, tests.drop_last());
        lemma_insertion_descends(
            timings,
            sorted_by_runtime(timings, tests.drop_last()),
            tests.last(),
        );
    }
}

/// Sorted tests with historic runtime data are in descending order of their runtimes.
pub proof fn law_sorting_descends(timings: Timings, tests: Seq<Seq<char>>, i: int, j: int)
    requires
        0 <= i < j < sorted_by_runtime(timings, tests).len(),
        is_timed(timings, sorted_by_runtime(timings, tests)[i]),
        is_timed(timings, sorted_by_runtime(timings, tests)[j]),
    ensures
        runtime_of(timings, sorted_by_runtime(timings, tests)[i]) >= runtime_of(
            timings,
            sorted_by_runtime(timings, tests)[j],
        ),
{
    lemma_sorting_descends(timings, tests);
    let sorted = sorted_by_runtime(timings, tests);
    assert(rank_of(timings, sorted[i]) >= rank_of(timings, sorted[j]));
}

/// Tests without historic runtime data are placed at the end of the sorted list: all tests behind
/// such a test are without it too.
pub proof fn law_untimed_tests_come_last(timings: Timings, tests: Seq<Seq<char>>, i: int, j: int)
    requires
        0 <= i < j < sorted_by_runtime(timings, tests).len(),
        !is_timed(timings, sorted_by_runtime(timings, tests)[i]),
    ensures
        !is_timed(timings, sorted_by_runtime(timings, tests)[j]),
{
    lemma_sorting_descends(timings, tests);
    let sorted = sorted_by_runtime(timings, tests);
    assert(rank_of(timings, sorted[i]) >= rank_of(timings, sorted[j]));
}

proof fn lemma_insertion_is_stable(
    timings: Timings,
    sorted: Seq<Seq<char>>,
    test: Seq<char>,
    rank: int,
)
    requires
        descending(timings, sorted),
    ensures
        with_rank(timings, insert_by_runtime(timings, sorted, test), rank) == (
        if rank_of(timings, test) == rank {
            with_rank(timings, sorted, rank).push(test)
        } else {
            with_rank(timings, sorted, rank)
        }),
    decreases sorted.len(),
{
    if sorted.len() == 0 || rank_of(timings, sorted.last()) >= rank_of(timings, test) {
        assert(sorted.push(test).drop_last() =~= sorted);
    } else {
        let rest = sorted.drop_last();
        lemma_insertion_is_stable(timings, rest, test, rank);
        let inner = insert_by_runtime(timings, rest, test);
        assert(inner.push(sorted.last()).drop_last() =~= inner);
    }
}

/// Sorting keeps the order of tests that run equally long, and of those without historic runtime
/// data.
pub proof fn law_sorting_is_stable(timings: Timings, tests: Seq<Seq<char>>, rank: int)
    ensures
        with_rank(timings, sorted_by_runtime(timings, tests), rank) == with_rank(
            timings,
            tests,
            rank,
        ),
    decreases tests.len(),
{
    if tests.len() > 0 {
        let rest = tests.drop_last();
        law_sorting_is_stable(timings, rest, rank);
        lemma_sorting_descends(timings, rest);
        lemma_insertion_is_stable(
            timings,
            sorted_by_runtime(timings, rest),
            tests.last(),
            rank,
        );
    }
}

proof fn lemma_gathered_after_push(suites: Seq<Seq<Seq<char>>>, k: int, test: Seq<char>)
    requires
        0 <= k < suites.len(),
    ensures
        gathered(suites.update(k, suites[k].push(test))) == gathered(suites).insert(test),
    decreases suites.len(),
{
    broadcast use vstd::seq_lib::group_to_multiset_ensures;

    let after = suites.update(k, suites[k].push(test));
    if k == suites.len() - 1 {
        assert(after.drop_last() =~= suites.drop_last());
        assert(gathered(after) =~= gathered(suites).insert(test));
    } else {
        let rest = suites.drop_last();
        lemma_gathered_after_push(rest, k, test);
        assert(after.drop_last() =~= rest.update(k, rest[k].push(test)));
        assert(gathered(after) =~= gathered(suites).insert(test));
    }
}

proof fn lemma_gathered_empty(n: nat)
    ensures
        gathered(Seq::new(n, |i: int| Seq::<Seq<char>>::empty())) == Multiset::<Seq<char>>::empty(),
    decreases n,
{
    broadcast use vstd::seq_lib::group_to_multiset_ensures;

    let suites = Seq::new(n, |i: int| Seq::<Seq<char>>::empty());
    if n > 0 {
        lemma_gathered_empty((n - 1) as nat);
        assert(suites.drop_last() =~= Seq::new((n - 1) as nat, |i: int| Seq::<Seq<char>>::empty()));
        assert(gathered(suites) =~= Multiset::<Seq<char>>::empty());
    }
}

proof fn lemma_placed_gathers(timings: Timings, tests: Seq<Seq<char>>, n: nat)
    requires
        tests.len() > 0 ==> n > 0,
    ensures
        gathered(placed(timings, tests, n).suites).add(
            placed(timings, tests, n).left.to_multiset(),
        ) == tests.to_multiset(),
    decreases tests.len(),
{
    broadcast use vstd::seq_lib::group_to_multiset_ensures;

    let placement = placed(timings, tests, n);
    if tests.len() == 0 {
        lemma_gathered_empty(n);
        assert(placement.suites =~= Seq::new(n, |i: int| Seq::<Seq<char>>::empty()));
        assert(tests =~= Seq::<Seq<char>>::empty());
        assert(gathered(placement.suites).add(placement.left.to_multiset())
            =~= tests.to_multiset());
    } else {
        let rest = tests.drop_last();
        let before = placed(timings, rest, n);
        lemma_placed_gathers(timings, rest, n);
        lemma_placed_lengths(timings, rest, n);
        lemma_min_index(before.loads);
        assert(rest.push(tests.last()) =~= tests);
        if is_timed(timings, tests.last()) {
            lemma_gathered_after_push(before.suites, min_index(before.loads), tests.last());
        }
        assert(gathered(placement.suites).add(placement.left.to_multiset())
            =~= rest.to_multiset().insert(tests.last()));
    }
}

proof fn lemma_dealt_gathers(suites: Seq<Seq<Seq<char>>>, tests: Seq<Seq<char>>, start: int)
    requires
        0 <= start,
        tests.len() > 0 ==> suites.len() > 0,
    ensures
        gathered(dealt(suites, tests, start)) == gathered(suites).add(tests.to_multiset()),
        dealt(suites, tests, start).len() == suites.len(),
    decreases tests.len(),
{
    broadcast use vstd::seq_lib::group_to_multiset_ensures;

    if tests.len() == 0 {
        assert(tests =~= Seq::<Seq<char>>::empty());
        assert(gathered(suites).add(tests.to_multiset()) =~= gathered(suites));
    } else {
        let rest = tests.drop_last();
        lemma_dealt_gathers(suites, rest, start);
        lemma_next_in_turn(start, tests.len() - 1, suites.len() as int);
        let k = (start + tests.len() - 1) % (suites.len() as int);
        lemma_gathered_after_push(dealt(suites, rest, start), k, tests.last());
        assert(rest.push(tests.last()) =~= tests);
        assert(gathered(suites).add(rest.to_multiset()).insert(tests.last()) =~= gathered(
            suites,
        ).add(rest.to_multiset().insert(tests.last())));
    }
}

/// Division by runtime puts every test into exactly one sub-suite, and nothing else into any.
pub proof fn law_split_keeps_tests(timings: Timings, tests: Seq<Seq<char>>, n: nat)
    requires
        tests.len() > 0 ==> n > 0,
    ensures
        gathered(split_by_runtime(timings, tests, n)) == tests.to_multiset(),
        split_by_runtime(timings, tests, n).len() == n,
{
    let sorted = sorted_by_runtime(timings, tests);
    let placement = placed(timings, sorted, n);
    law_sorting_keeps_tests(timings, tests);
    lemma_placed_gathers(timings, sorted, n);
    lemma_placed_lengths(timings, sorted, n);
    if n > 0 {
        lemma_min_index(placement.loads);
    }
    lemma_dealt_gathers(placement.suites, placement.left, min_index(placement.loads));
}

/// No test takes less than no time, or longer than `longest`.
pub open spec fn runtimes_within(timings: Timings, tests: Seq<Seq<char>>, longest: int) -> bool {
    forall|test: Seq<char>| #[trigger]
        tests.contains(test) ==> 0 <= runtime_of(timings, test) <= longest
}

proof fn lemma_placed_runtimes(timings: Timings, tests: Seq<Seq<char>>, n: nat, longest: int)
    requires
        n > 0,
        0 <= longest,
        runtimes_within(timings, tests, longest),
    ensures
        forall|i: int|
            0 <= i < n ==> #[trigger] placed(timings, tests, n).loads[i] == suite_runtime(
                timings,
                placed(timings, tests, n).suites[i],
            ),
        forall|i: int, j: int|
            0 <= i < n && 0 <= j < n ==> #[trigger] placed(timings, tests, n).loads[i]
                <= #[trigger] placed(timings, tests, n).loads[j] + longest,
        forall|i: int|
            0 <= i < placed(timings, tests, n).left.len() ==> !is_timed(
                timings,
                #[trigger] placed(timings, tests, n).left[i],
            ),
    decreases tests.len(),
{
    let placement = placed(timings, tests, n);
    if tests.len() > 0 {
        let rest = tests.drop_last();
        let test = tests.last();
        let before = placed(timings, rest, n);
        assert forall|t: Seq<char>| #[trigger] rest.contains(t) implies 0 <= runtime_of(timings, t)
            <= longest by {
            let i = rest.index_of(t);
            assert(tests[i] == t);
            assert(tests.contains(t));
        }
        lemma_placed_runtimes(timings, rest, n, longest);
        lemma_placed_lengths(timings, rest, n);
        lemma_min_index(before.loads);
        assert(tests.contains(test)) by {
            assert(tests[tests.len() - 1] == test);
        }
        if is_timed(timings, test) {
            let k = min_index(before.loads);
            assert(before.suites[k].push(test).drop_last() =~= before.suites[k]);
            assert forall|i: int| 0 <= i < n implies #[trigger] placement.loads[i] == suite_runtime(
                timings,
                placement.suites[i],
            ) by {
                assert(before.loads[i] == suite_runtime(timings, before.suites[i]));
            }
            assert forall|i: int, j: int| 0 <= i < n && 0 <= j < n implies (
            #[trigger] placement.loads[i]) <= (#[trigger] placement.loads[j]) + longest by {
                assert(before.loads[i] <= before.loads[j] + longest);
                assert(before.loads[k] <= before.loads[j]);
            }
        }
    }
}

proof fn lemma_dealt_runtimes(
    timings: Timings,
    suites: Seq<Seq<Seq<char>>>,
    tests: Seq<Seq<char>>,
    start: int,
    i: int,
)
    requires
        0 <= start,
        0 <= i < suites.len(),
        forall|j: int| 0 <= j < tests.len() ==> !is_timed(timings, #[trigger] tests[j]),
    ensures
        dealt(suites, tests, start).len() == suites.len(),
        suite_runtime(timings, dealt(suites, tests, start)[i]) == suite_runtime(
            timings,
            suites[i],
        ),
    decreases tests.len(),
{
    if tests.len() > 0 {
        let rest = tests.drop_last();
        let before = dealt(suites, rest, start);
        assert forall|j: int| 0 <= j < rest.len() implies !is_timed(
            timings,
            #[trigger] rest[j],
        ) by {
            assert(rest[j] == tests[j]);
        }
        lemma_dealt_runtimes(timings, suites, rest, start, i);
        lemma_next_in_turn(start, tests.len() - 1, suites.len() as int);
        let k = (start + tests.len() - 1) % (suites.len() as int);
        assert(before[k].push(tests.last()).drop_last() =~= before[k]);
        assert(tests.last() == tests[tests.len() - 1]);
    }
}

/// Division by runtime gives sub-suites with roughly even runtimes: none runs longer than another
/// one by more than the longest of the tests.
pub proof fn law_runtimes_are_even(
    timings: Timings,
    tests: Seq<Seq<char>>,
    n: nat,
    longest: int,
    i: int,
    j: int,
)
    requires
        0 <= i < n,
        0 <= j < n,
        0 <= longest,
        runtimes_within(timings, tests, longest),
    ensures
        suite_runtime(timings, split_by_runtime(timings, tests, n)[i]) <= suite_runtime(
            timings,
            split_by_runtime(timings, tests, n)[j],
        ) + longest,
{
    broadcast use vstd::seq_lib::group_to_multiset_ensures;

    let sorted = sorted_by_runtime(timings, tests);
    let placement = placed(timings, sorted, n);
    law_sorting_keeps_tests(timings, tests);
    assert forall|test: Seq<char>| #[trigger] sorted.contains(test) implies 0 <= runtime_of(
        timings,
        test,
    ) <= longest by {
        assert(sorted.to_multiset().count(test) > 0);
        assert(tests.contains(test));
    }
    lemma_placed_runtimes(timings, sorted, n, longest);
    lemma_placed_lengths(timings, sorted, n);
    lemma_min_index(placement.loads);
    let start = min_index(placement.loads);
    lemma_dealt_runtimes(timings, placement.suites, placement.left, start, i);
    lemma_dealt_runtimes(timings, placement.suites, placement.left, start, j);
    assert(placement.loads[i] <= placement.loads[j] + longest);
}

proof fn lemma_placed_untimed(timings: Timings, tests: Seq<Seq<char>>, n: nat)
    requires
        n > 0,
    ensures
        forall|i: int|
            0 <= i < n ==> untimed_count(timings, #[trigger] placed(timings, tests, n).suites[i])
                == 0,
        forall|i: int|
            0 <= i < placed(timings, tests, n).left.len() ==> !is_timed(
                timings,
                #[trigger] placed(timings, tests, n).left[i],
            ),
    decreases tests.len(),
{
    let placement = placed(timings, tests, n);
    if tests.len() > 0 {
        let rest = tests.drop_last();
        let before = placed(timings, rest, n);
        lemma_placed_untimed(timings, rest, n);
        lemma_placed_lengths(timings, rest, n);
        lemma_min_index(before.loads);
        if is_timed(timings, tests.last()) {
            let k = min_index(before.loads);
            assert(before.suites[k].push(tests.last()).drop_last() =~= before.suites[k]);
            assert forall|i: int| 0 <= i < n implies untimed_count(
                timings,
                #[trigger] placement.suites[i],
            ) == 0 by {
                assert(untimed_count(timings, before.suites[i]) == 0);
            }
        }
    }
}

/// How many of `m` tests, dealt out in turn to `n` sub-suites from the one at `start` on, go to the
/// one at `k`.
pub open spec fn share(m: int, n: int, start: int, k: int) -> int {
    let turn = if k >= start {
        k - start
    } else {
        k - start + n
    };
    m / n + (if turn < m % n {
        1int
    } else {
        0int
    })
}

proof fn lemma_share_step(m: int, n: int, start: int, k: int)
    requires
        0 <= m,
        0 <= start < n,
        0 <= k < n,
    ensures
        share(m + 1, n, start, k) == share(m, n, start, k) + (if k == (start + m) % n {
            1int
        } else {
            0int
        }),
{
    let r = m % n;
    let q = m / n;
    let turn = if k >= start {
        k - start
    } else {
        k - start + n
    };
    assert(m == q * n + r && 0 <= r < n) by (nonlinear_arith)
        requires
            n > 0,
            r == m % n,
            q == m / n,
    ;
    lemma_next_in_turn(0, m, n);
    if r + 1 == n {
        assert(m + 1 == (q + 1) * n) by (nonlinear_arith)
            requires
                m == q * n + r,
                r + 1 == n,
        ;
        vstd::arithmetic::div_mod::lemma_fundamental_div_mod_converse(m + 1, n, q + 1, 0);
    } else {
        vstd::arithmetic::div_mod::lemma_fundamental_div_mod_converse(m + 1, n, q, r + 1);
    }
    if start + r < n {
        assert(start + m == q * n + (start + r));
        vstd::arithmetic::div_mod::lemma_fundamental_div_mod_converse(
            start + m,
            n,
            q,
            start + r,
        );
    } else {
        assert(start + m == (q + 1) * n + (start + r - n)) by (nonlinear_arith)
            requires
                m == q * n + r,
        ;
        vstd::arithmetic::div_mod::lemma_fundamental_div_mod_converse(
            start + m,
            n,
            q + 1,
            start + r - n,
        );
    }
}

proof fn lemma_dealt_untimed(
    timings: Timings,
    suites: Seq<Seq<Seq<char>>>,
    tests: Seq<Seq<char>>,
    start: int,
    i: int,
)
    requires
        0 <= start < suites.len(),
        0 <= i < suites.len(),
        untimed_count(timings, suites[i]) == 0,
        forall|j: int| 0 <= j < tests.len() ==> !is_timed(timings, #[trigger] tests[j]),
    ensures
        dealt(suites, tests, start).len() == suites.len(),
        untimed_count(timings, dealt(suites, tests, start)[i]) == share(
            tests.len() as int,
            suites.len() as int,
            start,
            i,
        ),
    decreases tests.len(),
{
    let n = suites.len() as int;
    if tests.len() == 0 {
        assert(0int / n == 0 && 0int % n == 0) by (nonlinear_arith)
            requires
                n > 0,
        ;
    } else {
        let rest = tests.drop_last();
        let before = dealt(suites, rest, start);
        assert forall|j: int| 0 <= j < rest.len() implies !is_timed(
            timings,
            #[trigger] rest[j],
        ) by {
            assert(rest[j] == tests[j]);
        }
        lemma_dealt_untimed(timings, suites, rest, start, i);
        lemma_next_in_turn(start, tests.len() - 1, n);
        lemma_share_step(tests.len() - 1, n, start, i);
        let k = (start + tests.len() - 1) % n;
        assert(before[k].push(tests.last()).drop_last() =~= before[k]);
        assert(tests.last() == tests[tests.len() - 1]);
    }
}

/// Tests without a runtime history are distributed with a roughly equal number among all
/// sub-suites: none has more than one of them more than another.
pub proof fn law_untimed_tests_are_even(
    timings: Timings,
    tests: Seq<Seq<char>>,
    n: nat,
    i: int,
    j: int,
)
    requires
        0 <= i < n,
        0 <= j < n,
    ensures
        untimed_count(timings, split_by_runtime(timings, tests, n)[i]) <= untimed_count(
            timings,
            split_by_runtime(timings, tests, n)[j],
        ) + 1,
{
    let sorted = sorted_by_runtime(timings, tests);
    let placement = placed(timings, sorted, n);
    lemma_placed_untimed(timings, sorted, n);
    lemma_placed_lengths(timings, sorted, n);
    lemma_min_index(placement.loads);
    let start = min_index(placement.loads);
    assert(untimed_count(timings, placement.suites[i]) == 0);
    assert(untimed_count(timings, placement.suites[j]) == 0);
    lemma_dealt_untimed(timings, placement.suites, placement.left, start, i);
    lemma_dealt_untimed(timings, placement.suites, placement.left, start, j);
}

/// Each test with a runtime history took some time.
pub open spec fn timed_tests_take_time(timings: Timings, tests: Seq<Seq<char>>) -> bool {
    forall|i: int|
        0 <= i < tests.len() && is_timed(timings, #[trigger] tests[i]) ==> runtime_of(
            timings,
            tests[i],
        ) > 0
}

proof fn lemma_placed_fills(timings: Timings, tests: Seq<Seq<char>>, n: nat)
    requires
        n > 0,
        timed_tests_take_time(timings, tests),
    ensures
        placed(timings, tests, n).left.len() <= tests.len(),
        ({
            let count = tests.len() - placed(timings, tests, n).left.len();
            &&& forall|i: int|
                0 <= i < n && i < count ==> #[trigger] placed(timings, tests, n).loads[i] > 0
                    && placed(timings, tests, n).suites[i].len() > 0
            &&& forall|i: int|
                count <= i < n ==> #[trigger] placed(timings, tests, n).loads[i] == 0
        }),
    decreases tests.len(),
{
    let placement = placed(timings, tests, n);
    if tests.len() > 0 {
        let rest = tests.drop_last();
        let test = tests.last();
        let before = placed(timings, rest, n);
        assert forall|i: int| 0 <= i < rest.len() && is_timed(
            timings,
            #[trigger] rest[i],
        ) implies runtime_of(timings, rest[i]) > 0 by {
            assert(rest[i] == tests[i]);
        }
        lemma_placed_fills(timings, rest, n);
        lemma_placed_lengths(timings, rest, n);
        lemma_min_index(before.loads);
        assert(test == tests[tests.len() - 1]);
        let count = rest.len() - before.left.len();
        if is_timed(timings, test) {
            let k = min_index(before.loads);
            if count < n {
                assert(before.loads[count] == 0);
                assert(before.loads[k] <= before.loads[count]);
                assert(k == count);
            }
            assert forall|i: int| 0 <= i < n && i < count + 1 implies (
            #[trigger] placement.loads[i]) > 0 && placement.suites[i].len() > 0 by {
                if i < count {
                    assert(before.loads[i] > 0);
                }
            }
            assert forall|i: int| count + 1 <= i < n implies #[trigger] placement.loads[i] == 0 by {
                assert(before.loads[i] == 0);
            }
        } else {
            assert forall|i: int| 0 <= i < n && i < count implies (#[trigger] placement.loads[i])
                > 0 && placement.suites[i].len() > 0 by {
                assert(before.loads[i] > 0);
            }
        }
    }
}

proof fn lemma_dealt_sizes(
    suites: Seq<Seq<Seq<char>>>,
    tests: Seq<Seq<char>>,
    start: int,
    i: int,
)
    requires
        0 <= start < suites.len(),
        0 <= i < suites.len(),
    ensures
        dealt(suites, tests, start).len() == suites.len(),
        dealt(suites, tests, start)[i].len() == suites[i].len() + share(
            tests.len() as int,
            suites.len() as int,
            start,
            i,
        ),
    decreases tests.len(),
{
    let n = suites.len() as int;
    if tests.len() == 0 {
        assert(0int / n == 0 && 0int % n == 0) by (nonlinear_arith)
            requires
                n > 0,
        ;
    } else {
        lemma_dealt_sizes(suites, tests.drop_last(), start, i);
        lemma_next_in_turn(start, tests.len() - 1, n);
        lemma_share_step(tests.len() - 1, n, start, i);
    }
}

/// Division by runtime leaves no sub-suite empty, where there are no more sub-suites than tests,
/// and each test with a runtime history took some time.
pub proof fn law_split_fills_suites(timings: Timings, tests: Seq<Seq<char>>, n: nat, i: int)
    requires
        0 <= i < n <= tests.len(),
        timed_tests_take_time(timings, tests),
    ensures
        split_by_runtime(timings, tests, n)[i].len() > 0,
{
    broadcast use vstd::seq_lib::group_to_multiset_ensures;

    let sorted = sorted_by_runtime(timings, tests);
    let placement = placed(timings, sorted, n);
    law_sorting_keeps_tests(timings, tests);
    assert forall|j: int| 0 <= j < sorted.len() && is_timed(
        timings,
        #[trigger] sorted[j],
    ) implies runtime_of(timings, sorted[j]) > 0 by {
        assert(sorted.contains(sorted[j]));
        assert(sorted.to_multiset().count(sorted[j]) > 0);
        assert(tests.contains(sorted[j]));
        let k = tests.index_of(sorted[j]);
        assert(tests[k] == sorted[j]);
    }
    lemma_placed_fills(timings, sorted, n);
    lemma_placed_lengths(timings, sorted, n);
    lemma_min_index(placement.loads);
    let start = min_index(placement.loads);
    let count = sorted.len() - placement.left.len();
    let left = placement.left.len() as int;
    lemma_dealt_sizes(placement.suites, placement.left, start, i);
    assert(left / (n as int) >= 0) by (nonlinear_arith)
        requires
            left >= 0,
            n > 0,
    ;
    if i < count {
        assert(placement.loads[i] > 0);
    } else {
        assert(placement.loads[count] == 0);
        assert(placement.loads[start] <= placement.loads[count]);
        assert(start == count) by {
            if start < count {
                assert(placement.loads[start] > 0);
            } else {
                assert(placement.loads[start] == 0);
            }
        }
        if left >= n {
            assert(left / (n as int) >= 1) by (nonlinear_arith)
                requires
                    left >= n,
                    n > 0,
            ;
        } else {
            assert(left % (n as int) == left) by (nonlinear_arith)
                requires
                    0 <= left < n,
            ;
        }
    }
}

/// Even division gives each sub-suite the quotient of tests, or one more.
pub proof fn law_even_split_sizes(tests: Seq<Seq<char>>, n: nat, i: int)
    requires
        0 <= i < n,
    ensures
        split_evenly(tests, n)[i].len() == tests.len() / n + (if i < tests.len() % n {
            1nat
        } else {
            0nat
        }),
{
    lemma_even_starts(tests.len(), n, i);
}

/// Even division leaves no sub-suite empty, where there are no more sub-suites than tests.
pub proof fn law_even_split_fills_suites(tests: Seq<Seq<char>>, n: nat, i: int)
    requires
        0 <= i < n <= tests.len(),
    ensures
        split_evenly(tests, n)[i].len() > 0,
{
    law_even_split_sizes(tests, n, i);
    let len = tests.len();
    assert(len / n >= 1) by (nonlinear_arith)
        requires
            0 < n <= len,
    ;
}

proof fn lemma_even_prefix(tests: Seq<Seq<char>>, n: nat, i: int)
    requires
        0 < n,
        0 <= i <= n,
    ensures
        concatenated(split_evenly(tests, n).take(i)) == tests.take(even_start(tests.len(), n, i)),
    decreases i,
{
    let suites = split_evenly(tests, n);
    if i == 0 {
        lemma_even_starts(tests.len(), n, 0);
        assert(tests.take(0) =~= Seq::<Seq<char>>::empty());
    } else {
        lemma_even_prefix(tests, n, i - 1);
        lemma_even_starts(tests.len(), n, i - 1);
        assert(suites.take(i).drop_last() =~= suites.take(i - 1));
        assert(tests.take(even_start(tests.len(), n, i - 1)) + suites[i - 1] =~= tests.take(
            even_start(tests.len(), n, i),
        ));
    }
}

/// Even division keeps the tests and their order: the sub-suites one after the other are the tests
/// that were divided.
pub proof fn law_even_split_keeps_order(tests: Seq<Seq<char>>, n: nat)
    requires
        0 < n,
    ensures
        concatenated(split_evenly(tests, n)) == tests,
{
    lemma_even_prefix(tests, n, n as int);
    lemma_even_starts(tests.len(), n, 0);
    assert(split_evenly(tests, n).take(n as int) =~= split_evenly(tests, n));
    assert(tests.take(tests.len() as int) =~= tests);
}

} // verus!
