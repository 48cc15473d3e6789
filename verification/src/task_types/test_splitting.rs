//! Division of the tests of a task into sub-suites.

use vstd::prelude::*;

use crate::evergreen::evg_task_history::{
    base_name, get_test_name, TaskRuntimeHistory, TestRuntimeHistoryView,
};
use crate::utils::lists::push_text;

verus! {

/// The runtime history of tests, by their base names.
pub type Timings = Map<Seq<char>, TestRuntimeHistoryView>;

/// There is a runtime history for a test.
pub open spec fn is_timed(timings: Timings, test: Seq<char>) -> bool {
    timings.contains_key(base_name(test))
}

/// The historic runtime of a test, nothing if there is no history for it.
pub open spec fn runtime_of(timings: Timings, test: Seq<char>) -> int {
    if is_timed(timings, test) {
        timings[base_name(test)].average_runtime as int
    } else {
        0
    }
}

/// What a test is sorted by: its historic runtime, or less than any if there is no history for it.
pub open spec fn rank_of(timings: Timings, test: Seq<char>) -> int {
    if is_timed(timings, test) {
        runtime_of(timings, test)
    } else {
        i64::MIN - 1
    }
}

/// A list of tests with one more test, behind those that run at least as long, and behind all where
/// there is no history for it.
pub open spec fn insert_by_runtime(
    timings: Timings,
    sorted: Seq<Seq<char>>,
    test: Seq<char>,
) -> Seq<Seq<char>>
    decreases sorted.len(),
{
    if sorted.len() == 0 || rank_of(timings, sorted.last()) >= rank_of(timings, test) {
        sorted.push(test)
    } else {
        insert_by_runtime(timings, sorted.drop_last(), test).push(sorted.last())
    }
}

/// The tests by descending runtime, and behind them those without a history. Tests that run equally
/// long keep their order, and so do those without a history.
pub open spec fn sorted_by_runtime(timings: Timings, tests: Seq<Seq<char>>) -> Seq<Seq<char>>
    decreases tests.len(),
{
    if tests.len() == 0 {
        Seq::empty()
    } else {
        insert_by_runtime(timings, sorted_by_runtime(timings, tests.drop_last()), tests.last())
    }
}

/// The position of the first of the least numbers.
pub open spec fn min_index(loads: Seq<int>) -> int
    decreases loads.len(),
{
    if loads.len() <= 1 {
        0
    } else {
        let least = min_index(loads.drop_last());
        if loads.last() < loads[least] {
            loads.len() - 1
        } else {
            least
        }
    }
}

/// Where the tests of a task have gone so far.
pub struct Placement {
    /// The tests of each sub-suite.
    pub suites: Seq<Seq<Seq<char>>>,
    /// The runtime of each sub-suite.
    pub loads: Seq<int>,
    /// The tests without a runtime history.
    pub left: Seq<Seq<char>>,
}

/// The placement of tests with a runtime history, each into the sub-suite with the least runtime
/// so far.
pub open spec fn placed(timings: Timings, tests: Seq<Seq<char>>, n: nat) -> Placement
    decreases tests.len(),
{
    if tests.len() == 0 {
        Placement {
            suites: Seq::new(n, |i: int| Seq::empty()),
            loads: Seq::new(n, |i: int| 0),
            left: Seq::empty(),
        }
    } else {
        let before = placed(timings, tests.drop_last(), n);
        let test = tests.last();
        if is_timed(timings, test) {
            let k = min_index(before.loads);
            Placement {
                suites: before.suites.update(k, before.suites[k].push(test)),
                loads: before.loads.update(k, before.loads[k] + runtime_of(timings, test)),
                left: before.left,
            }
        } else {
            Placement { left: before.left.push(test), ..before }
        }
    }
}

/// The sub-suites with more tests, one to each in turn, from the one at `start` on.
pub open spec fn dealt(
    suites: Seq<Seq<Seq<char>>>,
    tests: Seq<Seq<char>>,
    start: int,
) -> Seq<Seq<Seq<char>>>
    decreases tests.len(),
{
    if tests.len() == 0 {
        suites
    } else {
        let before = dealt(suites, tests.drop_last(), start);
        let k = (start + tests.len() - 1) % (suites.len() as int);
        before.update(k, before[k].push(tests.last()))
    }
}

/// The tests of each of `n` sub-suites, divided by their runtime.
pub open spec fn split_by_runtime(timings: Timings, tests: Seq<Seq<char>>, n: nat) -> Seq<
    Seq<Seq<char>>,
> {
    let placement = placed(timings, sorted_by_runtime(timings, tests), n);
    dealt(placement.suites, placement.left, min_index(placement.loads))
}

/// The position of the first test of a sub-suite, where `len` tests are divided evenly among `n`
/// sub-suites.
pub open spec fn even_start(len: nat, n: nat, i: int) -> int {
    i * (len / n) + (if i < len % n { i } else { (len % n) as int })
}

/// The tests of each of `n` sub-suites, divided evenly.
pub open spec fn split_evenly(tests: Seq<Seq<char>>, n: nat) -> Seq<Seq<Seq<char>>> {
    Seq::new(
        n,
        |i: int| tests.subrange(even_start(tests.len(), n, i), even_start(tests.len(), n, i + 1)),
    )
}

pub(crate) proof fn lemma_min_index(loads: Seq<int>)
    requires
        loads.len() > 0,
    ensures
        0 <= min_index(loads) < loads.len(),
        forall|j: int| 0 <= j < loads.len() ==> loads[min_index(loads)] <= #[trigger] loads[j],
        forall|j: int| 0 <= j < min_index(loads) ==> loads[min_index(loads)] < #[trigger] loads[j],
    decreases loads.len(),
{
    if loads.len() > 1 {
        let rest = loads.drop_last();
        lemma_min_index(rest);
        assert forall|j: int| 0 <= j < loads.len() implies loads[min_index(loads)] <= #[trigger] loads[j] by {
            if j < rest.len() {
                assert(rest[j] == loads[j]);
            }
        }
        assert forall|j: int| 0 <= j < min_index(loads) implies loads[min_index(loads)]
            < #[trigger] loads[j] by {
            assert(rest[j] == loads[j]);
        }
    }
}

proof fn lemma_insert_by_runtime(timings: Timings, sorted: Seq<Seq<char>>, test: Seq<char>, at: int)
    requires
        0 <= at <= sorted.len(),
        at > 0 ==> rank_of(timings, sorted[at - 1]) >= rank_of(timings, test),
        forall|j: int|
            at <= j < sorted.len() ==> rank_of(timings, #[trigger] sorted[j]) < rank_of(
                timings,
                test,
            ),
    ensures
        insert_by_runtime(timings, sorted, test) == sorted.insert(at, test),
    decreases sorted.len(),
{
    if at < sorted.len() {
        lemma_insert_by_runtime(timings, sorted.drop_last(), test, at);
        assert(sorted.drop_last().insert(at, test).push(sorted.last()) =~= sorted.insert(at, test));
    } else {
        assert(sorted.push(test) =~= sorted.insert(at, test));
    }
}

proof fn lemma_insertion_keeps_tests(timings: Timings, sorted: Seq<Seq<char>>, test: Seq<char>)
    ensures
        insert_by_runtime(timings, sorted, test).to_multiset() == sorted.to_multiset().insert(test),
        insert_by_runtime(timings, sorted, test).len() == sorted.len() + 1,
    decreases sorted.len(),
{
    broadcast use vstd::seq_lib::group_to_multiset_ensures;

    if sorted.len() == 0 || rank_of(timings, sorted.last()) >= rank_of(timings, test) {
    } else {
        let rest = sorted.drop_last();
        lemma_insertion_keeps_tests(timings, rest, test);
        assert(rest.push(sorted.last()) =~= sorted);
        assert(rest.to_multiset().insert(test).insert(sorted.last()) =~= rest.to_multiset().insert(
            sorted.last(),
        ).insert(test));
    }
}

/// Sorting neither drops nor adds tests.
pub proof fn law_sorting_keeps_tests(timings: Timings, tests: Seq<Seq<char>>)
    ensures
        sorted_by_runtime(timings, tests).to_multiset() == tests.to_multiset(),
        sorted_by_runtime(timings, tests).len() == tests.len(),
    decreases tests.len(),
{
    broadcast use vstd::seq_lib::group_to_multiset_ensures;

    if tests.len() > 0 {
        let rest = tests.drop_last();
        law_sorting_keeps_tests(timings, rest);
        lemma_insertion_keeps_tests(timings, sorted_by_runtime(timings, rest), tests.last());
        assert(rest.push(tests.last()) =~= tests);
    } else {
        assert(tests =~= Seq::<Seq<char>>::empty());
    }
}

/// What a test is sorted by: its historic runtime, or less than any if there is no history for it.
fn lookup_rank(test: &str, task_stats: &TaskRuntimeHistory) -> (rank: i128)
    ensures
        rank == rank_of(task_stats.test_map.deep_view(), test@),
{
    match task_stats.test_map.get(get_test_name(test).as_str()) {
        Some(history) => history.average_runtime as i128,
        None => i64::MIN as i128 - 1,
    }
}

/// Sort tests by historic runtime descending.
///
/// Tests without historic runtime data will be placed at the end of the list.
///
/// # Arguments
///
/// * `test_list` - List of tests.
/// * `task_stats` - Historic task stats.
///
/// # Returns
///
/// List of sorted tests by historic runtime.
pub fn sort_tests_by_runtime(test_list: Vec<String>, task_stats: &TaskRuntimeHistory) -> (sorted:
    Vec<String>)
    ensures
        sorted.deep_view() == sorted_by_runtime(
            task_stats.test_map.deep_view(),
            test_list.deep_view(),
        ),
{
    let ghost timings = task_stats.test_map.deep_view();
    let ghost all = test_list.deep_view();
    let mut sorted: Vec<String> = Vec::new();
    let mut ranks: Vec<i128> = Vec::new();
    let mut i: usize = 0;
    assert(sorted.deep_view() =~= sorted_by_runtime(timings, all.take(0)));
    while i < test_list.len()
        invariant
            i <= test_list@.len(),
            timings == task_stats.test_map.deep_view(),
            all == test_list.deep_view(),
            sorted@.len() == i,
            ranks@.len() == i,
            sorted.deep_view() == sorted_by_runtime(timings, all.take(i as int)),
            forall|j: int|
                0 <= j < i ==> #[trigger] ranks@[j] == rank_of(
                    timings,
                    sorted.deep_view()[j],
                ),
        decreases test_list@.len() - i,
    {
        let rank: i128 = lookup_rank(test_list[i].as_str(), task_stats);
        let mut at: usize = i;
        while at > 0 && ranks[at - 1] < rank
            invariant
                at <= i,
                ranks@.len() == i,
                forall|j: int| at <= j < i ==> #[trigger] ranks@[j] < rank,
            decreases at,
        {
            at -= 1;
        }
        let ghost before = sorted.deep_view();
        let ghost ranks_before = ranks@;
        let ghost test = all[i as int];
        proof {
            assert(all.take(i + 1).drop_last() =~= all.take(i as int));
            assert forall|j: int| at <= j < before.len() implies rank_of(
                timings,
                #[trigger] before[j],
            ) < rank_of(timings, test) by {
                assert(ranks@[j] < rank);
            }
            if at > 0 {
                assert(ranks@[at - 1] == rank_of(timings, before[at - 1]));
            }
            lemma_insert_by_runtime(timings, before, test, at as int);
        }
        sorted.insert(at, test_list[i].clone());
        ranks.insert(at, rank);
        i += 1;
        proof {
            assert(sorted.deep_view() =~= before.insert(at as int, test));
            assert forall|j: int| 0 <= j < i implies #[trigger] ranks@[j] == rank_of(
                timings,
                sorted.deep_view()[j],
            ) by {
                if j < at {
                    assert(ranks@[j] == ranks_before[j]);
                } else if j > at {
                    assert(ranks@[j] == ranks_before[j - 1]);
                }
            }
        }
    }
    assert(all.take(i as int) =~= all);
    sorted
}

/// The numbers, as integers of any size.
pub open spec fn ints(numbers: Seq<i128>) -> Seq<int> {
    numbers.map_values(|n: i128| n as int)
}

/// Get the index of sub suite with the least total runtime of tests.
///
/// # Arguments
///
/// * `running_runtimes` - Total runtimes of tests of sub suites.
///
/// # Returns
///
/// Index of sub suite with the least total runtime.
pub fn get_min_index(running_runtimes: &Vec<i128>) -> (index: usize)
    ensures
        index == min_index(ints(running_runtimes@)),
        running_runtimes@.len() > 0 ==> index < running_runtimes@.len(),
        forall|j: int|
            0 <= j < running_runtimes@.len() ==> running_runtimes@[index as int]
                <= #[trigger] running_runtimes@[j],
        forall|j: int|
            0 <= j < index ==> running_runtimes@[index as int] < #[trigger] running_runtimes@[j],
{
    let ghost loads = ints(running_runtimes@);
    let mut index: usize = 0;
    let mut i: usize = 1;
    while i < running_runtimes.len()
        invariant
            1 <= i,
            i <= loads.len() || loads.len() <= 1,
            loads == ints(running_runtimes@),
            loads.len() > 0 ==> index < loads.len(),
            loads.len() > 1 ==> index == min_index(loads.take(i as int)) && index < i,
            loads.len() <= 1 ==> index == 0,
        decreases running_runtimes@.len() - i,
    {
        assert(loads.take(i + 1).drop_last() =~= loads.take(i as int));
        if running_runtimes[i] < running_runtimes[index] {
            index = i;
        }
        i += 1;
    }
    proof {
        assert(loads.len() > 1 ==> loads.take(i as int) =~= loads);
        if loads.len() > 0 {
            lemma_min_index(loads);
            assert forall|j: int| 0 <= j < running_runtimes@.len() implies running_runtimes@[index as int]
                <= #[trigger] running_runtimes@[j] by {
                assert(loads[index as int] <= loads[j]);
            }
            assert forall|j: int| 0 <= j < index implies running_runtimes@[index as int]
                < #[trigger] running_runtimes@[j] by {
                assert(loads[index as int] < loads[j]);
            }
        }
    }
    index
}

pub(crate) proof fn lemma_placed_lengths(timings: Timings, tests: Seq<Seq<char>>, n: nat)
    requires
        tests.len() > 0 ==> n > 0,
    ensures
        placed(timings, tests, n).suites.len() == n,
        placed(timings, tests, n).loads.len() == n,
        placed(timings, tests, n).left.len() <= tests.len(),
    decreases tests.len(),
{
    if tests.len() > 0 {
        lemma_placed_lengths(timings, tests.drop_last(), n);
        lemma_min_index(placed(timings, tests.drop_last(), n).loads);
    }
}

proof fn lemma_dealt_lengths(suites: Seq<Seq<Seq<char>>>, tests: Seq<Seq<char>>, start: int)
    requires
        0 <= start,
        tests.len() > 0 ==> suites.len() > 0,
    ensures
        dealt(suites, tests, start).len() == suites.len(),
    decreases tests.len(),
{
    if tests.len() > 0 {
        lemma_dealt_lengths(suites, tests.drop_last(), start);
        lemma_next_in_turn(start, tests.len() - 1, suites.len() as int);
    }
}

/// The next number in turn.
pub(crate) proof fn lemma_next_in_turn(start: int, i: int, n: int)
    requires
        n > 0,
        0 <= start,
        0 <= i,
    ensures
        0 <= (start + i) % n < n,
        (start + i + 1) % n == (if (start + i) % n + 1 == n {
            0
        } else {
            (start + i) % n + 1
        }),
{
    let a = start + i;
    let r = a % n;
    let q = a / n;
    assert(a == q * n + r && 0 <= r < n) by (nonlinear_arith)
        requires
            n > 0,
            r == a % n,
            q == a / n,
    ;
    if r + 1 == n {
        assert(a + 1 == (q + 1) * n) by (nonlinear_arith)
            requires
                a == q * n + r,
                r + 1 == n,
        ;
        vstd::arithmetic::div_mod::lemma_fundamental_div_mod_converse(a + 1, n, q + 1, 0);
    } else {
        vstd::arithmetic::div_mod::lemma_fundamental_div_mod_converse(a + 1, n, q, r + 1);
    }
}

/// Append a test to one of the sub-suites.
fn add_test(suites: &mut Vec<Vec<String>>, k: usize, test: &str)
    requires
        k < old(suites)@.len(),
    ensures
        final(suites).deep_view() == old(suites).deep_view().update(
            k as int,
            old(suites).deep_view()[k as int].push(test@),
        ),
        final(suites)@.len() == old(suites)@.len(),
{
    let ghost before = suites.deep_view();
    let ghost suite = suites@[k as int].deep_view();
    suites[k].push(test.to_owned());
    assert(suites@[k as int].deep_view() =~= suite.push(test@));
    assert(suites.deep_view() =~= before.update(k as int, suite.push(test@)));
}

/// Divide tests into sub-suites with roughly even runtimes.
///
/// Each test with a runtime history goes to the sub-suite with the least runtime so far, the
/// longest tests first. The tests without a history are then dealt out to the sub-suites in turn.
///
/// # Arguments
///
/// * `test_list` - Tests to divide.
/// * `task_stats` - Historic task stats.
/// * `num_tasks` - Number of sub-suites.
///
/// # Returns
///
/// The tests of each sub-suite.
pub fn divide_by_runtime(
    test_list: Vec<String>,
    task_stats: &TaskRuntimeHistory,
    num_tasks: usize,
) -> (suites: Vec<Vec<String>>)
    requires
        test_list@.len() > 0 ==> num_tasks > 0,
    ensures
        suites.deep_view() == split_by_runtime(
            task_stats.test_map.deep_view(),
            test_list.deep_view(),
            num_tasks as nat,
        ),
        suites@.len() == num_tasks,
{
    let ghost timings = task_stats.test_map.deep_view();
    let ghost n = num_tasks as nat;
    let sorted: Vec<String> = sort_tests_by_runtime(test_list, task_stats);
    let ghost tests = sorted.deep_view();
    proof {
        law_sorting_keeps_tests(timings, test_list.deep_view());
    }
    let mut suites: Vec<Vec<String>> = Vec::new();
    let mut running_runtimes: Vec<i128> = Vec::new();
    let mut left: Vec<String> = Vec::new();
    let mut i: usize = 0;
    while i < num_tasks
        invariant
            i <= num_tasks,
            suites@.len() == i,
            running_runtimes@.len() == i,
            forall|j: int|
                0 <= j < i ==> (#[trigger] suites@[j]).deep_view() == Seq::<Seq<char>>::empty(),
            forall|j: int| 0 <= j < i ==> #[trigger] running_runtimes@[j] == 0,
        decreases num_tasks - i,
    {
        let suite: Vec<String> = Vec::new();
        assert(suite.deep_view() =~= Seq::<Seq<char>>::empty());
        suites.push(suite);
        running_runtimes.push(0);
        i += 1;
    }
    assert(suites.deep_view() =~= placed(timings, tests.take(0), n).suites);
    assert(ints(running_runtimes@) =~= placed(timings, tests.take(0), n).loads);
    let mut i: usize = 0;
    assert(left.deep_view() =~= Seq::<Seq<char>>::empty());
    while i < sorted.len()
        invariant
            i <= sorted@.len(),
            sorted@.len() > 0 ==> num_tasks > 0,
            n == num_tasks,
            timings == task_stats.test_map.deep_view(),
            tests == sorted.deep_view(),
            suites@.len() == n,
            running_runtimes@.len() == n,
            suites.deep_view() == placed(timings, tests.take(i as int), n).suites,
            ints(running_runtimes@) == placed(timings, tests.take(i as int), n).loads,
            left.deep_view() == placed(timings, tests.take(i as int), n).left,
            forall|j: int|
                0 <= j < n ==> -(i * 0x8000_0000_0000_0000) <= #[trigger] running_runtimes@[j] <= i
                    * 0x8000_0000_0000_0000,
        decreases sorted@.len() - i,
    {
        assert(tests.take(i + 1).drop_last() =~= tests.take(i as int));
        assert(tests.take(i + 1).last() == sorted[i as int]@);
        let ghost before = placed(timings, tests.take(i as int), n);
        let test: &str = sorted[i].as_str();
        let k: usize = get_min_index(&running_runtimes);
        match task_stats.test_map.get(get_test_name(test).as_str()) {
            Some(history) => {
                assert(is_timed(timings, test@));
                assert(before.loads[k as int] == running_runtimes@[k as int]);
                let runtime: i128 = running_runtimes[k] + history.average_runtime as i128;
                running_runtimes.set(k, runtime);
                add_test(&mut suites, k, test);
                assert(ints(running_runtimes@) =~= before.loads.update(
                    k as int,
                    before.loads[k as int] + runtime_of(timings, test@),
                ));
            },
            None => {
                push_text(&mut left, test);
            },
        }
        i += 1;
    }
    assert(tests.take(i as int) =~= tests);
    let ghost placement = placed(timings, tests, n);
    let start: usize = get_min_index(&running_runtimes);
    let mut k: usize = start;
    let mut i: usize = 0;
    let ghost others = left.deep_view();
    proof {
        lemma_placed_lengths(timings, tests, n);
        if n > 0 {
            assert((start + 0) % (n as int) == start) by (nonlinear_arith)
                requires
                    0 <= start < n,
            ;
        }
    }
    while i < left.len()
        invariant
            i <= left@.len(),
            left@.len() > 0 ==> num_tasks > 0,
            n == num_tasks,
            others == left.deep_view(),
            others == placement.left,
            placement.suites.len() == n,
            suites@.len() == n,
            0 <= start,
            left@.len() > 0 ==> k < n && k == (start + i) % (n as int),
            suites.deep_view() == dealt(placement.suites, others.take(i as int), start as int),
        decreases left@.len() - i,
    {
        assert(others.take(i + 1).drop_last() =~= others.take(i as int));
        assert(others.take(i + 1).last() == left[i as int]@);
        proof {
            lemma_next_in_turn(start as int, i as int, n as int);
        }
        add_test(&mut suites, k, left[i].as_str());
        k = if k + 1 == num_tasks {
            0
        } else {
            k + 1
        };
        i += 1;
    }
    assert(others.take(i as int) =~= others);
    suites
}

/// Divide tests evenly into sub-suites.
///
/// # Arguments
///
/// * `test_list` - Tests to divide.
/// * `num_tasks` - Number of sub-suites.
///
/// # Returns
///
/// The tests of each sub-suite.
pub fn divide_evenly(test_list: &Vec<String>, num_tasks: usize) -> (suites: Vec<Vec<String>>)
    requires
        0 < num_tasks <= test_list@.len(),
    ensures
        suites.deep_view() == split_evenly(test_list.deep_view(), num_tasks as nat),
{
    let ghost tests = test_list.deep_view();
    let ghost n = num_tasks as nat;
    let quotient: usize = test_list.len() / num_tasks;
    let remainder: usize = test_list.len() % num_tasks;
    let mut suites: Vec<Vec<String>> = Vec::new();
    let mut at: usize = 0;
    let mut i: usize = 0;
    proof {
        lemma_even_starts(tests.len(), n, 0);
    }
    while i < num_tasks
        invariant
            i <= num_tasks,
            n == num_tasks,
            0 < n,
            tests == test_list.deep_view(),
            tests.len() == test_list.len(),
            quotient == tests.len() / n,
            remainder == tests.len() % n,
            at == even_start(tests.len(), n, i as int),
            suites@.len() == i,
            forall|j: int|
                0 <= j < i ==> (#[trigger] suites@[j]).deep_view() == split_evenly(tests, n)[j],
        decreases num_tasks - i,
    {
        proof {
            lemma_even_starts(tests.len(), n, i as int);
        }
        let end: usize = at + quotient + (if i < remainder {
            1
        } else {
            0
        });
        let mut suite: Vec<String> = Vec::new();
        let ghost start = at as int;
        assert(suite.deep_view() =~= tests.subrange(start, start));
        while at < end
            invariant
                0 <= start <= at <= end,
                end <= tests.len(),
                tests == test_list.deep_view(),
                suite.deep_view() == tests.subrange(start, at as int),
            decreases end - at,
        {
            push_text(&mut suite, test_list[at].as_str());
            at += 1;
            assert(suite.deep_view() =~= tests.subrange(start, at as int));
        }
        suites.push(suite);
        i += 1;
    }
    assert(suites.deep_view() =~= split_evenly(tests, n));
    suites
}

/// The starts of the sub-suites of an even division go from the first test to the end, in steps of
/// the quotient, or one more for as many sub-suites as the remainder says.
pub(crate) proof fn lemma_even_starts(len: nat, n: nat, i: int)
    requires
        0 < n,
        0 <= i < n,
    ensures
        even_start(len, n, 0) == 0,
        even_start(len, n, n as int) == len,
        even_start(len, n, i + 1) == even_start(len, n, i) + len / n + (if i < len % n {
            1int
        } else {
            0int
        }),
        0 <= even_start(len, n, i) <= even_start(len, n, i + 1) <= len,
{
    let quotient = (len / n) as int;
    let remainder = (len % n) as int;
    assert(len == n * quotient + remainder && 0 <= remainder < n && 0 <= quotient)
        by (nonlinear_arith)
        requires
            0 < n,
            quotient == len / n,
            remainder == len % n,
    ;
    assert((i + 1) * quotient == i * quotient + quotient) by (nonlinear_arith);
    assert(0 <= i * quotient) by (nonlinear_arith)
        requires
            0 <= i,
            0 <= quotient,
    ;
    assert((i + 1) * quotient <= n * quotient) by (nonlinear_arith)
        requires
            i + 1 <= n,
            0 <= quotient,
    ;
    assert(0 * quotient == 0);
}

} // verus!
