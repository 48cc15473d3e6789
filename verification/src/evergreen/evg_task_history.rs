//! The history of evergreen tasks.

use vstd::prelude::*;

use crate::utils::string_map::StringMap;
use crate::utils::text::{
    after_last, before_first, contains_char, replace_char, replaced, text_after_last,
    text_before_first, trim_end, trimmed_end,
};

verus! {

/// Test stats stored on S3 bucket.
#[derive(Debug, PartialEq)]
pub struct S3TestStats {
    /// Name of test.
    pub test_name: String,
    /// Average duration of passed tests, in nanoseconds.
    pub avg_duration_pass: i64,
}

/// What a [`S3TestStats`] holds.
pub struct S3TestStatsView {
    pub test_name: Seq<char>,
    pub avg_duration_pass: i64,
}

impl DeepView for S3TestStats {
    type V = S3TestStatsView;

    open spec fn deep_view(&self) -> S3TestStatsView {
        S3TestStatsView {
            test_name: self.test_name@,
            avg_duration_pass: self.avg_duration_pass,
        }
    }
}

impl Clone for S3TestStats {
    fn clone(&self) -> (copy: Self)
        ensures
            copy.deep_view() == self.deep_view(),
    {
        S3TestStats {
            test_name: self.test_name.clone(),
            avg_duration_pass: self.avg_duration_pass,
        }
    }
}

/// Runtime information of hooks that ran in evergreen.
#[derive(Debug, PartialEq)]
pub struct HookRuntimeHistory {
    /// Name of test that hook ran with.
    pub test_name: String,
    /// Name of hook.
    pub hook_name: String,
    /// Average runtime of hook, in nanoseconds.
    pub average_runtime: i64,
}

/// What a [`HookRuntimeHistory`] holds.
pub struct HookRuntimeHistoryView {
    pub test_name: Seq<char>,
    pub hook_name: Seq<char>,
    pub average_runtime: i64,
}

impl DeepView for HookRuntimeHistory {
    type V = HookRuntimeHistoryView;

    open spec fn deep_view(&self) -> HookRuntimeHistoryView {
        HookRuntimeHistoryView {
            test_name: self.test_name@,
            hook_name: self.hook_name@,
            average_runtime: self.average_runtime,
        }
    }
}

impl Clone for HookRuntimeHistory {
    fn clone(&self) -> (copy: Self)
        ensures
            copy.deep_view() == self.deep_view(),
    {
        HookRuntimeHistory {
            test_name: self.test_name.clone(),
            hook_name: self.hook_name.clone(),
            average_runtime: self.average_runtime,
        }
    }
}

/// Runtime history of a test in evergreen.
#[derive(Debug, PartialEq)]
pub struct TestRuntimeHistory {
    /// Name of test.
    pub test_name: String,
    /// Average runtime of test, in nanoseconds.
    pub average_runtime: i64,
    /// Hooks runtime information of hooks that ran with the test.
    pub hooks: Vec<HookRuntimeHistory>,
}

/// What a [`TestRuntimeHistory`] holds.
pub struct TestRuntimeHistoryView {
    pub test_name: Seq<char>,
    pub average_runtime: i64,
    pub hooks: Seq<HookRuntimeHistoryView>,
}

impl DeepView for TestRuntimeHistory {
    type V = TestRuntimeHistoryView;

    open spec fn deep_view(&self) -> TestRuntimeHistoryView {
        TestRuntimeHistoryView {
            test_name: self.test_name@,
            average_runtime: self.average_runtime,
            hooks: self.hooks.deep_view(),
        }
    }
}

impl Clone for TestRuntimeHistory {
    fn clone(&self) -> (copy: Self)
        ensures
            copy.deep_view() == self.deep_view(),
    {
        let hooks = self.hooks.clone();
        assert(hooks.deep_view() =~~= self.hooks.deep_view());
        TestRuntimeHistory {
            test_name: self.test_name.clone(),
            average_runtime: self.average_runtime,
            hooks,
        }
    }
}

/// Runtime history of a task from evergreen.
#[derive(Debug, PartialEq)]
pub struct TaskRuntimeHistory {
    /// Name of task.
    pub task_name: String,
    /// Map of tests to the runtime history for that test.
    pub test_map: StringMap<TestRuntimeHistory>,
}

/// What a [`TaskRuntimeHistory`] holds.
pub struct TaskRuntimeHistoryView {
    pub task_name: Seq<char>,
    pub test_map: Map<Seq<char>, TestRuntimeHistoryView>,
}

impl DeepView for TaskRuntimeHistory {
    type V = TaskRuntimeHistoryView;

    open spec fn deep_view(&self) -> TaskRuntimeHistoryView {
        TaskRuntimeHistoryView { task_name: self.task_name@, test_map: self.test_map.deep_view() }
    }
}

/// What separates the test name from the hook name in the identifier of a hook.
pub const HOOK_DELIMITER: char = ':';

/// What the name of a test file ends with.
pub const TEST_EXTENSION: &'static str = ".js";

/// A test file with path separators in unix style.
pub open spec fn normalized(test_file: Seq<char>) -> Seq<char> {
    replaced(test_file, '\\', '/')
}

/// The base name of a test file, without extension.
pub open spec fn base_name(test_file: Seq<char>) -> Seq<char> {
    trimmed_end(after_last(test_file, '/'), TEST_EXTENSION@)
}

/// The hooks in a list of stats that ran with the named test, in their order.
pub open spec fn hooks_of(stats: Seq<S3TestStatsView>, test_name: Seq<char>) -> Seq<
    HookRuntimeHistoryView,
>
    decreases stats.len(),
{
    if stats.len() == 0 {
        Seq::empty()
    } else {
        let rest = hooks_of(stats.drop_last(), test_name);
        let file = normalized(stats.last().test_name);
        if file.contains(HOOK_DELIMITER) && before_first(file, HOOK_DELIMITER) == test_name {
            rest.push(
                HookRuntimeHistoryView {
                    test_name,
                    hook_name: after_last(file, HOOK_DELIMITER),
                    average_runtime: stats.last().avg_duration_pass,
                },
            )
        } else {
            rest
        }
    }
}

/// The stats in a list that belong to the named test, in their order.
pub open spec fn runs_of(stats: Seq<S3TestStatsView>, test_name: Seq<char>) -> Seq<S3TestStatsView>
    decreases stats.len(),
{
    if stats.len() == 0 {
        Seq::empty()
    } else {
        let rest = runs_of(stats.drop_last(), test_name);
        let file = normalized(stats.last().test_name);
        if !file.contains(HOOK_DELIMITER) && base_name(file) == test_name {
            rest.push(stats.last())
        } else {
            rest
        }
    }
}

/// The duration of all the runs together.
pub open spec fn total_duration(runs: Seq<S3TestStatsView>) -> int
    decreases runs.len(),
{
    if runs.len() == 0 {
        0
    } else {
        total_duration(runs.drop_last()) + runs.last().avg_duration_pass
    }
}

/// The durations of the tests can be added up in 64 bits.
pub open spec fn durations_fit(stats: Seq<S3TestStatsView>) -> bool {
    forall|n: int, test_name: Seq<char>|
        0 <= n <= stats.len() ==> i64::MIN <= #[trigger] total_duration(
            runs_of(stats.take(n), test_name),
        ) <= i64::MAX
}

/// Do the durations of all runs of a test sum up to 64 bits, for each test?
///
/// # Arguments
///
/// * `stats` - Stats to sum up.
pub fn can_total_durations(stats: &Vec<S3TestStats>) -> (can: bool)
    ensures
        can == durations_fit(stats.deep_view()),
{
    let ghost all = stats.deep_view();
    let mut totals: StringMap<i64> = StringMap::new();
    let mut i: usize = 0;
    while i < stats.len()
        invariant
            i <= stats@.len(),
            all == stats.deep_view(),
            forall|name: Seq<char>| #[trigger]
                totals@.contains_key(name) ==> totals@[name] == total_duration(
                    runs_of(all.take(i as int), name),
                ),
            forall|name: Seq<char>|
                !(#[trigger] totals@.contains_key(name)) ==> total_duration(
                    runs_of(all.take(i as int), name),
                ) == 0,
            forall|n: int, name: Seq<char>|
                0 <= n <= i ==> i64::MIN <= #[trigger] total_duration(runs_of(all.take(n), name))
                    <= i64::MAX,
        decreases stats@.len() - i,
    {
        let ghost before = totals@;
        let ghost earlier = all.take(i as int);
        let ghost now = all.take(i + 1);
        proof {
            assert(now.drop_last() =~= earlier);
            assert(now.last() == stats[i as int].deep_view());
        }
        let file: String = normalize_test_file(stats[i].test_name.as_str());
        if !is_hook(file.as_str()) {
            let test_name: String = get_test_name(file.as_str());
            let ghost name = test_name@;
            proof {
                assert(runs_of(now, name) == runs_of(earlier, name).push(now.last()));
                assert(runs_of(now, name).drop_last() =~= runs_of(earlier, name));
                assert forall|other: Seq<char>| other != name implies #[trigger] runs_of(now, other)
                    == runs_of(earlier, other) by {}
            }
            let so_far: i64 = match totals.get(test_name.as_str()) {
                Some(total) => *total,
                None => 0,
            };
            match so_far.checked_add(stats[i].avg_duration_pass) {
                Some(total) => {
                    totals.insert(test_name, total);
                    assert forall|n: int, other: Seq<char>| 0 <= n <= i + 1 implies i64::MIN
                        <= #[trigger] total_duration(runs_of(all.take(n), other)) <= i64::MAX by {
                        if n == i + 1 && other != name {
                            assert(runs_of(now, other) == runs_of(earlier, other));
                            assert(i64::MIN <= total_duration(runs_of(earlier, other)) <= i64::MAX);
                        }
                    }
                    assert forall|other: Seq<char>|
                        !(#[trigger] totals@.contains_key(other)) implies total_duration(
                        runs_of(now, other),
                    ) == 0 by {
                        assert(!before.contains_key(other));
                        assert(runs_of(now, other) == runs_of(earlier, other));
                    }
                },
                None => {
                    assert(!(i64::MIN <= total_duration(runs_of(all.take(i + 1), name))
                        <= i64::MAX));
                    return false;
                },
            }
        } else {
            assert forall|other: Seq<char>| #[trigger] runs_of(now, other) == runs_of(
                earlier,
                other,
            ) by {}
            assert forall|n: int, other: Seq<char>| 0 <= n <= i + 1 implies i64::MIN
                <= #[trigger] total_duration(runs_of(all.take(n), other)) <= i64::MAX by {
                if n == i + 1 {
                    assert(runs_of(now, other) == runs_of(earlier, other));
                    assert(i64::MIN <= total_duration(runs_of(earlier, other)) <= i64::MAX);
                }
            }
        }
        i += 1;
    }
    true
}

/// The hooks that ran with each test.
pub open spec fn hook_stats(stats: Seq<S3TestStatsView>) -> Map<
    Seq<char>,
    Seq<HookRuntimeHistoryView>,
> {
    Map::new(
        |test_name: Seq<char>| hooks_of(stats, test_name).len() > 0,
        |test_name: Seq<char>| hooks_of(stats, test_name),
    )
}

/// The history of each test: its latest file name, the duration of all its runs together, and the
/// hooks that are given for it.
pub open spec fn test_stats(
    stats: Seq<S3TestStatsView>,
    hook_map: Map<Seq<char>, Seq<HookRuntimeHistoryView>>,
) -> Map<Seq<char>, TestRuntimeHistoryView> {
    Map::new(
        |test_name: Seq<char>| runs_of(stats, test_name).len() > 0,
        |test_name: Seq<char>|
            TestRuntimeHistoryView {
                test_name: normalized(runs_of(stats, test_name).last().test_name),
                average_runtime: total_duration(runs_of(stats, test_name)) as i64,
                hooks: if hook_map.contains_key(test_name) {
                    hook_map[test_name]
                } else {
                    Seq::empty()
                },
            },
    )
}

/// Build the history of a task from its stats.
///
/// # Arguments
///
/// * `task` - Name of task.
/// * `stats` - Stats of the tests and hooks that ran in the task.
pub fn task_history_from_stats(task: &str, stats: &Vec<S3TestStats>) -> (history: TaskRuntimeHistory)
    requires
        durations_fit(stats.deep_view()),
    ensures
        history.deep_view() == (TaskRuntimeHistoryView {
            task_name: task@,
            test_map: test_stats(stats.deep_view(), hook_stats(stats.deep_view())),
        }),
{
    // Split the stats into stats for hooks and tests. Also attach the hook stats to the test that
    // they ran with.
    let hook_map = gather_hook_stats(stats);
    let test_map = gather_test_stats(stats, &hook_map);
    TaskRuntimeHistory { task_name: task.to_owned(), test_map }
}

/// Convert the list of stats into a map of test names to test stats.
///
/// Also add hook information for all tests with their stats.
///
/// # Arguments
///
/// * `stat_list` - List of stats.
/// * `hook_map` - Map of test names to hook stats that ran with the test.
///
/// # Returns
///
/// Map of test names to stats belong to that test.
pub fn gather_test_stats(
    stat_list: &Vec<S3TestStats>,
    hook_map: &StringMap<Vec<HookRuntimeHistory>>,
) -> (test_map: StringMap<TestRuntimeHistory>)
    requires
        durations_fit(stat_list.deep_view()),
    ensures
        test_map.deep_view() == test_stats(stat_list.deep_view(), hook_map.deep_view()),
{
    let mut test_map: StringMap<TestRuntimeHistory> = StringMap::new();
    let ghost all = stat_list.deep_view();
    let ghost hooks = hook_map.deep_view();
    let mut i: usize = 0;
    assert(test_map.deep_view() =~= test_stats(all.take(0), hooks));
    while i < stat_list.len()
        invariant
            i <= stat_list@.len(),
            all == stat_list.deep_view(),
            hooks == hook_map.deep_view(),
            durations_fit(all),
            test_map.deep_view() == test_stats(all.take(i as int), hooks),
        decreases stat_list@.len() - i,
    {
        let ghost before = test_map.deep_view();
        let ghost earlier = all.take(i as int);
        let ghost now = all.take(i + 1);
        proof {
            assert(now.drop_last() =~= earlier);
            assert(now.last() == stat_list[i as int].deep_view());
        }
        let stat: &S3TestStats = &stat_list[i];
        let file: String = normalize_test_file(stat.test_name.as_str());
        if !is_hook(file.as_str()) {
            let test_name: String = get_test_name(file.as_str());
            let ghost name = test_name@;
            proof {
                assert(runs_of(now, name) == runs_of(earlier, name).push(now.last()));
                assert(runs_of(now, name).drop_last() =~= runs_of(earlier, name));
                assert(i64::MIN <= total_duration(runs_of(all.take(i + 1), name)) <= i64::MAX);
                assert(i64::MIN <= total_duration(runs_of(all.take(i as int), name)) <= i64::MAX);
            }
            let history = match test_map.get(test_name.as_str()) {
                Some(earlier_history) => {
                    let history_hooks = earlier_history.hooks.clone();
                    assert(history_hooks.deep_view() =~~= earlier_history.hooks.deep_view());
                    assert(earlier_history.deep_view() == before[name]);
                    TestRuntimeHistory {
                        test_name: file,
                        average_runtime: earlier_history.average_runtime + stat.avg_duration_pass,
                        hooks: history_hooks,
                    }
                },
                None => {
                    assert(!before.contains_key(name));
                    assert(runs_of(earlier, name).len() == 0);
                    let history_hooks = match hook_map.get(test_name.as_str()) {
                        Some(list) => list.clone(),
                        None => Vec::new(),
                    };
                    assert(history_hooks.deep_view() =~~= (if hooks.contains_key(name) {
                        hooks[name]
                    } else {
                        Seq::empty()
                    }));
                    TestRuntimeHistory {
                        test_name: file,
                        average_runtime: stat.avg_duration_pass,
                        hooks: history_hooks,
                    }
                },
            };
            assert(history.deep_view() == test_stats(now, hooks)[name]);
            test_map.insert(test_name, history);
            proof {
                assert(test_map.deep_view() =~= before.insert(name, history.deep_view()));
                assert(test_map.deep_view() =~= test_stats(now, hooks));
            }
        } else {
            assert(test_stats(now, hooks) =~= test_stats(earlier, hooks));
        }
        i += 1;
    }
    assert(all.take(i as int) =~= all);
    test_map
}

/// Gather all the hook stats in the given list into a map by the test the hooks ran with.
///
/// # Arguments
///
/// * `stat_list` - List of stats.
///
/// # Returns
///
/// Map of test name and hook stats for hooks that ran with the test.
pub fn gather_hook_stats(stat_list: &Vec<S3TestStats>) -> (hook_map: StringMap<
    Vec<HookRuntimeHistory>,
>)
    ensures
        hook_map.deep_view() == hook_stats(stat_list.deep_view()),
{
    let mut hook_map: StringMap<Vec<HookRuntimeHistory>> = StringMap::new();
    let ghost all = stat_list.deep_view();
    let mut i: usize = 0;
    assert(hook_map.deep_view() =~= hook_stats(all.take(0)));
    while i < stat_list.len()
        invariant
            i <= stat_list@.len(),
            all == stat_list.deep_view(),
            hook_map.deep_view() == hook_stats(all.take(i as int)),
        decreases stat_list@.len() - i,
    {
        let ghost before = hook_map.deep_view();
        let ghost earlier = all.take(i as int);
        let ghost now = all.take(i + 1);
        proof {
            assert(now.drop_last() =~= earlier);
            assert(now.last() == stat_list[i as int].deep_view());
        }
        let stat: &S3TestStats = &stat_list[i];
        let file: String = normalize_test_file(stat.test_name.as_str());
        if is_hook(file.as_str()) {
            let test_name: String = hook_test_name(file.as_str()).to_owned();
            let ghost name = test_name@;
            let hook = HookRuntimeHistory {
                test_name: test_name.clone(),
                hook_name: hook_hook_name(file.as_str()).to_owned(),
                average_runtime: stat.avg_duration_pass,
            };
            let mut list: Vec<HookRuntimeHistory> = match hook_map.get(test_name.as_str()) {
                Some(list) => list.clone(),
                None => Vec::new(),
            };
            proof {
                if before.contains_key(name) {
                    assert(list.deep_view() =~~= before[name]);
                } else {
                    assert(hooks_of(earlier, name).len() == 0);
                    assert(list.deep_view() =~= Seq::<HookRuntimeHistoryView>::empty());
                    assert(hooks_of(earlier, name) =~= Seq::<HookRuntimeHistoryView>::empty());
                }
                assert(list.deep_view() == hooks_of(earlier, name));
            }
            list.push(hook);
            assert(list.deep_view() =~= hooks_of(now, name));
            hook_map.insert(test_name, list);
            proof {
                assert(hook_map.deep_view() =~= before.insert(name, list.deep_view()));
                assert(hook_map.deep_view() =~= hook_stats(now));
            }
        } else {
            assert(hook_stats(now) =~= hook_stats(earlier));
        }
        i += 1;
    }
    assert(all.take(i as int) =~= all);
    hook_map
}

/// Determine if the given identifier is a hook.
///
/// Identifiers for hooks have a ':' in them separating the test name from the hook name.
///
/// # Arguments
///
/// * `identifier` - Identifier to check.
///
/// # Returns
///
/// true if the given identifier is a hook.
pub fn is_hook(identifier: &str) -> (found: bool)
    ensures
        found == identifier@.contains(HOOK_DELIMITER),
{
    contains_char(identifier, HOOK_DELIMITER)
}

/// Get the test name part of a given hook identifier.
///
/// # Arguments
///
/// * `identifier` - Identifier to query.
///
/// # Returns
///
/// test name of the given hook identifier.
pub fn hook_test_name(identifier: &str) -> (name: &str)
    ensures
        name@ == before_first(identifier@, HOOK_DELIMITER),
{
    text_before_first(identifier, HOOK_DELIMITER)
}

/// Get the hook name part of a given hook identifier.
///
/// # Arguments
///
/// * `identifier` - Identifier to query.
///
/// # Returns
///
/// hook name of the given hook identifier.
pub fn hook_hook_name(identifier: &str) -> (name: &str)
    ensures
        name@ == after_last(identifier@, HOOK_DELIMITER),
{
    text_after_last(identifier, HOOK_DELIMITER)
}

/// Normalize the given test files.
///
/// Converts windows path separators (\) to unix style (/).
///
/// # Arguments
///
/// * `test_file` - test file to normalize.
///
/// # Returns
///
/// Normalized test file.
pub fn normalize_test_file(test_file: &str) -> (file: String)
    ensures
        file@ == normalized(test_file@),
{
    replace_char(test_file, '\\', '/')
}

/// Get the base name of the given test file.
///
/// # Arguments
///
/// * `test_file` - Relative path to test file.
///
/// # Returns
///
/// Base name of test file with extension removed.
pub fn get_test_name(test_file: &str) -> (name: String)
    ensures
        name@ == base_name(test_file@),
{
    trim_end(text_after_last(test_file, '/'), TEST_EXTENSION).to_owned()
}

/// Where the stats of a task on a build variant of a project are stored.
pub open spec fn key_of(evg_project: Seq<char>, variant: Seq<char>, task: Seq<char>) -> Seq<char> {
    evg_project + "/"@ + variant + "/"@ + task
}

/// The key under which the stats of a task are stored.
///
/// # Arguments
///
/// * `evg_project` - Evergreen project to query.
/// * `variant` - Name of build variant to query.
/// * `task` - Name of task to query.
pub fn stats_key(evg_project: &str, variant: &str, task: &str) -> (key: String)
    ensures
        key@ == key_of(evg_project@, variant@, task@),
{
    let mut key: String = evg_project.to_owned();
    key.append("/");
    key.append(variant);
    key.append("/");
    key.append(task);
    key
}

} // verus!
