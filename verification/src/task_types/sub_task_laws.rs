//! What holds of the sub-tasks of a resmoke task.

use vstd::prelude::*;

use crate::evergreen::evg_config_utils::MultiversionGenerateTaskConfigView;
use crate::evergreen::evg_task_history::{TaskRuntimeHistory, TestRuntimeHistory};
use crate::evergreen::model::{
    BuildVariantView, EvgCommandView, EvgTaskView, FunctionCallView, ParamValueView, VarsView,
};
use crate::task_types::fuzzer_tasks::dependencies_of;
use crate::task_types::multiversion::MultiversionService;
use crate::task_types::resmoke_tasks::{
    all_sub_suites, generation_info_of, multiversion_sub_suites, resmoke_args_of,
    resmoke_sub_task_of, run_test_vars_of, selected_tests, split_task_of, sub_suites_for,
    sub_tasks_of, suites_needed, total_runtime, GenResmokeConfig, ResmokeGenParamsView,
    SubSuiteView, SubtaskLimits, SuiteTests,
};
use crate::utils::lists::kept;
use crate::utils::number::decimal;
use crate::utils::number_laws::{is_numbered_name, law_sub_task_names_hold_their_index};
use crate::utils::task_name::generated_task_name;

verus! {

/// A command calls a function without variables.
pub open spec fn runs_plainly(command: EvgCommandView, func: Seq<char>) -> bool {
    command == EvgCommandView::Function(
        FunctionCallView { func, vars: None, timeout_secs: None },
    )
}

/// A command calls a function with variables.
pub open spec fn runs_with(command: EvgCommandView, func: Seq<char>, vars: VarsView) -> bool {
    command == EvgCommandView::Function(
        FunctionCallView { func, vars: Some(vars), timeout_secs: None },
    )
}

/// A variable has a value.
pub open spec fn holds(vars: VarsView, name: Seq<char>, value: ParamValueView) -> bool {
    vars.contains_key(name) && vars[name] == value
}

/// The first commands of a task set up what its tests need. For multiversion tests the project is
/// fetched and tagged first, and the other versions are set up last.
pub open spec fn is_set_up(commands: Seq<EvgCommandView>, multiversion: bool, n: int) -> bool {
    &&& n <= commands.len()
    &&& if multiversion {
        &&& n == 5
        &&& runs_plainly(commands[0], "git get project no modules"@)
        &&& runs_plainly(commands[1], "add git tag"@)
        &&& runs_plainly(commands[2], "do setup"@)
        &&& runs_plainly(commands[3], "configure evergreen api credentials"@)
        &&& runs_plainly(commands[4], "do multiversion setup"@)
    } else {
        &&& n == 2
        &&& runs_plainly(commands[0], "do setup"@)
        &&& runs_plainly(commands[1], "configure evergreen api credentials"@)
    }
}

/// A task depends on the tasks of the given names, on whatever build variant it runs.
pub open spec fn depends_on_all(task: EvgTaskView, names: Seq<Seq<char>>) -> bool {
    match task.depends_on {
        Some(dependencies) => {
            &&& names.len() > 0
            &&& dependencies.len() == names.len()
            &&& forall|i: int|
                0 <= i < names.len() ==> (#[trigger] dependencies[i]).name == names[i]
                    && dependencies[i].variant is None
        },
        None => names.len() == 0,
    }
}

/// A task has nothing but a name, commands and dependencies.
pub open spec fn has_no_more(task: EvgTaskView) -> bool {
    &&& task.exec_timeout_secs is None
    &&& task.tags is None
    &&& task.patchable is None
    &&& task.stepback is None
}

pub(crate) proof fn lemma_depends_on_all(task: EvgTaskView, names: Seq<Seq<char>>)
    requires
        task.depends_on == dependencies_of(names),
    ensures
        depends_on_all(task, names),
{
}


/// The least of three numbers.
pub open spec fn least_of(a: int, b: int, c: int) -> int {
    if a <= b && a <= c {
        a
    } else if b <= c {
        b
    } else {
        c
    }
}

/// A build variant is required: its display name starts with an exclamation mark.
pub open spec fn is_marked_required(variant: BuildVariantView) -> bool {
    variant.display_name matches Some(name) && name.len() > 0 && name[0] == '!'
}

pub(crate) proof fn lemma_required_prefix(name: Seq<char>)
    ensures
        "!"@.is_prefix_of(name) <==> name.len() > 0 && name[0] == '!',
{
    reveal_strlit("!");
    assert("!"@.len() == 1);
    if name.len() > 0 {
        assert(name.subrange(0, 1)[0] == name[0]);
        if name[0] == '!' {
            assert(name.subrange(0, 1) =~= "!"@);
        }
    }
}

proof fn lemma_split_count(
    limits: SubtaskLimits,
    params: ResmokeGenParamsView,
    variant: BuildVariantView,
    history: TaskRuntimeHistory,
    tests: Seq<Seq<char>>,
    multiversion_name: Option<Seq<char>>,
    multiversion_tags: Option<Seq<char>>,
    count: int,
)
    requires
        tests.len() > 0 ==> count > 0,
        count >= 0,
        count == crate::task_types::resmoke_tasks::subtask_count(
            limits,
            params.num_tasks,
            variant.display_name,
            total_runtime(history.test_map.entries(), tests),
            tests.len(),
        ),
    ensures
        split_task_of(
            limits,
            params,
            variant,
            history,
            tests,
            multiversion_name,
            multiversion_tags,
        ).len() == count,
{
    crate::task_types::test_splitting_laws::law_split_keeps_tests(
        history.test_map.deep_view(),
        tests,
        count as nat,
    );
}

/// On a build variant that is not required a task is split into the default number of sub-tasks,
/// however long its tests run, but into no more than it has tests or than are allowed.
pub proof fn law_other_variants_split_by_default(
    config: GenResmokeConfig,
    limits: SubtaskLimits,
    params: ResmokeGenParamsView,
    variant: BuildVariantView,
    tests: SuiteTests,
    multiversion_name: Option<Seq<char>>,
    multiversion_tags: Option<Seq<char>>,
)
    requires
        params.num_tasks is None,
        variant.display_name is Some,
        !is_marked_required(variant),
        tests.test_list@.len() > 0 ==> limits.default_subtasks_per_task > 0
            && limits.max_subtasks_per_task > 0,
    ensures
        sub_suites_for(
            config,
            limits,
            params,
            variant,
            tests,
            multiversion_name,
            multiversion_tags,
        ).len() == least_of(
            limits.default_subtasks_per_task as int,
            tests.test_list@.len() as int,
            limits.max_subtasks_per_task as int,
        ),
{
    let count = least_of(
        limits.default_subtasks_per_task as int,
        tests.test_list@.len() as int,
        limits.max_subtasks_per_task as int,
    );
    lemma_required_prefix(variant.display_name.unwrap());
    match tests.history {
        Some(history) if !config.use_task_split_fallback => {
            lemma_split_count(
                limits,
                params,
                variant,
                history,
                tests.test_list.deep_view(),
                multiversion_name,
                multiversion_tags,
                count,
            );
        },
        _ => {},
    }
}

/// A task that says how many sub-tasks it wants is split into so many, wherever and however long it
/// runs, but into no more than it has tests or than are allowed.
pub proof fn law_wanted_number_of_sub_tasks_is_kept(
    config: GenResmokeConfig,
    limits: SubtaskLimits,
    params: ResmokeGenParamsView,
    variant: BuildVariantView,
    tests: SuiteTests,
    multiversion_name: Option<Seq<char>>,
    multiversion_tags: Option<Seq<char>>,
)
    requires
        params.num_tasks is Some,
        tests.test_list@.len() > 0 ==> params.num_tasks.unwrap() > 0
            && limits.max_subtasks_per_task > 0,
    ensures
        sub_suites_for(
            config,
            limits,
            params,
            variant,
            tests,
            multiversion_name,
            multiversion_tags,
        ).len() == least_of(
            params.num_tasks.unwrap() as int,
            tests.test_list@.len() as int,
            limits.max_subtasks_per_task as int,
        ),
{
    let count = least_of(
        params.num_tasks.unwrap() as int,
        tests.test_list@.len() as int,
        limits.max_subtasks_per_task as int,
    );
    match tests.history {
        Some(history) if !config.use_task_split_fallback => {
            lemma_split_count(
                limits,
                params,
                variant,
                history,
                tests.test_list.deep_view(),
                multiversion_name,
                multiversion_tags,
                count,
            );
        },
        _ => {},
    }
}

/// Without a history that counts, a task is split into the number of sub-tasks that it wants, or
/// into the default number, on whatever build variant it runs.
pub proof fn law_unknown_runtimes_split_by_default(
    config: GenResmokeConfig,
    limits: SubtaskLimits,
    params: ResmokeGenParamsView,
    variant: BuildVariantView,
    tests: SuiteTests,
    multiversion_name: Option<Seq<char>>,
    multiversion_tags: Option<Seq<char>>,
)
    requires
        config.use_task_split_fallback || tests.history is None,
    ensures
        sub_suites_for(
            config,
            limits,
            params,
            variant,
            tests,
            multiversion_name,
            multiversion_tags,
        ).len() == least_of(
            match params.num_tasks {
                Some(wanted) => wanted as int,
                None => limits.default_subtasks_per_task as int,
            },
            tests.test_list@.len() as int,
            limits.max_subtasks_per_task as int,
        ),
{
}

/// On a required build variant a task whose tests run longer than the threshold is split into one
/// more sub-task than by default for each further runtime that a sub-task should take. A task that
/// does not run longer is split as by default.
pub proof fn law_long_required_tasks_split_further(
    config: GenResmokeConfig,
    limits: SubtaskLimits,
    params: ResmokeGenParamsView,
    variant: BuildVariantView,
    tests: SuiteTests,
    multiversion_name: Option<Seq<char>>,
    multiversion_tags: Option<Seq<char>>,
    extra: int,
)
    requires
        params.num_tasks is None,
        is_marked_required(variant),
        !config.use_task_split_fallback,
        tests.history is Some,
        tests.test_list@.len() > 0 ==> limits.default_subtasks_per_task > 0
            && limits.max_subtasks_per_task > 0,
        ({
            let over = total_runtime(
                tests.history.unwrap().test_map.entries(),
                tests.test_list.deep_view(),
            ) - limits.large_required_task_runtime_threshold;
            let per = limits.test_runtime_per_required_subtask as int;
            if over > 0 && per >= 0 {
                &&& per > 0
                &&& 0 <= extra <= usize::MAX
                &&& extra * per <= over < (extra + 1) * per
            } else {
                extra == 0
            }
        }),
    ensures
        sub_suites_for(
            config,
            limits,
            params,
            variant,
            tests,
            multiversion_name,
            multiversion_tags,
        ).len() == least_of(
            limits.default_subtasks_per_task + extra,
            tests.test_list@.len() as int,
            limits.max_subtasks_per_task as int,
        ),
{
    let history = tests.history.unwrap();
    let list = tests.test_list.deep_view();
    let over = total_runtime(history.test_map.entries(), list)
        - limits.large_required_task_runtime_threshold;
    let per = limits.test_runtime_per_required_subtask as int;
    lemma_required_prefix(variant.display_name.unwrap());
    if over > 0 && per >= 0 {
        assert(over / per == extra) by (nonlinear_arith)
            requires
                per > 0,
                extra * per <= over < (extra + 1) * per,
        ;
    }
    lemma_split_count(
        limits,
        params,
        variant,
        history,
        list,
        multiversion_name,
        multiversion_tags,
        least_of(
            limits.default_subtasks_per_task + extra,
            list.len() as int,
            limits.max_subtasks_per_task as int,
        ),
    );
}

/// The runtime of a task is that of those of its tests that have a history. Other tests of the
/// history do not count.
pub proof fn law_only_tests_of_the_task_count(
    entries: Seq<(String, TestRuntimeHistory)>,
    more: (String, TestRuntimeHistory),
    tests: Seq<Seq<char>>,
)
    ensures
        total_runtime(Seq::empty(), tests) == 0,
        tests.contains(more.1.test_name@) ==> total_runtime(entries.push(more), tests)
            == total_runtime(entries, tests) + more.1.average_runtime,
        !tests.contains(more.1.test_name@) ==> total_runtime(entries.push(more), tests)
            == total_runtime(entries, tests),
{
    assert(entries.push(more).drop_last() =~= entries);
}

/// A sub-suite belongs to the task and its build variant. It is named after the multiversion suite
/// that it was made for, or after the task, and it comes from that suite, or from the suite of the
/// task.
pub proof fn law_sub_suites_belong_to_their_task(
    config: GenResmokeConfig,
    limits: SubtaskLimits,
    params: ResmokeGenParamsView,
    variant: BuildVariantView,
    tests: SuiteTests,
    multiversion_name: Option<Seq<char>>,
    multiversion_tags: Option<Seq<char>>,
    i: int,
)
    requires
        0 <= i < sub_suites_for(
            config,
            limits,
            params,
            variant,
            tests,
            multiversion_name,
            multiversion_tags,
        ).len(),
    ensures
        ({
            let sub_suite = sub_suites_for(
                config,
                limits,
                params,
                variant,
                tests,
                multiversion_name,
                multiversion_tags,
            )[i];
            &&& multiversion_name matches Some(name) ==> sub_suite.name == name
                && sub_suite.origin_suite == name
            &&& multiversion_name is None ==> sub_suite.name == params.task_name
                && sub_suite.origin_suite == params.suite_name
            &&& sub_suite.mv_exclude_tags == multiversion_tags
            &&& sub_suite.exclude_test_list is None
            &&& sub_suite.is_enterprise == params.is_enterprise
            &&& sub_suite.platform == params.platform
        }),
{
}

/// How many sub-suites the first multiversion suites have together.
pub open spec fn count_before(
    config: GenResmokeConfig,
    limits: SubtaskLimits,
    params: ResmokeGenParamsView,
    variant: BuildVariantView,
    tests: Seq<SuiteTests>,
    n: int,
) -> int
    decreases n,
{
    if n <= 0 {
        0
    } else {
        count_before(config, limits, params, variant, tests, n - 1) + sub_suites_for(
            config,
            limits,
            params,
            variant,
            tests[n - 1],
            None,
            None,
        ).len()
    }
}

proof fn lemma_count_without_names(
    config: GenResmokeConfig,
    limits: SubtaskLimits,
    params: ResmokeGenParamsView,
    variant: BuildVariantView,
    tests: SuiteTests,
    multiversion_name: Option<Seq<char>>,
    multiversion_tags: Option<Seq<char>>,
)
    ensures
        sub_suites_for(
            config,
            limits,
            params,
            variant,
            tests,
            multiversion_name,
            multiversion_tags,
        ).len() == sub_suites_for(config, limits, params, variant, tests, None, None).len(),
{
}

proof fn lemma_multiversion_sub_suites(
    config: GenResmokeConfig,
    limits: SubtaskLimits,
    params: ResmokeGenParamsView,
    variant: BuildVariantView,
    tasks: Seq<MultiversionGenerateTaskConfigView>,
    tests: Seq<SuiteTests>,
    t: int,
    i: int,
)
    requires
        tests.len() == tasks.len(),
        0 <= t < tasks.len(),
        0 <= i < sub_suites_for(config, limits, params, variant, tests[t], None, None).len(),
    ensures
        multiversion_sub_suites(config, limits, params, variant, tasks, tests).len()
            == count_before(config, limits, params, variant, tests, tasks.len() as int),
        0 <= count_before(config, limits, params, variant, tests, t) + i < multiversion_sub_suites(
            config,
            limits,
            params,
            variant,
            tasks,
            tests,
        ).len(),
        multiversion_sub_suites(config, limits, params, variant, tasks, tests)[count_before(
            config,
            limits,
            params,
            variant,
            tests,
            t,
        ) + i] == sub_suites_for(
            config,
            limits,
            params,
            variant,
            tests[t],
            Some(tasks[t].suite_name),
            Some(tasks[t].old_version),
        )[i],
    decreases tasks.len(),
{
    let n = tasks.len() - 1;
    let fewer = tests.drop_last();
    lemma_multiversion_count(config, limits, params, variant, tasks.drop_last(), fewer);
    lemma_count_before(config, limits, params, variant, tests, n);
    lemma_count_before(config, limits, params, variant, tests, t);
    lemma_count_without_names(
        config,
        limits,
        params,
        variant,
        tests[n],
        Some(tasks[n].suite_name),
        Some(tasks[n].old_version),
    );
    assert(tests.last() == tests[n] && tasks.last() == tasks[n]);
    if t < n {
        lemma_multiversion_sub_suites(
            config,
            limits,
            params,
            variant,
            tasks.drop_last(),
            fewer,
            t,
            i,
        );
        assert(fewer[t] == tests[t] && tasks.drop_last()[t] == tasks[t]);
    }
}

proof fn lemma_count_before(
    config: GenResmokeConfig,
    limits: SubtaskLimits,
    params: ResmokeGenParamsView,
    variant: BuildVariantView,
    tests: Seq<SuiteTests>,
    n: int,
)
    requires
        0 <= n < tests.len(),
    ensures
        count_before(config, limits, params, variant, tests.drop_last(), n) == count_before(
            config,
            limits,
            params,
            variant,
            tests,
            n,
        ),
        count_before(config, limits, params, variant, tests, n) >= 0,
    decreases n,
{
    if n > 0 {
        lemma_count_before(config, limits, params, variant, tests, n - 1);
        assert(tests.drop_last()[n - 1] == tests[n - 1]);
    }
}

proof fn lemma_multiversion_count(
    config: GenResmokeConfig,
    limits: SubtaskLimits,
    params: ResmokeGenParamsView,
    variant: BuildVariantView,
    tasks: Seq<MultiversionGenerateTaskConfigView>,
    tests: Seq<SuiteTests>,
)
    requires
        tests.len() == tasks.len(),
    ensures
        multiversion_sub_suites(config, limits, params, variant, tasks, tests).len()
            == count_before(config, limits, params, variant, tests, tasks.len() as int),
    decreases tasks.len(),
{
    if tasks.len() > 0 {
        let n = tasks.len() - 1;
        lemma_multiversion_count(
            config,
            limits,
            params,
            variant,
            tasks.drop_last(),
            tests.drop_last(),
        );
        lemma_count_before(config, limits, params, variant, tests, n);
        lemma_count_without_names(
            config,
            limits,
            params,
            variant,
            tests[n],
            Some(tasks[n].suite_name),
            Some(tasks[n].old_version),
        );
        assert(tests.last() == tests[n]);
    }
}

/// Each multiversion suite of a task has sub-suites of its own, one suite after the other: they are
/// named after it, come from it, and leave out what its old version rules out.
pub proof fn law_each_multiversion_suite_is_split(
    config: GenResmokeConfig,
    limits: SubtaskLimits,
    params: ResmokeGenParamsView,
    variant: BuildVariantView,
    tests: Seq<SuiteTests>,
    t: int,
    i: int,
)
    requires
        params.require_multiversion_generate_tasks,
        params.multiversion_generate_tasks is Some,
        tests.len() == params.multiversion_generate_tasks.unwrap().len(),
        0 <= t < tests.len(),
        0 <= i < sub_suites_for(config, limits, params, variant, tests[t], None, None).len(),
    ensures
        all_sub_suites(config, limits, params, variant, tests).len() == count_before(
            config,
            limits,
            params,
            variant,
            tests,
            tests.len() as int,
        ),
        ({
            let task = params.multiversion_generate_tasks.unwrap()[t];
            let sub_suite = all_sub_suites(config, limits, params, variant, tests)[count_before(
                config,
                limits,
                params,
                variant,
                tests,
                t,
            ) + i];
            &&& sub_suite.name == task.suite_name
            &&& sub_suite.origin_suite == task.suite_name
            &&& sub_suite.mv_exclude_tags == Some(task.old_version)
            &&& sub_suite.index == Some(i as usize)
            &&& sub_suite.test_list == sub_suites_for(
                config,
                limits,
                params,
                variant,
                tests[t],
                None,
                None,
            )[i].test_list
            &&& sub_suite.is_enterprise == params.is_enterprise
            &&& sub_suite.platform == params.platform
            &&& sub_suite.exclude_test_list is None
        }),
{
    lemma_multiversion_sub_suites(
        config,
        limits,
        params,
        variant,
        params.multiversion_generate_tasks.unwrap(),
        tests,
        t,
        i,
    );
}

/// A task without multiversion sub-tasks is split as its one suite is.
pub proof fn law_plain_tasks_split_their_suite(
    config: GenResmokeConfig,
    limits: SubtaskLimits,
    params: ResmokeGenParamsView,
    variant: BuildVariantView,
    tests: Seq<SuiteTests>,
    i: int,
)
    requires
        !params.require_multiversion_generate_tasks,
        0 <= i < all_sub_suites(config, limits, params, variant, tests).len(),
    ensures
        all_sub_suites(config, limits, params, variant, tests).len() == sub_suites_for(
            config,
            limits,
            params,
            variant,
            tests[0],
            None,
            None,
        ).len(),
        all_sub_suites(config, limits, params, variant, tests)[i].name == params.task_name,
        all_sub_suites(config, limits, params, variant, tests)[i].origin_suite
            == params.suite_name,
        all_sub_suites(config, limits, params, variant, tests)[i].mv_exclude_tags is None,
        all_sub_suites(config, limits, params, variant, tests)[i].index == Some(i as usize),
{
}

/// Tests are needed of each multiversion suite of a task, or of its own suite where it has none.
pub proof fn law_tests_of_each_suite_are_needed(params: ResmokeGenParamsView, i: int)
    ensures
        params.require_multiversion_generate_tasks && params.multiversion_generate_tasks is Some
            ==> suites_needed(params).len() == params.multiversion_generate_tasks.unwrap().len()
            && (0 <= i < suites_needed(params).len() ==> suites_needed(params)[i]
            == params.multiversion_generate_tasks.unwrap()[i].suite_name),
        !params.require_multiversion_generate_tasks ==> suites_needed(params).len() == 1
            && suites_needed(params)[0] == params.suite_name,
{
}

/// The tests of a task are those that were discovered and exist. Where the task is not for the
/// enterprise module, those in its directory are left out.
pub proof fn law_selected_tests_exist(
    params: ResmokeGenParamsView,
    enterprise_dir: Option<Seq<char>>,
    discovered: Seq<Seq<char>>,
    existing: Seq<bool>,
    test: Seq<char>,
)
    requires
        discovered.len() == existing.len(),
    ensures
        selected_tests(params, enterprise_dir, discovered, existing).contains(test) <==> {
            &&& exists|i: int|
                0 <= i < discovered.len() && #[trigger] discovered[i] == test && existing[i]
            &&& !(!params.is_enterprise && enterprise_dir is Some
                && enterprise_dir.unwrap().is_prefix_of(test))
        },
{
    crate::resmoke::resmoke_proxy_laws::law_existing_tests_are_kept(discovered, existing, test);
    if let Some(dir) = enterprise_dir {
        if !params.is_enterprise {
            crate::task_types::generation_laws::law_enterprise_tests_left_out(
                params,
                dir,
                discovered,
                existing,
                test,
            );
        }
    }
}

/// The arguments with which resmoke runs a sub-suite: they name the suite that it comes from, how
/// often to repeat it and which tags to leave out where that is asked for, and all that the task
/// gives.
pub open spec fn are_resmoke_args(
    args: Seq<char>,
    origin_suite: Seq<char>,
    repeat_suites: Option<u64>,
    exclude_tags: Option<Seq<char>>,
    given: Seq<char>,
) -> bool {
    exists|repeat: Seq<char>, tags: Seq<char>|
        {
            &&& args == "--originSuite="@ + origin_suite + " "@ + repeat + " "@ + tags + " "@
                + given
            &&& #[trigger] asks_for_repeats(repeat, repeat_suites)
            &&& #[trigger] leaves_tags_out(tags, exclude_tags)
        }
}

/// An argument asks for repeats of a suite.
pub open spec fn asks_for_repeats(arg: Seq<char>, repeat_suites: Option<u64>) -> bool {
    match repeat_suites {
        Some(times) => exists|digits: Seq<char>| #[trigger]
            crate::utils::number::parsed_u64(digits) == Some(times) && arg == "--repeatSuites="@
                + digits,
        None => arg.len() == 0,
    }
}

/// Arguments leave tests with some tags out.
pub open spec fn leaves_tags_out(arg: Seq<char>, exclude_tags: Option<Seq<char>>) -> bool {
    match exclude_tags {
        Some(tags) => arg
            == "--tagFile=generated_resmoke_config/multiversion_exclude_tags.yml --excludeWithAnyTags="@
            + tags,
        None => arg.len() == 0,
    }
}

/// The variables under which the tests of a sub-suite run.
pub open spec fn are_run_variables(
    vars: VarsView,
    params: ResmokeGenParamsView,
    suite: Seq<char>,
    origin_suite: Seq<char>,
    mv_exclude_tags: Option<Seq<char>>,
    exclude_tags: Seq<char>,
) -> bool {
    &&& holds(
        vars,
        "require_multiversion_setup"@,
        ParamValueView::Bool(params.require_multiversion_setup),
    )
    &&& holds(vars, "suite"@, ParamValueView::String(suite))
    &&& holds(
        vars,
        "gen_task_config_location"@,
        ParamValueView::String(params.config_location),
    )
    &&& exists|args: Seq<char>| #[trigger]
        holds(vars, "resmoke_args"@, ParamValueView::String(args)) && are_resmoke_args(
            args,
            origin_suite,
            params.repeat_suites,
            if params.require_multiversion_setup {
                Some(exclude_tags)
            } else {
                None
            },
            params.resmoke_args,
        )
    &&& mv_exclude_tags matches Some(tags) ==> holds(
        vars,
        "multiversion_exclude_tags_version"@,
        ParamValueView::String(tags),
    )
    &&& params.resmoke_jobs_max matches Some(jobs) ==> holds(
        vars,
        "resmoke_jobs_max"@,
        ParamValueView::Number(jobs),
    )
    &&& forall|name: Seq<char>|
        {
            &&& name != "require_multiversion_setup"@
            &&& name != "suite"@
            &&& name != "gen_task_config_location"@
            &&& name != "resmoke_args"@
            &&& name == "multiversion_exclude_tags_version"@ ==> mv_exclude_tags is None
            &&& name == "resmoke_jobs_max"@ ==> params.resmoke_jobs_max is None
        } ==> (#[trigger] vars.contains_key(name) <==> params.pass_through_vars is Some
            && params.pass_through_vars.unwrap().contains_key(name)) && (vars.contains_key(name)
            ==> vars[name] == params.pass_through_vars.unwrap()[name])
}

/// A task sets up what is needed and runs the tests of a sub-suite.
pub open spec fn runs_tests(
    task: EvgTaskView,
    params: ResmokeGenParamsView,
    suite: Seq<char>,
    origin_suite: Seq<char>,
    mv_exclude_tags: Option<Seq<char>>,
    exclude_tags: Seq<char>,
) -> bool {
    &&& task.commands matches Some(commands) && {
        let n = commands.len() as int;
        &&& is_set_up(commands, params.require_multiversion_setup, n - 1)
        &&& exists|vars: VarsView| #[trigger]
            runs_with(commands[n - 1], "run generated tests"@, vars) && are_run_variables(
                vars,
                params,
                suite,
                origin_suite,
                mv_exclude_tags,
                exclude_tags,
            )
    }
    &&& depends_on_all(task, params.dependencies)
    &&& has_no_more(task)
}

proof fn lemma_resmoke_args(
    params: ResmokeGenParamsView,
    exclude_tags: Seq<char>,
    origin_suite: Seq<char>,
)
    ensures
        are_resmoke_args(
            resmoke_args_of(params, exclude_tags, origin_suite),
            origin_suite,
            params.repeat_suites,
            if params.require_multiversion_setup {
                Some(exclude_tags)
            } else {
                None
            },
            params.resmoke_args,
        ),
{
    let repeat = match params.repeat_suites {
        Some(repeat) => "--repeatSuites="@ + decimal(repeat as nat),
        None => Seq::empty(),
    };
    if let Some(times) = params.repeat_suites {
        crate::utils::number_laws::law_written_numbers_are_read_back(times, 0);
        assert(crate::utils::number::parsed_u64(decimal(times as nat)) == Some(times));
    }
    let tags = if params.require_multiversion_setup {
        "--tagFile=generated_resmoke_config/"@ + "multiversion_exclude_tags.yml"@
            + " --excludeWithAnyTags="@ + exclude_tags
    } else {
        Seq::empty()
    };
    reveal_strlit("--tagFile=generated_resmoke_config/");
    reveal_strlit("multiversion_exclude_tags.yml");
    reveal_strlit(" --excludeWithAnyTags=");
    reveal_strlit(
        "--tagFile=generated_resmoke_config/multiversion_exclude_tags.yml --excludeWithAnyTags=",
    );
    assert("--tagFile=generated_resmoke_config/"@ + "multiversion_exclude_tags.yml"@
        + " --excludeWithAnyTags="@
        =~= "--tagFile=generated_resmoke_config/multiversion_exclude_tags.yml --excludeWithAnyTags="@);
    assert(asks_for_repeats(repeat, params.repeat_suites));
    assert(leaves_tags_out(
        tags,
        if params.require_multiversion_setup {
            Some(exclude_tags)
        } else {
            None
        },
    ));
    assert(resmoke_args_of(params, exclude_tags, origin_suite) =~= "--originSuite="@ + origin_suite
        + " "@ + repeat + " "@ + tags + " "@ + params.resmoke_args);
}

#[verifier::rlimit(40)]
pub(crate) proof fn lemma_run_variables(
    params: ResmokeGenParamsView,
    suite_file: Seq<char>,
    sub_suite: SubSuiteView,
    exclude_tags: Seq<char>,
    suite_override: Option<Seq<char>>,
)
    ensures
        are_run_variables(
            run_test_vars_of(params, suite_file, sub_suite, exclude_tags, suite_override),
            params,
            match suite_override {
                Some(suite) => suite,
                None => "generated_resmoke_config/"@ + suite_file + ".yml"@,
            },
            sub_suite.origin_suite,
            sub_suite.mv_exclude_tags,
            exclude_tags,
        ),
{
    reveal_strlit("require_multiversion_setup");
    assert("require_multiversion_setup"@.len() == 26);
    reveal_strlit("suite");
    assert("suite"@.len() == 5);
    reveal_strlit("gen_task_config_location");
    assert("gen_task_config_location"@.len() == 24);
    reveal_strlit("resmoke_args");
    assert("resmoke_args"@.len() == 12);
    reveal_strlit("multiversion_exclude_tags_version");
    assert("multiversion_exclude_tags_version"@.len() == 33);
    reveal_strlit("resmoke_jobs_max");
    assert("resmoke_jobs_max"@.len() == 16);
    lemma_resmoke_args(params, exclude_tags, sub_suite.origin_suite);
    let args = resmoke_args_of(params, exclude_tags, sub_suite.origin_suite);
    let vars = run_test_vars_of(params, suite_file, sub_suite, exclude_tags, suite_override);
    assert(holds(vars, "resmoke_args"@, ParamValueView::String(args)));
}

pub(crate) proof fn lemma_runs_tests(
    params: ResmokeGenParamsView,
    sub_suite: SubSuiteView,
    total: nat,
    exclude_tags: Seq<char>,
    suite_override: Option<Seq<char>>,
)
    ensures
        runs_tests(
            resmoke_sub_task_of(params, sub_suite, total, exclude_tags, suite_override).evg_task,
            params,
            match suite_override {
                Some(suite) => suite,
                None => "generated_resmoke_config/"@ + generated_task_name(
                    sub_suite.name,
                    sub_suite.index,
                    total,
                    params.is_enterprise,
                ) + ".yml"@,
            },
            sub_suite.origin_suite,
            sub_suite.mv_exclude_tags,
            exclude_tags,
        ),
{
    let sub_task = resmoke_sub_task_of(params, sub_suite, total, exclude_tags, suite_override);
    let suite_file = generated_task_name(
        sub_suite.name,
        sub_suite.index,
        total,
        params.is_enterprise,
    );
    let vars = run_test_vars_of(params, suite_file, sub_suite, exclude_tags, suite_override);
    lemma_run_variables(params, suite_file, sub_suite, exclude_tags, suite_override);
    let commands = sub_task.evg_task.commands.unwrap();
    let n = commands.len() as int;
    assert(runs_with(commands[n - 1], "run generated tests"@, vars));
    lemma_depends_on_all(sub_task.evg_task, params.dependencies);
}

/// The sub-task of a sub-suite sets up what is needed and runs the configuration that is written
/// for it, with the arguments, the number of jobs and the other variables that the task gives. It
/// is named after the sub-suite and its index, depends on what the task depends on, and runs on the
/// distro that the task asks for.
pub proof fn law_sub_tasks_run_their_sub_suite(
    params: ResmokeGenParamsView,
    sub_suite: SubSuiteView,
    index: usize,
    total: nat,
    exclude_tags: Seq<char>,
)
    requires
        sub_suite.index == Some(index),
    ensures
        ({
            let sub_task = resmoke_sub_task_of(params, sub_suite, total, exclude_tags, None);
            let suffix = match params.gen_task_suffix {
                Some(suffix) => suffix,
                None => ""@,
            };
            &&& exists|name: Seq<char>| #[trigger]
                is_numbered_name(name, sub_suite.name, index, total, params.is_enterprise)
                    && sub_task.evg_task.name == name + suffix && runs_tests(
                    sub_task.evg_task,
                    params,
                    "generated_resmoke_config/"@ + name + ".yml"@,
                    sub_suite.origin_suite,
                    sub_suite.mv_exclude_tags,
                    exclude_tags,
                )
            &&& sub_task.use_large_distro == params.use_large_distro
            &&& sub_task.use_xlarge_distro == params.use_xlarge_distro
        }),
{
    let name = generated_task_name(sub_suite.name, sub_suite.index, total, params.is_enterprise);
    law_sub_task_names_hold_their_index(sub_suite.name, index, total, params.is_enterprise);
    lemma_runs_tests(params, sub_suite, total, exclude_tags, None);
    reveal_strlit("");
    assert(""@ =~= Seq::<char>::empty());
    assert(is_numbered_name(name, sub_suite.name, index, total, params.is_enterprise));
}

/// Each sub-suite of a task has one sub-task, which runs it without the tests that the version of
/// the sub-suite rules out. What is kept of the generation names the task, its suite and all
/// sub-suites.
pub proof fn law_each_sub_suite_has_its_sub_task<M: MultiversionService>(
    service: M,
    params: ResmokeGenParamsView,
    sub_suites: Seq<SubSuiteView>,
    i: int,
    index: usize,
)
    requires
        0 <= i < sub_suites.len(),
        sub_suites[i].index == Some(index),
    ensures
        sub_tasks_of(service, params, sub_suites).len() == sub_suites.len(),
        exists|name: Seq<char>| #[trigger]
            is_numbered_name(
                name,
                sub_suites[i].name,
                index,
                sub_suites.len(),
                params.is_enterprise,
            )
                && sub_tasks_of(service, params, sub_suites)[i].evg_task.name == name + (
            match params.gen_task_suffix {
                Some(suffix) => suffix,
                None => ""@,
            }) && runs_tests(
                sub_tasks_of(service, params, sub_suites)[i].evg_task,
                params,
                "generated_resmoke_config/"@ + name + ".yml"@,
                sub_suites[i].origin_suite,
                sub_suites[i].mv_exclude_tags,
                service.exclude_tags(params.task_name, sub_suites[i].mv_exclude_tags),
            ),
        sub_tasks_of(service, params, sub_suites)[i].use_large_distro == params.use_large_distro,
        sub_tasks_of(service, params, sub_suites)[i].use_xlarge_distro == params.use_xlarge_distro,
        generation_info_of(params, sub_suites).task_name == params.task_name,
        generation_info_of(params, sub_suites).origin_suite == params.suite_name,
        generation_info_of(params, sub_suites).sub_suites == sub_suites,
        generation_info_of(params, sub_suites).require_multiversion_generate_tasks
            == params.require_multiversion_generate_tasks,
{
    law_sub_tasks_run_their_sub_suite(
        params,
        sub_suites[i],
        index,
        sub_suites.len(),
        service.exclude_tags(params.task_name, sub_suites[i].mv_exclude_tags),
    );
}

/// Tests are selected in the order in which they were discovered, as often as they were.
pub proof fn law_selected_tests_keep_their_order(
    params: ResmokeGenParamsView,
    enterprise_dir: Option<Seq<char>>,
    discovered: Seq<Seq<char>>,
    existing: Seq<bool>,
    more: Seq<char>,
    exists_too: bool,
)
    requires
        discovered.len() == existing.len(),
    ensures
        selected_tests(params, enterprise_dir, Seq::empty(), Seq::empty()).len() == 0,
        ({
            let before = selected_tests(params, enterprise_dir, discovered, existing);
            let after = selected_tests(
                params,
                enterprise_dir,
                discovered.push(more),
                existing.push(exists_too),
            );
            let left_out = !params.is_enterprise && enterprise_dir is Some
                && enterprise_dir.unwrap().is_prefix_of(more);
            &&& exists_too && !left_out ==> after == before.push(more)
            &&& !exists_too || left_out ==> after == before
        }),
{
    let found = kept(discovered, existing);
    assert(discovered.push(more).drop_last() =~= discovered);
    assert(existing.push(exists_too).drop_last() =~= existing);
    assert(kept(discovered.push(more), existing.push(exists_too)) == (if exists_too {
        found.push(more)
    } else {
        found
    }));
    assert(found.push(more).drop_last() =~= found);
}

} // verus!
