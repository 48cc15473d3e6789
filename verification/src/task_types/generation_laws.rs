//! What holds of the generated tasks.

use vstd::prelude::*;

use crate::evergreen::evg_config_utils::MultiversionGenerateTaskConfigView;
use crate::evergreen::model::{BuildVariantView, ParamValueView, TaskDependencyView, TaskRefView};
use crate::evergreen_names::SUITE_NAME;
use crate::task_types::fuzzer_tasks::{
    fuzzer_tasks, multiversion_fuzzer_tasks, FuzzerGenTaskParamsView,
};
use crate::task_types::generated_suite::{display_task_of, task_refs_of, SuiteView};
use crate::task_types::resmoke_config_writer::suite_file_name;
use crate::task_types::resmoke_tasks::{
    all_sub_suites, can_create, fallback_count, multiversion_sub_suites, outside_dir,
    resmoke_sub_task_of, run_test_vars_of, selected_tests, sub_suites_for, subtask_count,
    suites_needed, total_runtime, GenResmokeConfig, ResmokeGenParamsView, SubSuiteView,
    SubtaskLimits, SuiteTests,
};
use crate::task_types::test_splitting::{split_by_runtime, split_evenly};
use crate::task_types::test_splitting_laws::{
    concatenated, gathered, law_even_split_keeps_order, law_split_keeps_tests,
};
use crate::utils::lists::kept;
use crate::utils::task_name::generated_task_name;
use crate::utils::task_name_laws::law_sub_task_names_differ;

verus! {

/// The display task groups all the sub-tasks that are referred to.
pub proof fn law_display_task_groups_all_sub_tasks(
    suite: SuiteView,
    distro: Option<Seq<char>>,
    depends_on: Option<Seq<TaskDependencyView>>,
)
    ensures
        display_task_of(suite).execution_tasks == task_refs_of(suite, distro, depends_on).map_values(
            |task_ref: TaskRefView| task_ref.name,
        ),
{
    assert(display_task_of(suite).execution_tasks =~= task_refs_of(
        suite,
        distro,
        depends_on,
    ).map_values(|task_ref: TaskRefView| task_ref.name));
}

/// A fuzzer without multiversion suites has as many sub-tasks as it asks for.
pub proof fn law_fuzzer_sub_tasks_counted(params: FuzzerGenTaskParamsView)
    requires
        !params.require_multiversion_setup,
        params.num_tasks <= usize::MAX,
    ensures
        fuzzer_tasks(params).len() == params.num_tasks,
{
}

/// A fuzzer with multiversion suites has as many sub-tasks as it asks for, for each of them.
pub proof fn law_multiversion_fuzzer_sub_tasks_counted(params: FuzzerGenTaskParamsView)
    requires
        params.require_multiversion_setup,
        params.multiversion_generate_tasks is Some,
        params.num_tasks <= usize::MAX,
    ensures
        fuzzer_tasks(params).len() == params.multiversion_generate_tasks.unwrap().len()
            * params.num_tasks,
{
    lemma_multiversion_fuzzer_count(params, params.multiversion_generate_tasks.unwrap().len() as int);
    let all = params.multiversion_generate_tasks.unwrap();
    assert(all.take(all.len() as int) =~= all);
}

proof fn lemma_multiversion_fuzzer_count(params: FuzzerGenTaskParamsView, n: int)
    requires
        params.multiversion_generate_tasks is Some,
        0 <= n <= params.multiversion_generate_tasks.unwrap().len(),
        params.num_tasks <= usize::MAX,
    ensures
        multiversion_fuzzer_tasks(
            params,
            params.multiversion_generate_tasks.unwrap().take(n),
        ).len() == n * params.num_tasks,
    decreases n,
{
    let all = params.multiversion_generate_tasks.unwrap();
    if n > 0 {
        lemma_multiversion_fuzzer_count(params, n - 1);
        assert(all.take(n).drop_last() =~= all.take(n - 1));
        assert((n - 1) * params.num_tasks + params.num_tasks == n * params.num_tasks)
            by (nonlinear_arith);
    }
}

/// The sub-tasks of a fuzzer without multiversion suites have different names.
pub proof fn law_fuzzer_sub_tasks_named_apart(params: FuzzerGenTaskParamsView, i: int, j: int)
    requires
        !params.require_multiversion_setup,
        params.num_tasks <= usize::MAX,
        0 <= i < j < params.num_tasks,
    ensures
        fuzzer_tasks(params)[i].name != fuzzer_tasks(params)[j].name,
{
    law_sub_task_names_differ(
        params.task_name,
        i as usize,
        j as usize,
        params.num_tasks as nat,
        params.is_enterprise,
    );
}

/// Two sub-tasks of a resmoke task with different indexes have different names.
pub proof fn law_resmoke_sub_tasks_named_apart(
    params: ResmokeGenParamsView,
    first: SubSuiteView,
    second: SubSuiteView,
    total: nat,
    first_tags: Seq<char>,
    second_tags: Seq<char>,
    first_override: Option<Seq<char>>,
    second_override: Option<Seq<char>>,
)
    requires
        first.name == second.name,
        first.index is Some,
        second.index is Some,
        first.index != second.index,
    ensures
        resmoke_sub_task_of(params, first, total, first_tags, first_override).evg_task.name
            != resmoke_sub_task_of(params, second, total, second_tags, second_override).evg_task.name,
{
    let left = generated_task_name(first.name, first.index, total, params.is_enterprise);
    let right = generated_task_name(second.name, second.index, total, params.is_enterprise);
    let suffix = match params.gen_task_suffix {
        Some(suffix) => suffix,
        None => Seq::empty(),
    };
    law_sub_task_names_differ(
        first.name,
        first.index.unwrap(),
        second.index.unwrap(),
        total,
        params.is_enterprise,
    );
    if left + suffix == right + suffix {
        assert((left + suffix).len() == left.len() + suffix.len());
        assert((right + suffix).len() == right.len() + suffix.len());
        assert((left + suffix).take(left.len() as int) =~= left);
        assert((right + suffix).take(right.len() as int) =~= right);
    }
}

/// The tests of sub-suites.
pub open spec fn test_lists(sub_suites: Seq<SubSuiteView>) -> Seq<Seq<Seq<char>>> {
    Seq::new(sub_suites.len(), |i: int| sub_suites[i].test_list)
}

/// The sub-suites one after the other hold the tests of all of them.
proof fn lemma_concatenated_gathers(suites: Seq<Seq<Seq<char>>>)
    ensures
        concatenated(suites).to_multiset() == gathered(suites),
    decreases suites.len(),
{
    if suites.len() > 0 {
        lemma_concatenated_gathers(suites.drop_last());
        vstd::seq_lib::lemma_multiset_commutative(concatenated(suites.drop_last()), suites.last());
    } else {
        broadcast use vstd::seq_lib::group_to_multiset_ensures;

        assert(concatenated(suites).to_multiset() =~= gathered(suites));
    }
}

/// The sub-suites of a suite together run each of its tests, as often as the suite names it.
pub proof fn law_sub_suites_run_all_tests(
    config: GenResmokeConfig,
    limits: SubtaskLimits,
    params: ResmokeGenParamsView,
    variant: BuildVariantView,
    tests: SuiteTests,
    multiversion_name: Option<Seq<char>>,
    multiversion_tags: Option<Seq<char>>,
)
    requires
        can_create(config, limits, params, variant, tests),
    ensures
        gathered(
            test_lists(
                sub_suites_for(
                    config,
                    limits,
                    params,
                    variant,
                    tests,
                    multiversion_name,
                    multiversion_tags,
                ),
            ),
        ) == tests.test_list.deep_view().to_multiset(),
{
    let list = tests.test_list.deep_view();
    let sub_suites = sub_suites_for(
        config,
        limits,
        params,
        variant,
        tests,
        multiversion_name,
        multiversion_tags,
    );
    match tests.history {
        Some(history) if !config.use_task_split_fallback => {
            let count = subtask_count(
                limits,
                params.num_tasks,
                variant.display_name,
                total_runtime(history.test_map.entries(), list),
                list.len(),
            );
            let timings = history.test_map.deep_view();
            law_split_keeps_tests(timings, list, count as nat);
            assert(test_lists(sub_suites) =~= split_by_runtime(
                timings,
                list,
                count as nat,
            ));
        },
        _ => {
            if list.len() == 0 {
                broadcast use vstd::seq_lib::group_to_multiset_ensures;

                assert(test_lists(sub_suites) =~= Seq::<Seq<Seq<char>>>::empty());
                assert(list.to_multiset() =~= gathered(test_lists(sub_suites)));
            } else {
                let count = fallback_count(
                    limits,
                    params.num_tasks,
                    list.len(),
                );
                law_even_split_keeps_order(list, count as nat);
                lemma_concatenated_gathers(split_evenly(list, count as nat));
                assert(test_lists(sub_suites) =~= split_evenly(list, count as nat));
            }
        },
    }
}

/// A suite is split into no more sub-suites than are allowed, and into no more than it has tests.
pub proof fn law_sub_suites_are_limited(
    config: GenResmokeConfig,
    limits: SubtaskLimits,
    params: ResmokeGenParamsView,
    variant: BuildVariantView,
    tests: SuiteTests,
    multiversion_name: Option<Seq<char>>,
    multiversion_tags: Option<Seq<char>>,
)
    requires
        can_create(config, limits, params, variant, tests),
    ensures
        sub_suites_for(
            config,
            limits,
            params,
            variant,
            tests,
            multiversion_name,
            multiversion_tags,
        ).len() <= limits.max_subtasks_per_task,
        sub_suites_for(
            config,
            limits,
            params,
            variant,
            tests,
            multiversion_name,
            multiversion_tags,
        ).len() <= tests.test_list@.len(),
{
    let list = tests.test_list.deep_view();
    match tests.history {
        Some(history) if !config.use_task_split_fallback => {
            let count = subtask_count(
                limits,
                params.num_tasks,
                variant.display_name,
                total_runtime(history.test_map.entries(), list),
                list.len(),
            );
            law_split_keeps_tests(history.test_map.deep_view(), list, count as nat);
        },
        _ => {},
    }
}

/// The sub-suites of a suite are numbered from zero.
pub proof fn law_sub_suites_are_numbered(
    config: GenResmokeConfig,
    limits: SubtaskLimits,
    params: ResmokeGenParamsView,
    variant: BuildVariantView,
    tests: SuiteTests,
    multiversion_name: Option<Seq<char>>,
    multiversion_tags: Option<Seq<char>>,
    i: int,
)
    requires
        0 <= i < sub_suites_for(
            config,
            limits,
            params,
            variant,
            tests,
            multiversion_name,
            multiversion_tags,
        ).len(),
    ensures
        sub_suites_for(
            config,
            limits,
            params,
            variant,
            tests,
            multiversion_name,
            multiversion_tags,
        )[i].index == Some(i as usize),
{
}

/// Tests of the enterprise module are left out of tasks that are not for it, and no other tests that
/// exist are.
pub proof fn law_enterprise_tests_left_out(
    params: ResmokeGenParamsView,
    dir: Seq<char>,
    discovered: Seq<Seq<char>>,
    existing: Seq<bool>,
    test: Seq<char>,
)
    requires
        !params.is_enterprise,
    ensures
        selected_tests(params, Some(dir), discovered, existing).contains(test) <==> (
        kept(discovered, existing).contains(test) && !dir.is_prefix_of(test)),
{
    lemma_outside_dir(kept(discovered, existing), dir, test);
}

proof fn lemma_outside_dir(tests: Seq<Seq<char>>, dir: Seq<char>, test: Seq<char>)
    ensures
        outside_dir(tests, dir).contains(test) <==> tests.contains(test) && !dir.is_prefix_of(test),
    decreases tests.len(),
{
    if tests.len() > 0 {
        let rest = tests.drop_last();
        let found = outside_dir(rest, dir);
        let n = tests.len() - 1;
        lemma_outside_dir(rest, dir, test);
        if tests.contains(test) && !rest.contains(test) {
            let i = tests.index_of(test);
            if i < n {
                assert(rest[i] == test);
            }
            assert(tests.last() == test);
            if !dir.is_prefix_of(test) {
                assert(outside_dir(tests, dir)[found.len() as int] == test);
            }
        }
        if rest.contains(test) {
            assert(tests[rest.index_of(test)] == test);
        }
        if found.contains(test) {
            assert(outside_dir(tests, dir)[found.index_of(test)] == test);
        }
        if outside_dir(tests, dir).contains(test) {
            let k = outside_dir(tests, dir).index_of(test);
            if k < found.len() {
                assert(found[k] == test);
            } else {
                assert(tests[n] == test);
            }
        }
    }
}

/// A sub-task runs the configuration file that is written for its sub-suite.
pub proof fn law_sub_task_runs_written_file(
    params: ResmokeGenParamsView,
    sub_suite: SubSuiteView,
    total: nat,
    exclude_tags: Seq<char>,
)
    requires
        sub_suite.is_enterprise == params.is_enterprise,
    ensures
        run_test_vars_of(
            params,
            generated_task_name(sub_suite.name, sub_suite.index, total, params.is_enterprise),
            sub_suite,
            exclude_tags,
            None,
        )[SUITE_NAME@] == ParamValueView::String(
            "generated_resmoke_config/"@ + suite_file_name(sub_suite, total),
        ),
{
    reveal_strlit("suite");
    reveal_strlit("gen_task_config_location");
    reveal_strlit("multiversion_exclude_tags_version");
    reveal_strlit("resmoke_jobs_max");
    let file = generated_task_name(sub_suite.name, sub_suite.index, total, params.is_enterprise);
    assert("generated_resmoke_config/"@ + file + ".yml"@ =~= "generated_resmoke_config/"@
        + suite_file_name(sub_suite, total));
    assert(SUITE_NAME@.len() == 5);
}

/// The parameters of a task with another suite variable.
pub open spec fn with_suite_variable(
    params: ResmokeGenParamsView,
    suite_name: Seq<char>,
    variable: ParamValueView,
) -> ResmokeGenParamsView {
    ResmokeGenParamsView {
        suite_name,
        pass_through_vars: match params.pass_through_vars {
            Some(vars) => Some(vars.insert(SUITE_NAME@, variable)),
            None => None,
        },
        ..params
    }
}

proof fn lemma_multiversion_sub_suites_without_suite(
    config: GenResmokeConfig,
    limits: SubtaskLimits,
    params: ResmokeGenParamsView,
    other: ResmokeGenParamsView,
    variant: BuildVariantView,
    tasks: Seq<MultiversionGenerateTaskConfigView>,
    tests: Seq<SuiteTests>,
)
    requires
        other == (ResmokeGenParamsView {
            suite_name: other.suite_name,
            pass_through_vars: other.pass_through_vars,
            ..params
        }),
    ensures
        multiversion_sub_suites(config, limits, params, variant, tasks, tests)
            == multiversion_sub_suites(config, limits, other, variant, tasks, tests),
    decreases tasks.len(),
{
    if tasks.len() > 0 {
        lemma_multiversion_sub_suites_without_suite(
            config,
            limits,
            params,
            other,
            variant,
            tasks.drop_last(),
            tests.drop_last(),
        );
        let name = Some(tasks.last().suite_name);
        let tags = Some(tasks.last().old_version);
        assert(sub_suites_for(config, limits, params, variant, tests.last(), name, tags)
            =~= sub_suites_for(config, limits, other, variant, tests.last(), name, tags));
    }
}

/// The suite variable of a task with multiversion sub-tasks has no effect on the suites that are
/// discovered, on the sub-suites and on the sub-tasks that run them.
pub proof fn law_suite_variable_has_no_effect_on_multiversion(
    config: GenResmokeConfig,
    limits: SubtaskLimits,
    params: ResmokeGenParamsView,
    variant: BuildVariantView,
    tests: Seq<SuiteTests>,
    suite_name: Seq<char>,
    variable: ParamValueView,
    sub_suite: SubSuiteView,
    total_sub_suites: nat,
    exclude_tags: Seq<char>,
)
    requires
        params.require_multiversion_generate_tasks,
    ensures
        suites_needed(with_suite_variable(params, suite_name, variable)) == suites_needed(params),
        all_sub_suites(
            config,
            limits,
            with_suite_variable(params, suite_name, variable),
            variant,
            tests,
        ) == all_sub_suites(config, limits, params, variant, tests),
        resmoke_sub_task_of(
            with_suite_variable(params, suite_name, variable),
            sub_suite,
            total_sub_suites,
            exclude_tags,
            None,
        ) == resmoke_sub_task_of(params, sub_suite, total_sub_suites, exclude_tags, None),
{
    let other = with_suite_variable(params, suite_name, variable);
    lemma_multiversion_sub_suites_without_suite(
        config,
        limits,
        params,
        other,
        variant,
        params.multiversion_generate_tasks.unwrap(),
        tests,
    );
    let suite_file = generated_task_name(
        sub_suite.name,
        sub_suite.index,
        total_sub_suites,
        params.is_enterprise,
    );
    assert(run_test_vars_of(other, suite_file, sub_suite, exclude_tags, None) =~= run_test_vars_of(
        params,
        suite_file,
        sub_suite,
        exclude_tags,
        None,
    ));
}

} // verus!
