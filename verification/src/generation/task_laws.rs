//! What holds of the parameters of planned tasks, of their suites and of the limits on them.

use vstd::prelude::*;

use crate::errors::ConfigErrorView;
use crate::evergreen::evg_config::{build_variants_by_name, tasks_by_name};
use crate::evergreen::evg_config_utils::{variant_platform, MultiversionGenerateTaskConfigView};
use crate::evergreen::lookup_laws::{
    hands_text, law_enterprise_is_switched_off_by_expansions, law_generating_call_gives_variables,
};
use crate::evergreen::model::{BuildVariantView, EvgTask, EvgTaskView};
use crate::generation::limits::{
    capped_fuzzer, capped_limits, capped_resmoke, capped_suite, is_target, remaining_after,
    share_of, total_used,
};
use crate::generation::plan::{
    all_tasks_on, contexts_of, is_generated, GenerateTasksServiceImpl, GenerationStepView,
};
use crate::generation::plan_laws::{
    is_kept_as, is_of_some_task, law_each_burn_in_task_has_its_steps,
    law_steps_generate_tasks_of_variants,
};
use crate::generation::tasks::{
    can_plan, first_occurrences, is_fuzzer, known_suites, suites_of_all, within, TaskParamsView,
};
use crate::services::config_extraction::{fuzzer_params_of, num_files_of, resmoke_params_of};
use crate::services::parameter_laws::has_enterprise;
use crate::task_types::fuzzer_tasks::FuzzerGenTaskParamsView;
use crate::task_types::resmoke_tasks::{
    suites_needed, GeneratedResmokeSuiteView, ResmokeGenParamsView, SubtaskLimits,
};

verus! {

/// A task is a fuzzer where its generating call says so.
pub proof fn law_fuzzers_say_so(task: EvgTaskView)
    ensures
        is_fuzzer(task) <==> hands_text(
            task,
            "generate resmoke tasks"@,
            "is_jstestfuzz"@,
            "true"@,
        ),
{
    law_generating_call_gives_variables(task, "is_jstestfuzz"@, "true"@);
}

/// The first occurrences in a list hold all that the list holds, once each, in the order in which
/// they occur.
pub proof fn law_first_occurrences_are_kept_in_order(list: Seq<Seq<char>>, item: Seq<char>)
    ensures
        first_occurrences(list).contains(item) <==> list.contains(item),
        first_occurrences(list).no_duplicates(),
        list.contains(item) ==> first_occurrences(list.push(item)) == first_occurrences(list),
        !list.contains(item) ==> first_occurrences(list.push(item)) == first_occurrences(list).push(
            item,
        ),
    decreases list.len(),
{
    assert(list.push(item).drop_last() =~= list);
    if list.len() > 0 {
        let rest = list.drop_last();
        let before = first_occurrences(rest);
        let all = first_occurrences(list);
        law_first_occurrences_are_kept_in_order(rest, item);
        law_first_occurrences_are_kept_in_order(rest, list.last());
        if rest.contains(item) {
            assert(list[rest.index_of(item)] == item);
        }
        if list.contains(item) {
            let k = list.index_of(item);
            if k < rest.len() {
                assert(rest[k] == item);
            }
        }
        if before.contains(item) {
            assert(all[before.index_of(item)] == item);
        }
        if all.contains(item) {
            let k = all.index_of(item);
            if k < before.len() {
                assert(before[k] == item);
            } else {
                assert(list[list.len() - 1] == item);
            }
        }
        if item == list.last() && !before.contains(item) {
            assert(all[before.len() as int] == item);
        }
    }
}

/// The suites of several tasks are those that each of them needs tests of, one task after the
/// other. A task that should have multiversion suites and lists none needs none.
pub proof fn law_suites_of_all_tasks_are_known(
    tasks: Seq<ResmokeGenParamsView>,
    more: ResmokeGenParamsView,
)
    ensures
        suites_of_all(Seq::empty()).len() == 0,
        suites_of_all(tasks.push(more)) == suites_of_all(tasks) + known_suites(more),
        more.require_multiversion_generate_tasks && more.multiversion_generate_tasks is None
            ==> known_suites(more).len() == 0,
        !(more.require_multiversion_generate_tasks && more.multiversion_generate_tasks is None)
            ==> known_suites(more) == suites_needed(more),
{
    assert(tasks.push(more).drop_last() =~= tasks);
}

/// Where fewer tasks remain than a fuzzer asks for, it gets as many as remain, shared evenly among
/// as many of its multiversion suites as can have one. Nothing else is changed, and nothing at all
/// where there is room.
pub proof fn law_fuzzers_get_what_remains(params: FuzzerGenTaskParamsView, remaining: usize)
    ensures
        ({
            let capped = capped_fuzzer(params, remaining as nat);
            &&& capped == (FuzzerGenTaskParamsView {
                num_tasks: capped.num_tasks,
                multiversion_generate_tasks: capped.multiversion_generate_tasks,
                ..params
            })
            &&& !params.require_multiversion_setup ==> {
                &&& capped.multiversion_generate_tasks == params.multiversion_generate_tasks
                &&& params.num_tasks <= remaining ==> capped.num_tasks == params.num_tasks
                &&& params.num_tasks > remaining ==> capped.num_tasks == remaining
            }
            &&& params.require_multiversion_setup ==> (
            params.multiversion_generate_tasks matches Some(suites) ==> {
                let kept = if suites.len() <= remaining {
                    suites.len() as int
                } else {
                    remaining as int
                };
                &&& capped.multiversion_generate_tasks == Some(suites.take(kept))
                &&& kept > 0 && params.num_tasks <= remaining as int / kept ==> capped.num_tasks
                    == params.num_tasks
                &&& kept > 0 && params.num_tasks > remaining as int / kept ==> capped.num_tasks
                    == remaining as int / kept
            })
        }),
{
    if params.require_multiversion_setup {
        if let Some(suites) = params.multiversion_generate_tasks {
            let kept = if suites.len() <= remaining {
                suites.len() as int
            } else {
                remaining as int
            };
            if kept > 0 {
                lemma_quotient(remaining as int, kept);
            }
        }
    }
}

proof fn lemma_quotient(a: int, b: int)
    requires
        0 <= a,
        0 < b,
    ensures
        0 <= a / b <= a,
{
    assert(0 <= a / b <= a) by (nonlinear_arith)
        requires
            0 <= a,
            0 < b,
    ;
}

/// Where fewer tasks remain than a resmoke task asks for, it asks for as many as remain, shared
/// evenly among as many of its multiversion suites as can have one. Nothing else is changed.
pub proof fn law_resmoke_tasks_get_what_remains(params: ResmokeGenParamsView, remaining: usize)
    ensures
        ({
            let capped = capped_resmoke(params, remaining as nat);
            &&& capped == (ResmokeGenParamsView {
                num_tasks: capped.num_tasks,
                multiversion_generate_tasks: capped.multiversion_generate_tasks,
                ..params
            })
            &&& params.num_tasks is None <==> capped.num_tasks is None
            &&& !params.require_multiversion_generate_tasks ==> {
                &&& capped.multiversion_generate_tasks == params.multiversion_generate_tasks
                &&& params.num_tasks matches Some(wanted) ==> {
                    &&& wanted <= remaining ==> capped.num_tasks == Some(wanted)
                    &&& wanted > remaining ==> capped.num_tasks == Some(remaining)
                }
            }
            &&& params.require_multiversion_generate_tasks ==> (
            params.multiversion_generate_tasks matches Some(suites) ==> {
                let kept = if suites.len() <= remaining {
                    suites.len() as int
                } else {
                    remaining as int
                };
                &&& capped.multiversion_generate_tasks == Some(suites.take(kept))
                &&& params.num_tasks matches Some(wanted) ==> kept > 0 ==> {
                    &&& wanted <= remaining as int / kept ==> capped.num_tasks == Some(wanted)
                    &&& wanted > remaining as int / kept ==> capped.num_tasks == Some(
                        (remaining as int / kept) as usize,
                    )
                }
            })
        }),
{
    if params.require_multiversion_generate_tasks {
        if let Some(suites) = params.multiversion_generate_tasks {
            let kept = if suites.len() <= remaining {
                suites.len() as int
            } else {
                remaining as int
            };
            if kept > 0 {
                lemma_quotient(remaining as int, kept);
            }
        }
    }
}

/// A suite of burn_in keeps its first sub-tasks, as many as remain, and all of them where there is
/// room.
pub proof fn law_burn_in_suites_get_what_remains(suite: GeneratedResmokeSuiteView, remaining: usize)
    ensures
        capped_suite(suite, remaining as nat).task_name == suite.task_name,
        suite.sub_suites.len() <= remaining ==> capped_suite(suite, remaining as nat).sub_suites
            == suite.sub_suites,
        suite.sub_suites.len() > remaining ==> capped_suite(suite, remaining as nat).sub_suites
            == suite.sub_suites.take(remaining as int),
{
    assert(suite.sub_suites.take(suite.sub_suites.len() as int) =~= suite.sub_suites);
}

/// The numbers of sub-tasks by default and at most are no larger than the share. What decides
/// between them stays.
pub proof fn law_limits_keep_to_the_share(limits: SubtaskLimits, share: usize)
    ensures
        ({
            let capped = capped_limits(limits, share as nat);
            &&& capped.test_runtime_per_required_subtask == limits.test_runtime_per_required_subtask
            &&& capped.large_required_task_runtime_threshold
                == limits.large_required_task_runtime_threshold
            &&& limits.default_subtasks_per_task <= share ==> capped.default_subtasks_per_task
                == limits.default_subtasks_per_task
            &&& limits.default_subtasks_per_task > share ==> capped.default_subtasks_per_task
                == share
            &&& limits.max_subtasks_per_task <= share ==> capped.max_subtasks_per_task
                == limits.max_subtasks_per_task
            &&& limits.max_subtasks_per_task > share ==> capped.max_subtasks_per_task == share
        }),
{
}

/// What remains is what was there less what was used, or nothing where more was used.
pub proof fn law_used_tasks_no_longer_remain(max_tasks: nat, used: Seq<nat>, more: nat)
    ensures
        total_used(Seq::empty()) == 0,
        total_used(used.push(more)) == total_used(used) + more,
        total_used(used) <= max_tasks ==> remaining_after(max_tasks, used) == max_tasks
            - total_used(used),
        total_used(used) > max_tasks ==> remaining_after(max_tasks, used) == 0,
    decreases used.len(),
{
    assert(used.push(more).drop_last() =~= used);
    if used.len() > 0 {
        law_used_tasks_no_longer_remain(max_tasks, used.drop_last(), more);
    }
}

/// Only fuzzers are held to what remains when they are planned, and only where there is a limit.
pub proof fn law_fuzzers_are_planned_within_limits(
    fuzzer: FuzzerGenTaskParamsView,
    resmoke: ResmokeGenParamsView,
    remaining: usize,
    error: ConfigErrorView,
)
    ensures
        within(Ok(TaskParamsView::Fuzzer(fuzzer)), Some(remaining)) == Ok::<_, ConfigErrorView>(
            TaskParamsView::Fuzzer(capped_fuzzer(fuzzer, remaining as nat)),
        ),
        within(Ok(TaskParamsView::Fuzzer(fuzzer)), None) == Ok::<_, ConfigErrorView>(
            TaskParamsView::Fuzzer(fuzzer),
        ),
        within(Ok(TaskParamsView::Resmoke(resmoke)), Some(remaining)) == Ok::<_, ConfigErrorView>(
            TaskParamsView::Resmoke(resmoke),
        ),
        within(Ok(TaskParamsView::Resmoke(resmoke)), None) == Ok::<_, ConfigErrorView>(
            TaskParamsView::Resmoke(resmoke),
        ),
        within(Err(error), Some(remaining)) == Err::<TaskParamsView, _>(error),
        within(Err(error), None) == Err::<TaskParamsView, _>(error),
{
}

/// A fuzzer is planned with the parameters of a fuzzer. Any other task is planned with those of a
/// resmoke task, for the module and the platform of its build variant.
pub proof fn law_tasks_are_planned_by_kind(
    service: GenerateTasksServiceImpl,
    task_def: EvgTask,
    variant: BuildVariantView,
    files: Seq<char>,
)
    ensures
        hands_text(
            task_def.deep_view(),
            "generate resmoke tasks"@,
            "is_jstestfuzz"@,
            "true"@,
        ) && num_files_of(task_def.deep_view(), variant) == Some(files) ==> service.task_params(
            task_def,
            variant,
        ) == (match fuzzer_params_of(
            service.config_extraction_service.generating_task@,
            service.config_extraction_service.config_location@,
            task_def,
            variant,
            files,
        ) {
            Ok(params) => Ok(TaskParamsView::Fuzzer(params)),
            Err(error) => Err(error),
        }),
        !hands_text(
            task_def.deep_view(),
            "generate resmoke tasks"@,
            "is_jstestfuzz"@,
            "true"@,
        ) ==> service.task_params(task_def, variant) == (match resmoke_params_of(
            service.config_extraction_service.generating_task@,
            service.config_extraction_service.config_location@,
            task_def,
            has_enterprise(variant),
            Some(variant),
            Some(variant_platform(variant)),
        ) {
            Ok(params) => Ok(TaskParamsView::Resmoke(params)),
            Err(error) => Err(error),
        }),
{
    law_fuzzers_say_so(task_def.deep_view());
    law_enterprise_is_switched_off_by_expansions(variant);
}

/// Tests are asked for of the suites of the resmoke tasks that are planned, step by step, and of no
/// others.
pub proof fn law_suites_of_planned_tasks_are_asked_for(
    service: GenerateTasksServiceImpl,
    steps: Seq<GenerationStepView>,
    more: GenerationStepView,
    tasks: Map<Seq<char>, EvgTask>,
)
    ensures
        service.suites_of_steps(Seq::empty(), tasks).len() == 0,
        service.suites_of_steps(steps.push(more), tasks) == service.suites_of_steps(steps, tasks)
            + service.suites_of_step(more, tasks),
        !(more is Task) ==> service.suites_of_step(more, tasks).len() == 0,
        ({
            let variants = build_variants_by_name(
                service.evg_config_service.evg_project.buildvariants.deep_view(),
            );
            more matches GenerationStepView::Task { name, build_variant, task_name } ==> {
                &&& tasks.contains_key(task_name) && variants.contains_key(build_variant)
                    && can_plan(tasks[task_name]) ==> (service.task_params(
                    tasks[task_name],
                    variants[build_variant],
                ) matches Ok(TaskParamsView::Resmoke(params)) ==> service.suites_of_step(
                    more,
                    tasks,
                ) == known_suites(params))
                &&& tasks.contains_key(task_name) && variants.contains_key(build_variant)
                    && can_plan(tasks[task_name]) && !(service.task_params(
                    tasks[task_name],
                    variants[build_variant],
                ) matches Ok(TaskParamsView::Resmoke(params))) ==> service.suites_of_step(
                    more,
                    tasks,
                ).len() == 0
                &&& !tasks.contains_key(task_name) || !variants.contains_key(build_variant)
                    ==> service.suites_of_step(more, tasks).len() == 0
            }
        }),
{
    assert(steps.push(more).drop_last() =~= steps);
}

/// A plan without burn_in generates tasks that the build variants of the project run, that generate
/// something and that are wanted, each under the name under which it is kept. A plan for burn_in
/// has the steps of its tasks.
pub proof fn law_plans_generate_wanted_tasks(
    service: GenerateTasksServiceImpl,
    order: Seq<Seq<char>>,
    steps: Seq<GenerationStepView>,
    k: int,
)
    requires
        service.follows_plan(order, steps),
        0 <= k < steps.len(),
    ensures
        ({
            let variants = build_variants_by_name(
                service.evg_config_service.evg_project.buildvariants.deep_view(),
            );
            let tasks = tasks_by_name(service.evg_config_service.evg_project.tasks.deep_view());
            &&& !service.gen_burn_in ==> (steps[k] matches GenerationStepView::Task {
                name,
                build_variant,
                task_name,
            } && is_generated(tasks, task_name) && is_target(
                service.targets.deep_view(),
                build_variant,
                task_name,
            ) && exists|i: int|
                0 <= i < order.len() && (#[trigger] variants[order[i]]).name == build_variant
                    && is_kept_as(name, task_name, variants[order[i]]))
            &&& service.gen_burn_in ==> is_of_some_task(
                all_tasks_on(service.targets.deep_view(), contexts_of(order, variants)),
                variants,
                steps,
                k,
            )
        }),
{
    let variants = build_variants_by_name(
        service.evg_config_service.evg_project.buildvariants.deep_view(),
    );
    let tasks = tasks_by_name(service.evg_config_service.evg_project.tasks.deep_view());
    let targets = service.targets.deep_view();
    if service.gen_burn_in {
        law_each_burn_in_task_has_its_steps(
            all_tasks_on(targets, contexts_of(order, variants)),
            variants,
            steps,
            0,
            k,
        );
    } else {
        law_steps_generate_tasks_of_variants(targets, order, variants, tasks, k);
    }
}

/// What remains is shared evenly among the multiversion suites that can have some. Without such
/// suites it is not shared.
pub proof fn law_what_remains_is_shared(
    suites: Seq<MultiversionGenerateTaskConfigView>,
    remaining: nat,
)
    ensures
        share_of(false, Some(suites), remaining) == remaining,
        share_of(false, None, remaining) == remaining,
        share_of(true, None, remaining) == remaining,
        0 < suites.len() <= remaining ==> share_of(true, Some(suites), remaining) == remaining
            / suites.len(),
        suites.len() > remaining > 0 ==> share_of(true, Some(suites), remaining) == 1,
        remaining == 0 || suites.len() == 0 ==> share_of(true, Some(suites), remaining) == 0,
{
    if suites.len() > remaining && remaining > 0 {
        assert(remaining / remaining == 1) by (nonlinear_arith)
            requires
                remaining > 0,
        ;
    }
}

} // verus!
