//! What holds of the order in which tasks are generated and listed.

use vstd::prelude::*;

use crate::errors::{ConfigError, ConfigErrorView};
use crate::evergreen::model::{BuildVariantView, EvgTaskView};
use crate::generation::build_variants::{
    config_of, key_order, lists_once, tag_variants_in_order, variants_in_order,
};
use crate::generation::burn_in_tags::infos_of;
use crate::generation::collection::with_burn_in;
use crate::generation::limits::{is_target, TaskTargetsView};
use crate::generation::plan::{
    all_tasks_on, context_of, contexts_of, generates_all_burn_in, generates_burn_in, task_steps,
    tasks_on, GenerateTasksServiceImpl, GenerationStepView, TaskOnVariant, VariantContextView,
};
use crate::generation::tasks::{plans, plans_outcome, TaskParamsView, TaskPlan};
use crate::task_types::fuzzer_tasks::{fuzzer_tasks, FuzzerGenTaskParamsView};
use crate::task_types::generated_suite::SuiteView;
use crate::task_types::resmoke_tasks::ResmokeGenParamsView;

verus! {

/// The tasks of build variants follow in the order of the build variants, and within one in the
/// order in which it lists them.
pub proof fn law_tasks_follow_their_variants(
    targets: TaskTargetsView,
    contexts: Seq<VariantContextView>,
    more: VariantContextView,
    n: int,
)
    ensures
        all_tasks_on(targets, Seq::empty()).len() == 0,
        all_tasks_on(targets, contexts.push(more)) == all_tasks_on(targets, contexts) + tasks_on(
            targets,
            more,
            more.variant.tasks.len() as int,
        ),
        tasks_on(targets, more, 0).len() == 0,
        0 <= n < more.variant.tasks.len() && is_target(
            targets,
            more.variant.name,
            more.variant.tasks[n].name,
        ) ==> tasks_on(targets, more, n + 1) == tasks_on(targets, more, n).push(
            TaskOnVariant { context: more, task_name: more.variant.tasks[n].name },
        ),
        0 <= n < more.variant.tasks.len() && !is_target(
            targets,
            more.variant.name,
            more.variant.tasks[n].name,
        ) ==> tasks_on(targets, more, n + 1) == tasks_on(targets, more, n),
{
    assert(contexts.push(more).drop_last() =~= contexts);
}

/// What is known of listed build variants is known in their order.
pub proof fn law_contexts_follow_the_order(
    order: Seq<Seq<char>>,
    variant_map: Map<Seq<char>, BuildVariantView>,
    i: int,
)
    requires
        0 <= i < order.len(),
    ensures
        contexts_of(order, variant_map).len() == order.len(),
        contexts_of(order, variant_map)[i].variant == variant_map[order[i]],
        contexts_of(order, variant_map)[i] == context_of(variant_map[order[i]]),
{
}

/// Steps follow in the order of the tasks: a further task leaves those before it as they are, and
/// has at most one step.
pub proof fn law_steps_follow_the_tasks(
    tasks: Seq<TaskOnVariant>,
    more: TaskOnVariant,
    task_map: Map<Seq<char>, EvgTaskView>,
)
    ensures
        task_steps(Seq::empty(), task_map).len() == 0,
        task_steps(tasks, task_map).is_prefix_of(task_steps(tasks.push(more), task_map)),
        task_steps(tasks.push(more), task_map).len() <= task_steps(tasks, task_map).len() + 1,
        task_steps(tasks.push(more), task_map).len() == task_steps(tasks, task_map).len() + 1
            ==> (task_steps(tasks.push(more), task_map).last() matches GenerationStepView::Task {
            name,
            build_variant,
            task_name,
        } && build_variant == more.context.variant.name && task_name == more.task_name),
{
    assert(tasks.push(more).drop_last() =~= tasks);
    let before = task_steps(tasks, task_map);
    let after = task_steps(tasks.push(more), task_map);
    assert(after.take(before.len() as int) =~= before);
}

/// Steps of burn_in follow in the order of the tasks.
pub proof fn law_burn_in_steps_follow_the_tasks(
    tasks: Seq<TaskOnVariant>,
    more: TaskOnVariant,
    variant_map: Map<Seq<char>, BuildVariantView>,
    steps: Seq<GenerationStepView>,
)
    requires
        generates_all_burn_in(tasks.push(more), variant_map, steps),
    ensures
        exists|n: int|
            0 <= n <= steps.len() && generates_all_burn_in(
                tasks,
                variant_map,
                #[trigger] steps.take(n),
            ) && generates_burn_in(more, variant_map, steps.skip(n)),
{
    assert(tasks.push(more).drop_last() =~= tasks);
    let n = choose|n: int|
        0 <= n <= steps.len() && generates_burn_in(more, variant_map, #[trigger] steps.skip(n))
            && generates_all_burn_in(tasks, variant_map, steps.take(n));
    assert(generates_all_burn_in(tasks, variant_map, steps.take(n)));
}

/// What a build variant refers to and shows follows in the order of its tasks: a further task
/// leaves what is before it as it is.
pub proof fn law_references_follow_the_tasks(
    exceptions: Option<Set<Seq<char>>>,
    context: VariantContextView,
    generated: Map<Seq<char>, SuiteView>,
    n: int,
)
    requires
        0 <= n,
    ensures
        config_of(exceptions, context, generated, n + 1) matches Ok(after) ==> (config_of(
            exceptions,
            context,
            generated,
            n,
        ) matches Ok(before) && before.gen_task_specs.is_prefix_of(after.gen_task_specs)
            && before.display_tasks.is_prefix_of(after.display_tasks)
            && before.generating_tasks.is_prefix_of(after.generating_tasks)
            && after.display_tasks.len() <= before.display_tasks.len() + 1
            && after.generating_tasks.len() <= before.generating_tasks.len() + 1),
{
    if let Ok(after) = config_of(exceptions, context, generated, n + 1) {
        let before = config_of(exceptions, context, generated, n)->Ok_0;
        assert(after.gen_task_specs.take(before.gen_task_specs.len() as int)
            =~= before.gen_task_specs);
        assert(after.display_tasks.take(before.display_tasks.len() as int)
            =~= before.display_tasks);
        assert(after.generating_tasks.take(before.generating_tasks.len() as int)
            =~= before.generating_tasks);
    }
}

/// All build variants are those of the project that run something, and behind them those for
/// burn_in_tags where burn_in is generated.
pub proof fn law_tag_variants_follow_the_others(
    service: GenerateTasksServiceImpl,
    order: Seq<Seq<char>>,
    tag_order: Seq<Seq<char>>,
    tag_exceptions: Option<Set<Seq<char>>>,
    generated: Map<Seq<char>, SuiteView>,
)
    ensures
        !service.gen_burn_in ==> service.tag_infos().dom() == Set::<Seq<char>>::empty(),
        service.gen_burn_in ==> service.tag_infos() == infos_of(
            service.variant_map(),
            service.variant_map().dom(),
        ),
        ({
            let variants = variants_in_order(
                service.config_extraction_service.exceptions(),
                order,
                service.variant_map(),
                generated,
            );
            let tag_variants = tag_variants_in_order(
                tag_exceptions,
                tag_order,
                service.variant_map(),
                service.tag_infos(),
                generated,
            );
            let all = service.variants_by(order, tag_order, tag_exceptions, generated);
            &&& variants is Ok && tag_variants is Ok ==> all == Ok::<_, ConfigErrorView>(
                variants->Ok_0 + tag_variants->Ok_0,
            )
            &&& variants matches Err(error) ==> all == Err::<Seq<BuildVariantView>, _>(error)
            &&& variants is Ok ==> (tag_variants matches Err(error) ==> all == Err::<
                Seq<BuildVariantView>,
                _,
            >(error))
        }),
{
    assert(!service.gen_burn_in ==> service.tag_infos().dom() =~= Set::<Seq<char>>::empty());
}

/// Burn_in of a build variant is found under its name unless it has nothing to run. All else is
/// kept as it was.
pub proof fn law_burn_in_without_tests_is_not_kept(
    generated: Map<Seq<char>, SuiteView>,
    name: Seq<char>,
    suite: SuiteView,
    other: Seq<char>,
)
    ensures
        suite.sub_tasks.len() == 0 ==> with_burn_in(generated, name, suite) == generated,
        suite.sub_tasks.len() > 0 ==> with_burn_in(generated, name, suite).contains_key(name)
            && with_burn_in(generated, name, suite)[name] == suite,
        other != name ==> (with_burn_in(generated, name, suite).contains_key(other)
            <==> generated.contains_key(other)),
        other != name && generated.contains_key(other) ==> with_burn_in(
            generated,
            name,
            suite,
        )[other] == generated[other],
{
}

/// A list of names holds each of them once and nothing else. The keys of entries are listed in the
/// order of the entries.
pub proof fn law_names_are_listed_once<V>(
    names: Set<Seq<char>>,
    list: Seq<Seq<char>>,
    name: Seq<char>,
    i: int,
    j: int,
    entries: Seq<(String, V)>,
    k: int,
)
    ensures
        lists_once(names, list) ==> (names.contains(name) <==> list.contains(name)),
        lists_once(names, list) && 0 <= i < j < list.len() ==> list[i] != list[j],
        key_order(entries).len() == entries.len(),
        0 <= k < entries.len() ==> key_order(entries)[k] == entries[k].0@,
{
    if lists_once(names, list) {
        assert(list.to_set().contains(name) <==> list.contains(name));
    }
}

/// A plan for a fuzzer holds its sub-tasks under its name. A plan for a resmoke task holds its
/// parameters. Where the parameters are not found, that error is the outcome.
pub proof fn law_plans_follow_the_parameters(
    plan: TaskPlan,
    fuzzer: FuzzerGenTaskParamsView,
    resmoke: ResmokeGenParamsView,
    outcome: Result<TaskPlan, ConfigError>,
    error: ConfigErrorView,
)
    ensures
        plans(plan, TaskParamsView::Fuzzer(fuzzer)) <==> (plan matches TaskPlan::Fuzzer(task)
            && task.task_name@ == fuzzer.task_name && task.sub_tasks.deep_view() == fuzzer_tasks(
            fuzzer,
        )),
        plans(plan, TaskParamsView::Resmoke(resmoke)) <==> (plan matches TaskPlan::Resmoke(params)
            && params.deep_view() == resmoke),
        plans_outcome(outcome, Err(error)) <==> (outcome matches Err(e) && e.deep_view() == error),
        plans_outcome(outcome, Ok(TaskParamsView::Resmoke(resmoke))) ==> outcome is Ok && plans(
            outcome->Ok_0,
            TaskParamsView::Resmoke(resmoke),
        ),
        plans_outcome(outcome, Ok(TaskParamsView::Fuzzer(fuzzer))) ==> outcome is Ok && plans(
            outcome->Ok_0,
            TaskParamsView::Fuzzer(fuzzer),
        ),
{
}

} // verus!
