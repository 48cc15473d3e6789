//! What holds of generating the tasks of a project.

use vstd::prelude::*;

use crate::evergreen::evg_config::{build_variants_by_name, is_required, lists_required_first};
use crate::evergreen::evg_config_utils::{
    expansion_words, includes_all_required, is_burn_in_tag_variant, lists_burn_in_tag_variants,
    required_or_suggested,
};
use crate::evergreen::model::{BuildVariantView, DisplayTaskView, EvgTaskView, TaskRefView};
use crate::evergreen_names::{
    BURN_IN_TAGS, BURN_IN_TAG_EXCLUDE_BUILD_VARIANTS, BURN_IN_TAG_INCLUDE_BUILD_VARIANTS,
    BURN_IN_TESTS,
};
use crate::generation::build_variants::{
    binary_selection_ref, config_of, empty_config, generated_name, ref_dependencies, variant_with,
    with_generated,
};
use crate::generation::collection::unique_task_name;
use crate::generation::limits::TaskTargetsView;
use crate::generation::plan::{
    all_tasks_on, burn_in_tags_step, burn_in_tasks_step, burn_in_tests_step, contexts_of,
    generates_all_burn_in, generates_burn_in, is_burn_in, is_generated, name_in, names_seen,
    task_step, task_steps, tasks_on, GenerationStepView, TaskOnVariant, VariantContextView,
};
use crate::services::config_extraction::large_distro_of;
use crate::task_types::burn_in_tests::{
    burn_in_copies, burn_in_params, burn_in_round, burn_in_tests_for, BurnInSuiteInfoView,
};
use crate::task_types::generated_suite::{
    any_multiversion, display_task_of, task_refs_of, SuiteView,
};
use crate::task_types::generation_laws::law_display_task_groups_all_sub_tasks;
use crate::task_types::multiversion::MultiversionService;
use crate::task_types::resmoke_tasks::ResmokeGenParamsView;

verus! {

/// The name under which the outcome of a step is kept.
pub open spec fn step_name(step: GenerationStepView) -> Seq<char> {
    match step {
        GenerationStepView::BurnInTests { name, .. } => name,
        GenerationStepView::BurnInTasks { name, .. } => name,
        GenerationStepView::Task { name, .. } => name,
    }
}

/// The task stands before all others that do not stand for burn_in and are kept under its name.
pub open spec fn is_first_of_name(tasks: Seq<TaskOnVariant>, i: int) -> bool {
    &&& 0 <= i < tasks.len()
    &&& !is_burn_in(tasks[i].task_name)
    &&& forall|j: int|
        0 <= j < i && !is_burn_in((#[trigger] tasks[j]).task_name) ==> name_in(
            tasks[j].context,
            tasks[j].task_name,
        ) != name_in(tasks[i].context, tasks[i].task_name)
}

/// A name has been seen if some task that does not stand for burn_in has it.
proof fn lemma_names_seen(tasks: Seq<TaskOnVariant>, name: Seq<char>)
    ensures
        names_seen(tasks).contains(name) <==> exists|j: int|
            0 <= j < tasks.len() && !is_burn_in((#[trigger] tasks[j]).task_name) && name_in(
                tasks[j].context,
                tasks[j].task_name,
            ) == name,
    decreases tasks.len(),
{
    if tasks.len() > 0 {
        let rest = tasks.drop_last();
        let n = tasks.len() - 1;
        lemma_names_seen(rest, name);
        if names_seen(rest).contains(name) {
            let j = choose|j: int|
                0 <= j < rest.len() && !is_burn_in((#[trigger] rest[j]).task_name) && name_in(
                    rest[j].context,
                    rest[j].task_name,
                ) == name;
            assert(tasks[j] == rest[j]);
        } else if names_seen(tasks).contains(name) {
            assert(tasks[n] == tasks.last());
        }
        if exists|j: int|
            0 <= j < tasks.len() && !is_burn_in((#[trigger] tasks[j]).task_name) && name_in(
                tasks[j].context,
                tasks[j].task_name,
            ) == name {
            let j = choose|j: int|
                0 <= j < tasks.len() && !is_burn_in((#[trigger] tasks[j]).task_name) && name_in(
                    tasks[j].context,
                    tasks[j].task_name,
                ) == name;
            if j < n {
                assert(rest[j] == tasks[j]);
            }
        }
    }
}

/// Each step generates a task for the first build variant that runs a task under its name.
pub proof fn law_first_variant_generates(
    tasks: Seq<TaskOnVariant>,
    task_map: Map<Seq<char>, EvgTaskView>,
    k: int,
)
    requires
        0 <= k < task_steps(tasks, task_map).len(),
    ensures
        exists|i: int| #[trigger]
            is_first_of_name(tasks, i) && is_generated(task_map, tasks[i].task_name) && task_steps(
                tasks,
                task_map,
            )[k] == task_step(tasks[i]),
    decreases tasks.len(),
{
    let rest = tasks.drop_last();
    let n = tasks.len() - 1;
    if k < task_steps(rest, task_map).len() {
        law_first_variant_generates(rest, task_map, k);
        let i = choose|i: int| #[trigger]
            is_first_of_name(rest, i) && is_generated(task_map, rest[i].task_name) && task_steps(
                rest,
                task_map,
            )[k] == task_step(rest[i]);
        assert(tasks[i] == rest[i]);
        assert forall|j: int| 0 <= j < i && !is_burn_in((#[trigger] tasks[j]).task_name) implies
            name_in(tasks[j].context, tasks[j].task_name) != name_in(
            tasks[i].context,
            tasks[i].task_name,
        ) by {
            assert(rest[j] == tasks[j]);
        }
        assert(is_first_of_name(tasks, i));
    } else {
        let name = name_in(tasks[n].context, tasks[n].task_name);
        lemma_names_seen(rest, name);
        assert forall|j: int| 0 <= j < n && !is_burn_in((#[trigger] tasks[j]).task_name) implies
            name_in(tasks[j].context, tasks[j].task_name) != name by {
            assert(rest[j] == tasks[j]);
        }
        assert(is_first_of_name(tasks, n));
    }
}

/// No two steps generate tasks under one name.
pub proof fn law_names_are_planned_once(
    tasks: Seq<TaskOnVariant>,
    task_map: Map<Seq<char>, EvgTaskView>,
    i: int,
    j: int,
)
    requires
        0 <= i < j < task_steps(tasks, task_map).len(),
    ensures
        step_name(task_steps(tasks, task_map)[i]) != step_name(task_steps(tasks, task_map)[j]),
    decreases tasks.len(),
{
    let rest = tasks.drop_last();
    let steps = task_steps(rest, task_map);
    if j < steps.len() {
        law_names_are_planned_once(rest, task_map, i, j);
    } else {
        let name = name_in(tasks.last().context, tasks.last().task_name);
        lemma_names_seen(rest, name);
        law_first_variant_generates(rest, task_map, i);
        let a = choose|a: int| #[trigger]
            is_first_of_name(rest, a) && is_generated(task_map, rest[a].task_name) && steps[i]
                == task_step(rest[a]);
        assert(!is_burn_in(rest[a].task_name));
    }
}

/// Tasks that are kept under one name are one task.
pub open spec fn names_tell_tasks(tasks: Seq<TaskOnVariant>) -> bool {
    forall|i: int, j: int|
        0 <= i < tasks.len() && 0 <= j < tasks.len() && name_in(
            (#[trigger] tasks[i]).context,
            tasks[i].task_name,
        ) == name_in((#[trigger] tasks[j]).context, tasks[j].task_name) ==> tasks[i].task_name
            == tasks[j].task_name
}

/// Each task from which sub-tasks are generated has a step that generates it, if no other task is kept
/// under its name.
pub proof fn law_generated_tasks_are_planned(
    tasks: Seq<TaskOnVariant>,
    task_map: Map<Seq<char>, EvgTaskView>,
    i: int,
)
    requires
        0 <= i < tasks.len(),
        !is_burn_in(tasks[i].task_name),
        is_generated(task_map, tasks[i].task_name),
        names_tell_tasks(tasks),
    ensures
        exists|k: int|
            0 <= k < task_steps(tasks, task_map).len() && step_name(
                #[trigger] task_steps(tasks, task_map)[k],
            ) == name_in(tasks[i].context, tasks[i].task_name),
    decreases tasks.len(),
{
    let rest = tasks.drop_last();
    let n = tasks.len() - 1;
    let steps = task_steps(tasks, task_map);
    let before = task_steps(rest, task_map);
    let name = name_in(tasks[i].context, tasks[i].task_name);
    assert(names_tell_tasks(rest)) by {
        assert forall|a: int, b: int|
            0 <= a < rest.len() && 0 <= b < rest.len() && name_in(
                (#[trigger] rest[a]).context,
                rest[a].task_name,
            ) == name_in((#[trigger] rest[b]).context, rest[b].task_name) implies rest[a].task_name
            == rest[b].task_name by {
            assert(tasks[a] == rest[a] && tasks[b] == rest[b]);
        }
    }
    lemma_names_seen(rest, name);
    if i < n {
        assert(rest[i] == tasks[i]);
        law_generated_tasks_are_planned(rest, task_map, i);
        let k = choose|k: int| 0 <= k < before.len() && step_name(#[trigger] before[k]) == name;
        assert(steps[k] == before[k]);
    } else if names_seen(rest).contains(name) {
        let j = choose|j: int|
            0 <= j < rest.len() && !is_burn_in((#[trigger] rest[j]).task_name) && name_in(
                rest[j].context,
                rest[j].task_name,
            ) == name;
        assert(tasks[j] == rest[j]);
        assert(tasks[j].task_name == tasks[i].task_name);
        law_generated_tasks_are_planned(rest, task_map, j);
        let k = choose|k: int| 0 <= k < before.len() && step_name(#[trigger] before[k]) == name;
        assert(steps[k] == before[k]);
    } else {
        assert(tasks[n] == tasks.last());
        assert(steps[before.len() as int] == task_step(tasks[i]));
    }
}

/// A build variant is found under its name.
pub proof fn law_build_variants_found_by_name(variants: Seq<BuildVariantView>, name: Seq<char>)
    requires
        build_variants_by_name(variants).contains_key(name),
    ensures
        build_variants_by_name(variants)[name].name == name,
    decreases variants.len(),
{
    if variants.len() > 0 && variants.last().name != name {
        law_build_variants_found_by_name(variants.drop_last(), name);
    }
}

/// The tasks of required build variants stand before those of others.
pub open spec fn required_tasks_first(tasks: Seq<TaskOnVariant>) -> bool {
    forall|i: int, j: int|
        0 <= i < j < tasks.len() && is_required((#[trigger] tasks[j]).context.variant.name)
            ==> is_required((#[trigger] tasks[i]).context.variant.name)
}

proof fn lemma_tasks_on_variant(
    targets: TaskTargetsView,
    context: VariantContextView,
    n: int,
    i: int,
)
    requires
        0 <= i < tasks_on(targets, context, n).len(),
    ensures
        tasks_on(targets, context, n)[i].context == context,
    decreases n,
{
    if n > 0 {
        if i < tasks_on(targets, context, n - 1).len() {
            lemma_tasks_on_variant(targets, context, n - 1, i);
        }
    }
}

/// Each of the tasks belongs to one of the build variants.
proof fn lemma_tasks_have_variants(
    targets: TaskTargetsView,
    contexts: Seq<VariantContextView>,
    i: int,
)
    requires
        0 <= i < all_tasks_on(targets, contexts).len(),
    ensures
        exists|c: int|
            0 <= c < contexts.len() && #[trigger] contexts[c] == all_tasks_on(
                targets,
                contexts,
            )[i].context,
    decreases contexts.len(),
{
    let n = contexts.len() - 1;
    let before = all_tasks_on(targets, contexts.drop_last());
    if i < before.len() {
        lemma_tasks_have_variants(targets, contexts.drop_last(), i);
        let c = choose|c: int|
            0 <= c < contexts.drop_last().len() && #[trigger] contexts.drop_last()[c]
                == before[i].context;
        assert(contexts[c] == before[i].context);
    } else {
        lemma_tasks_on_variant(
            targets,
            contexts.last(),
            contexts.last().variant.tasks.len() as int,
            i - before.len(),
        );
        assert(contexts[n] == all_tasks_on(targets, contexts)[i].context);
    }
}

proof fn lemma_required_tasks_first(targets: TaskTargetsView, contexts: Seq<VariantContextView>)
    requires
        forall|a: int, b: int|
            0 <= a < b < contexts.len() && is_required((#[trigger] contexts[b]).variant.name)
                ==> is_required((#[trigger] contexts[a]).variant.name),
    ensures
        required_tasks_first(all_tasks_on(targets, contexts)),
    decreases contexts.len(),
{
    if contexts.len() > 0 {
        let rest = contexts.drop_last();
        let n = contexts.len() - 1;
        let before = all_tasks_on(targets, rest);
        let tasks = all_tasks_on(targets, contexts);
        assert forall|a: int, b: int|
            0 <= a < b < rest.len() && is_required(
                (#[trigger] rest[b]).variant.name,
            ) implies is_required((#[trigger] rest[a]).variant.name) by {
            assert(contexts[a] == rest[a] && contexts[b] == rest[b]);
        }
        lemma_required_tasks_first(targets, rest);
        assert forall|i: int, j: int|
            0 <= i < j < tasks.len() && is_required(
                (#[trigger] tasks[j]).context.variant.name,
            ) implies is_required((#[trigger] tasks[i]).context.variant.name) by {
            if j < before.len() {
                assert(before[i] == tasks[i] && before[j] == tasks[j]);
            } else {
                lemma_tasks_on_variant(
                    targets,
                    contexts.last(),
                    contexts.last().variant.tasks.len() as int,
                    j - before.len(),
                );
                assert(contexts[n] == tasks[j].context);
                if i < before.len() {
                    lemma_tasks_have_variants(targets, rest, i);
                    let c = choose|c: int|
                        0 <= c < rest.len() && #[trigger] rest[c] == before[i].context;
                    assert(contexts[c] == tasks[i].context);
                } else {
                    lemma_tasks_on_variant(
                        targets,
                        contexts.last(),
                        contexts.last().variant.tasks.len() as int,
                        i - before.len(),
                    );
                }
            }
        }
    }
}

/// A task that is generated for a build variant that is not required is run under its name by no
/// required build variant.
pub proof fn law_required_variants_are_preferred(
    variants: Seq<BuildVariantView>,
    targets: TaskTargetsView,
    order: Seq<Seq<char>>,
    task_map: Map<Seq<char>, EvgTaskView>,
    k: int,
    j: int,
)
    requires
        lists_required_first(build_variants_by_name(variants).dom(), order),
        ({
            let tasks = all_tasks_on(targets, contexts_of(order, build_variants_by_name(variants)));
            &&& 0 <= k < task_steps(tasks, task_map).len()
            &&& 0 <= j < tasks.len()
            &&& !is_burn_in(tasks[j].task_name)
            &&& is_required(tasks[j].context.variant.name)
            &&& step_name(task_steps(tasks, task_map)[k]) == name_in(
                tasks[j].context,
                tasks[j].task_name,
            )
        }),
    ensures
        ({
            let tasks = all_tasks_on(targets, contexts_of(order, build_variants_by_name(variants)));
            task_steps(tasks, task_map)[k] matches GenerationStepView::Task { build_variant, .. }
                && is_required(build_variant)
        }),
{
    let variant_map = build_variants_by_name(variants);
    let contexts = contexts_of(order, variant_map);
    let tasks = all_tasks_on(targets, contexts);
    assert forall|a: int, b: int|
        0 <= a < b < contexts.len() && is_required(
            (#[trigger] contexts[b]).variant.name,
        ) implies is_required((#[trigger] contexts[a]).variant.name) by {
        assert(order.contains(order[a]) && order.contains(order[b]));
        assert(order.to_set().contains(order[a]) && order.to_set().contains(order[b]));
        law_build_variants_found_by_name(variants, order[a]);
        law_build_variants_found_by_name(variants, order[b]);
        assert(is_required(order[b]));
        assert(is_required(order[a]));
    }
    lemma_required_tasks_first(targets, contexts);
    law_first_variant_generates(tasks, task_map, k);
    let i = choose|i: int| #[trigger]
        is_first_of_name(tasks, i) && is_generated(task_map, tasks[i].task_name) && task_steps(
            tasks,
            task_map,
        )[k] == task_step(tasks[i]);
    if j < i {
        assert(!is_burn_in(tasks[j].task_name));
        assert(false);
    } else if i < j {
        assert(is_required(tasks[i].context.variant.name));
    }
}

/// Where burn_in tasks are generated, no other tasks are.
pub proof fn law_burn_in_generates_nothing_else(
    tasks: Seq<TaskOnVariant>,
    variant_map: Map<Seq<char>, BuildVariantView>,
    steps: Seq<GenerationStepView>,
    k: int,
)
    requires
        generates_all_burn_in(tasks, variant_map, steps),
        0 <= k < steps.len(),
    ensures
        !(steps[k] is Task),
    decreases tasks.len(),
{
    let n = choose|n: int|
        0 <= n <= steps.len() && generates_burn_in(
            tasks.last(),
            variant_map,
            #[trigger] steps.skip(n),
        ) && generates_all_burn_in(tasks.drop_last(), variant_map, steps.take(n));
    if k < n {
        law_burn_in_generates_nothing_else(tasks.drop_last(), variant_map, steps.take(n), k);
        assert(steps.take(n)[k] == steps[k]);
    } else {
        let more = steps.skip(n);
        let task = tasks.last();
        assert(more[k - n] == steps[k]);
        if task.task_name == BURN_IN_TESTS@ {
            assert(more == seq![burn_in_tests_step(task.context.variant)]);
            assert(k - n == 0);
        } else if task.task_name == BURN_IN_TAGS@ {
            let names = choose|names: Seq<Seq<char>>|
                #![trigger lists_burn_in_tag_variants(task.context.variant, variant_map, names)]
                lists_burn_in_tag_variants(task.context.variant, variant_map, names) && more.len()
                    == names.len() && forall|i: int|
                    0 <= i < names.len() ==> (#[trigger] more[i]) == burn_in_tags_step(
                        variant_map[names[i]],
                    );
            assert(more[k - n] == burn_in_tags_step(variant_map[names[k - n]]));
        } else {
            assert(more == seq![burn_in_tasks_step(task.context.variant)]);
            assert(k - n == 0);
        }
    }
}

/// The execution tasks of display tasks, one display task after the other.
pub open spec fn grouped(display_tasks: Seq<DisplayTaskView>) -> Seq<Seq<char>>
    decreases display_tasks.len(),
{
    if display_tasks.len() == 0 {
        Seq::empty()
    } else {
        grouped(display_tasks.drop_last()) + display_tasks.last().execution_tasks
    }
}

/// The names of the tasks that are referred to.
pub open spec fn ref_names(refs: Seq<TaskRefView>) -> Seq<Seq<char>> {
    Seq::new(refs.len(), |i: int| refs[i].name)
}

/// What a build variant refers to is what its display tasks group.
pub proof fn law_references_are_grouped(
    exceptions: Option<Set<Seq<char>>>,
    context: VariantContextView,
    generated: Map<Seq<char>, SuiteView>,
    n: int,
)
    ensures
        config_of(exceptions, context, generated, n) matches Ok(config) ==> grouped(
            config.display_tasks,
        ) == ref_names(config.gen_task_specs),
    decreases n,
{
    if n > 0 {
        law_references_are_grouped(exceptions, context, generated, n - 1);
        let task_name = context.variant.tasks[n - 1].name;
        let name = generated_name(context, task_name);
        let suite = generated[name];
        match (
            config_of(exceptions, context, generated, n - 1),
            large_distro_of(exceptions, suite, context.variant),
        ) {
            (Ok(before), Ok(distro)) => {
                let config = with_generated(before, context.variant, task_name, suite, distro);
                let depends_on = ref_dependencies(context.variant, task_name, suite);
                let refs = task_refs_of(suite, distro, depends_on);
                law_display_task_groups_all_sub_tasks(suite, distro, depends_on);
                assert(config.display_tasks.drop_last() =~= before.display_tasks);
                assert(ref_names(refs) =~= display_task_of(suite).execution_tasks);
                assert(ref_names(config.gen_task_specs) =~= ref_names(before.gen_task_specs)
                    + ref_names(refs));
            },
            _ => {},
        }
    } else {
        assert(ref_names(empty_config().gen_task_specs) =~= Seq::<Seq<char>>::empty());
    }
}

/// Burn_in runs each test of a task in one sub-task, or in one for each of the multiversion tasks.
pub proof fn law_burn_in_tests_counted<M: MultiversionService>(
    service: M,
    params: ResmokeGenParamsView,
    tests: Seq<Seq<char>>,
    info: BurnInSuiteInfoView,
    n: int,
)
    requires
        0 <= n <= tests.len(),
    ensures
        burn_in_tests_for(service, params, tests, info, n).len() == n * round_size(params),
    decreases n,
{
    if n > 0 {
        law_burn_in_tests_counted(service, params, tests, info, n - 1);
        let round = burn_in_round(
            service,
            burn_in_params(params, tests[n - 1]),
            (n - 1) as usize,
            info,
        );
        assert(round.len() == round_size(params));
        let size = round_size(params) as int;
        assert((n - 1) * size + size == n * size) by (nonlinear_arith);
    } else {
        let size = round_size(params) as int;
        assert(0 * size == 0) by (nonlinear_arith);
    }
}

/// Burn_in runs each copy of a task in one sub-task, or in one for each of the multiversion tasks.
pub proof fn law_burn_in_copies_counted<M: MultiversionService>(
    service: M,
    params: ResmokeGenParamsView,
    info: BurnInSuiteInfoView,
    n: int,
)
    requires
        0 <= n,
    ensures
        burn_in_copies(service, params, info, n).len() == n * round_size(params),
    decreases n,
{
    if n > 0 {
        law_burn_in_copies_counted(service, params, info, n - 1);
        let round = burn_in_round(service, params, (n - 1) as usize, info);
        assert(round.len() == round_size(params));
        let size = round_size(params) as int;
        assert((n - 1) * size + size == n * size) by (nonlinear_arith);
    } else {
        let size = round_size(params) as int;
        assert(0 * size == 0) by (nonlinear_arith);
    }
}

/// The number of sub-tasks of one round of burn_in.
pub open spec fn round_size(params: ResmokeGenParamsView) -> nat {
    if params.require_multiversion_generate_tasks {
        params.multiversion_generate_tasks.unwrap().len()
    } else {
        1
    }
}

/// No burn_in is generated where it is not asked for.
pub proof fn law_plain_plans_hold_no_burn_in(
    tasks: Seq<TaskOnVariant>,
    task_map: Map<Seq<char>, EvgTaskView>,
    k: int,
)
    requires
        0 <= k < task_steps(tasks, task_map).len(),
    ensures
        task_steps(tasks, task_map)[k] is Task,
        !is_burn_in(task_steps(tasks, task_map)[k]->Task_task_name),
{
    law_first_variant_generates(tasks, task_map, k);
}

/// The build variants that burn_in_tags are asked for by name are used, unless they are excluded.
pub proof fn law_named_variants_are_burnt_in(
    variant: BuildVariantView,
    variant_map: Map<Seq<char>, BuildVariantView>,
    names: Seq<Seq<char>>,
    name: Seq<char>,
)
    requires
        lists_burn_in_tag_variants(variant, variant_map, names),
        expansion_words(variant, BURN_IN_TAG_INCLUDE_BUILD_VARIANTS@).contains(name),
        !expansion_words(variant, BURN_IN_TAG_EXCLUDE_BUILD_VARIANTS@).contains(name),
    ensures
        names.contains(name),
{
    assert(is_burn_in_tag_variant(variant, variant_map, name));
}

/// Where burn_in_tags are asked for on all required and suggested build variants, each of them is
/// used unless it is excluded.
pub proof fn law_required_and_suggested_variants_are_burnt_in(
    variant: BuildVariantView,
    variant_map: Map<Seq<char>, BuildVariantView>,
    names: Seq<Seq<char>>,
    name: Seq<char>,
)
    requires
        lists_burn_in_tag_variants(variant, variant_map, names),
        includes_all_required(variant) == Some(true),
        variant_map.contains_key(name),
        required_or_suggested(variant_map[name]),
        !expansion_words(variant, BURN_IN_TAG_EXCLUDE_BUILD_VARIANTS@).contains(name),
    ensures
        names.contains(name),
{
    assert(is_burn_in_tag_variant(variant, variant_map, name));
}

/// An excluded build variant is not used for burn_in_tags.
pub proof fn law_excluded_variants_are_not_burnt_in(
    variant: BuildVariantView,
    variant_map: Map<Seq<char>, BuildVariantView>,
    names: Seq<Seq<char>>,
    name: Seq<char>,
)
    requires
        lists_burn_in_tag_variants(variant, variant_map, names),
        expansion_words(variant, BURN_IN_TAG_EXCLUDE_BUILD_VARIANTS@).contains(name),
    ensures
        !names.contains(name),
{
    assert(!is_burn_in_tag_variant(variant, variant_map, name));
}

/// A build variant that runs a generated multiversion task also selects the binaries for it.
pub proof fn law_multiversion_variants_select_binaries(
    exceptions: Option<Set<Seq<char>>>,
    context: VariantContextView,
    generated: Map<Seq<char>, SuiteView>,
    n: int,
    i: int,
)
    requires
        0 <= i < n,
        context.variant.tasks[i].name != BURN_IN_TAGS@,
        generated.contains_key(generated_name(context, context.variant.tasks[i].name)),
        any_multiversion(
            generated[generated_name(context, context.variant.tasks[i].name)].sub_tasks,
        ),
    ensures
        config_of(exceptions, context, generated, n) matches Ok(config) ==> (variant_with(
            context.variant.name,
            config,
        ) matches Some(variant) && variant.tasks.contains(binary_selection_ref())),
    decreases n,
{
    lemma_multiversion_noticed(exceptions, context, generated, n, i);
    match config_of(exceptions, context, generated, n) {
        Ok(config) => {
            let tasks = config.gen_task_specs.push(binary_selection_ref());
            assert(tasks[config.gen_task_specs.len() as int] == binary_selection_ref());
        },
        Err(_) => {},
    }
}

proof fn lemma_multiversion_noticed(
    exceptions: Option<Set<Seq<char>>>,
    context: VariantContextView,
    generated: Map<Seq<char>, SuiteView>,
    n: int,
    i: int,
)
    requires
        0 <= i < n,
        context.variant.tasks[i].name != BURN_IN_TAGS@,
        generated.contains_key(generated_name(context, context.variant.tasks[i].name)),
        any_multiversion(
            generated[generated_name(context, context.variant.tasks[i].name)].sub_tasks,
        ),
    ensures
        config_of(exceptions, context, generated, n) matches Ok(config) ==> {
            &&& config.includes_multiversion_tasks
            &&& config.generating_tasks.len() > 0
        },
    decreases n,
{
    if i < n - 1 {
        lemma_multiversion_noticed(exceptions, context, generated, n - 1, i);
    }
}

/// One task on one platform has different names with the enterprise module and without it.
pub proof fn law_enterprise_tasks_are_kept_apart(
    task_name: Seq<char>,
    platform: Seq<char>,
    unique_gen_suffix: Option<Seq<char>>,
)
    ensures
        unique_task_name(true, task_name, platform, unique_gen_suffix) != unique_task_name(
            false,
            task_name,
            platform,
            unique_gen_suffix,
        ),
{
    reveal_strlit("-");
    assert(unique_task_name(true, task_name, platform, unique_gen_suffix).len() > unique_task_name(
        false,
        task_name,
        platform,
        unique_gen_suffix,
    ).len());
}

} // verus!
