//! What holds of the steps in which tasks are generated.

use vstd::prelude::*;

use crate::evergreen::evg_config::{is_required, lists_required_first};
use crate::evergreen::evg_config_utils::{
    expansion, is_burn_in_tag_variant, lists_burn_in_tag_variants, variant_platform,
};
use crate::evergreen::lookup_laws::{
    calls, expands, law_enterprise_is_switched_off_by_expansions, law_first_call_is_found,
};
use crate::evergreen::model::{BuildVariantView, EvgTaskView};
use crate::generation::burn_in_tags::{
    has_task, infos_of, is_problem, some_asks_for, with_tags, BurnInTagBuildVariantInfoView,
    BurnInTagProblemView,
};
use crate::generation::collection::{definitions_of, unique_task_name, GeneratedTask};
use crate::generation::laws::law_first_variant_generates;
use crate::generation::limits::{is_target, TaskTargetsView};
use crate::generation::plan::{
    all_tasks_on, context_of, contexts_of, generates_all_burn_in, generates_burn_in, is_burn_in,
    is_generated, name_in, task_step, task_steps, tasks_on, GenerationStepView, TaskOnVariant,
    VariantContextView,
};
use crate::services::parameter_laws::has_enterprise;
use crate::task_types::generated_suite::GeneratedSuite;

verus! {

/// The suffix that a build variant gives to the names of its tasks.
pub open spec fn is_suffix_on(suffix: Seq<char>, variant: BuildVariantView) -> bool {
    ||| expands(variant, "unique_gen_suffix"@, suffix)
    ||| suffix.len() == 0 && forall|value: Seq<char>| !#[trigger]
        expands(variant, "unique_gen_suffix"@, value)
}

/// The name under which a task of a build variant is kept: it tells the platform, the enterprise
/// module and the suffix of the build variant.
pub open spec fn is_kept_as(
    name: Seq<char>,
    task_name: Seq<char>,
    variant: BuildVariantView,
) -> bool {
    exists|suffix: Seq<char>| #[trigger]
        is_suffix_on(suffix, variant) && name == task_name + "-"@ + variant_platform(variant) + (
        if has_enterprise(variant) {
            "-enterprise"@
        } else {
            ""@
        }) + suffix
}

/// A name is made of that of the task and the platform, and tells enterprise tasks apart. A suffix
/// that is given ends it.
pub proof fn law_unique_names_tell_tasks_apart(
    task_name: Seq<char>,
    platform: Seq<char>,
    suffix: Seq<char>,
)
    ensures
        unique_task_name(false, task_name, platform, None) == task_name + "-"@ + platform,
        unique_task_name(true, task_name, platform, None) == task_name + "-"@ + platform
            + "-enterprise"@,
        unique_task_name(false, task_name, platform, Some(suffix)) == task_name + "-"@ + platform
            + suffix,
        unique_task_name(true, task_name, platform, Some(suffix)) == task_name + "-"@ + platform
            + "-enterprise"@ + suffix,
{
    reveal_strlit("-");
    reveal_strlit("enterprise");
    reveal_strlit("-enterprise");
    assert("-"@ + "enterprise"@ =~= "-enterprise"@);
    assert(unique_task_name(false, task_name, platform, None) =~= task_name + "-"@ + platform);
    assert(unique_task_name(true, task_name, platform, None) =~= task_name + "-"@ + platform
        + "-enterprise"@);
    assert(unique_task_name(false, task_name, platform, Some(suffix)) =~= task_name + "-"@
        + platform + suffix);
}

/// What is known of a build variant is the build variant, whether it has the enterprise module, and
/// its platform. Its tasks are kept under names that tell these.
pub proof fn law_contexts_tell_of_their_variant(variant: BuildVariantView, task_name: Seq<char>)
    ensures
        context_of(variant).variant == variant,
        context_of(variant).is_enterprise <==> has_enterprise(variant),
        context_of(variant).platform == variant_platform(variant),
        is_kept_as(name_in(context_of(variant), task_name), task_name, variant),
{
    law_enterprise_is_switched_off_by_expansions(variant);
    reveal_strlit("");
    assert(""@ =~= Seq::<char>::empty());
    let suffix = match expansion(variant, "unique_gen_suffix"@) {
        Some(suffix) => suffix,
        None => Seq::empty(),
    };
    if let Some(value) = expansion(variant, "unique_gen_suffix"@) {
        assert(expands(variant, "unique_gen_suffix"@, value));
    }
    assert(is_suffix_on(suffix, variant));
    law_unique_names_tell_tasks_apart(task_name, variant_platform(variant), suffix);
    let head = task_name + "-"@ + variant_platform(variant);
    assert(head + "-enterprise"@ + Seq::<char>::empty() =~= head + "-enterprise"@);
    assert(head + ""@ + suffix =~= head + suffix);
    assert(head + Seq::<char>::empty() =~= head);
}

/// All tasks are wanted but for those of other build variants or of other names where one is asked
/// for. A generating task is also wanted by the name of the task that it generates.
pub proof fn law_targets_narrow_the_tasks(
    targets: TaskTargetsView,
    variant_name: Seq<char>,
    task_name: Seq<char>,
)
    ensures
        is_target(targets, variant_name, task_name) <==> {
            &&& targets.variant is None || targets.variant == Some(variant_name)
            &&& targets.task is None || targets.task == Some(task_name) || task_name
                == targets.task.unwrap() + "_gen"@
        },
{
    reveal_strlit("_gen");
    assert("_gen"@.len() == 4);
    if let Some(task) = targets.task {
        crate::utils::task_name_laws::law_gen_suffix_comes_off(task);
        if "_gen"@.is_suffix_of(task_name) {
            let base = task_name.take(task_name.len() - 4);
            assert(base + "_gen"@ =~= task_name);
        }
    }
}

/// A task of a build variant is wanted.
pub open spec fn is_wanted(
    targets: TaskTargetsView,
    contexts: Seq<VariantContextView>,
    task: TaskOnVariant,
    i: int,
    j: int,
) -> bool {
    &&& 0 <= i < contexts.len()
    &&& task.context == contexts[i]
    &&& 0 <= j < contexts[i].variant.tasks.len()
    &&& task.task_name == contexts[i].variant.tasks[j].name
    &&& is_target(targets, contexts[i].variant.name, task.task_name)
}

proof fn lemma_tasks_on(
    targets: TaskTargetsView,
    context: VariantContextView,
    n: int,
    task: TaskOnVariant,
)
    requires
        0 <= n <= context.variant.tasks.len(),
    ensures
        tasks_on(targets, context, n).contains(task) <==> exists|j: int|
            0 <= j < n && task.context == context && task.task_name == (
            #[trigger] context.variant.tasks[j]).name && is_target(
                targets,
                context.variant.name,
                task.task_name,
            ),
    decreases n,
{
    if n > 0 {
        lemma_tasks_on(targets, context, n - 1, task);
        let rest = tasks_on(targets, context, n - 1);
        let all = tasks_on(targets, context, n);
        let name = context.variant.tasks[n - 1].name;
        if rest.contains(task) {
            assert(all[rest.index_of(task)] == task);
        }
        if all.contains(task) {
            let k = all.index_of(task);
            if k < rest.len() {
                assert(rest[k] == task);
            } else {
                assert(task.task_name == context.variant.tasks[n - 1].name);
            }
        }
        if task.context == context && task.task_name == name && is_target(
            targets,
            context.variant.name,
            name,
        ) {
            assert(all[rest.len() as int] == task);
        }
    }
}

/// The tasks to generate are those of the build variants that are wanted, and no others.
pub proof fn law_wanted_tasks_are_generated(
    targets: TaskTargetsView,
    contexts: Seq<VariantContextView>,
    task: TaskOnVariant,
)
    ensures
        all_tasks_on(targets, contexts).contains(task) <==> exists|i: int, j: int| #[trigger]
            is_wanted(targets, contexts, task, i, j),
    decreases contexts.len(),
{
    if contexts.len() > 0 {
        let rest = contexts.drop_last();
        let last = contexts.last();
        let n = contexts.len() - 1;
        law_wanted_tasks_are_generated(targets, rest, task);
        lemma_tasks_on(targets, last, last.variant.tasks.len() as int, task);
        let before = all_tasks_on(targets, rest);
        let more = tasks_on(targets, last, last.variant.tasks.len() as int);
        let all = all_tasks_on(targets, contexts);
        if before.contains(task) {
            assert(all[before.index_of(task)] == task);
            let (i, j) = choose|i: int, j: int| #[trigger]
                is_wanted(targets, rest, task, i, j);
            assert(is_wanted(targets, contexts, task, i, j));
        }
        if more.contains(task) {
            assert(all[before.len() + more.index_of(task)] == task);
            let j = choose|j: int|
                0 <= j < last.variant.tasks.len() && task.context == last && task.task_name == (
                #[trigger] last.variant.tasks[j]).name && is_target(
                    targets,
                    last.variant.name,
                    task.task_name,
                );
            assert(is_wanted(targets, contexts, task, n, j));
        }
        if all.contains(task) {
            let k = all.index_of(task);
            if k < before.len() {
                assert(before[k] == task);
            } else {
                assert(more[k - before.len()] == task);
            }
        }
        if exists|i: int, j: int| #[trigger] is_wanted(targets, contexts, task, i, j) {
            let (i, j) = choose|i: int, j: int| #[trigger]
                is_wanted(targets, contexts, task, i, j);
            if i < n {
                assert(is_wanted(targets, rest, task, i, j));
            } else {
                assert(last.variant.tasks[j].name == task.task_name);
            }
        }
    }
}

/// The tasks that generate burn_in are those of three names.
pub proof fn law_burn_in_tasks_are_known_by_name(task_name: Seq<char>)
    ensures
        is_burn_in(task_name) <==> task_name == "burn_in_tests_gen"@ || task_name
            == "burn_in_tags_gen"@ || task_name == "burn_in_tasks_gen"@,
{
}

/// A task is generated where some command of it calls the generation of resmoke tasks.
pub proof fn law_generated_tasks_call_for_it(
    task_map: Map<Seq<char>, EvgTaskView>,
    task_name: Seq<char>,
)
    ensures
        is_generated(task_map, task_name) <==> task_map.contains_key(task_name) && (
        task_map[task_name].commands matches Some(commands) && exists|k: int|
            0 <= k < commands.len() && calls(
                #[trigger] commands[k],
                "generate resmoke tasks"@,
            )),
{
    if task_map.contains_key(task_name) {
        if let Some(commands) = task_map[task_name].commands {
            law_first_call_is_found(commands, "generate resmoke tasks"@);
        }
    }
}

/// Each step generates a task that some build variant runs, under the name under which that is
/// kept.
pub proof fn law_steps_generate_tasks_of_variants(
    targets: TaskTargetsView,
    order: Seq<Seq<char>>,
    variant_map: Map<Seq<char>, BuildVariantView>,
    task_map: Map<Seq<char>, EvgTaskView>,
    k: int,
)
    requires
        0 <= k < task_steps(
            all_tasks_on(targets, contexts_of(order, variant_map)),
            task_map,
        ).len(),
    ensures
        task_steps(
            all_tasks_on(targets, contexts_of(order, variant_map)),
            task_map,
        )[k] matches GenerationStepView::Task { name, build_variant, task_name } && exists|
            i: int,
            j: int,
        |
            {
                &&& 0 <= i < order.len()
                &&& 0 <= j < (#[trigger] variant_map[order[i]]).tasks.len()
                &&& (#[trigger] variant_map[order[i]].tasks[j]).name == task_name
                &&& build_variant == variant_map[order[i]].name
                &&& is_kept_as(name, task_name, variant_map[order[i]])
                &&& is_target(targets, build_variant, task_name)
                &&& is_generated(task_map, task_name)
            },
{
    let contexts = contexts_of(order, variant_map);
    let tasks = all_tasks_on(targets, contexts);
    law_first_variant_generates(tasks, task_map, k);
    let a = choose|a: int| #[trigger]
        crate::generation::laws::is_first_of_name(tasks, a) && is_generated(
            task_map,
            tasks[a].task_name,
        ) && task_steps(tasks, task_map)[k] == task_step(tasks[a]);
    let task = tasks[a];
    assert(tasks.contains(task));
    law_wanted_tasks_are_generated(targets, contexts, task);
    let (i, j) = choose|i: int, j: int| #[trigger] is_wanted(targets, contexts, task, i, j);
    let variant = variant_map[order[i]];
    assert(contexts[i] == context_of(variant));
    law_contexts_tell_of_their_variant(variant, task.task_name);
    assert(variant_map[order[i]].tasks[j].name == task.task_name);
}

/// The steps of a task that generates burn_in: the tests that changed on its own build variant, the
/// same on each build variant that it lists tags for, or the copies of a task. Other tasks have
/// none.
pub proof fn law_burn_in_steps_follow_the_task(
    task: TaskOnVariant,
    variant_map: Map<Seq<char>, BuildVariantView>,
    steps: Seq<GenerationStepView>,
    name: Seq<char>,
)
    requires
        generates_burn_in(task, variant_map, steps),
    ensures
        task.task_name == "burn_in_tests_gen"@ ==> steps.len() == 1 && steps[0] == (
        GenerationStepView::BurnInTests {
            name: "burn_in_tests-"@ + task.context.variant.name,
            build_variant: task.context.variant.name,
            run_build_variant_name: task.context.variant.name,
        }),
        task.task_name == "burn_in_tasks_gen"@ ==> steps.len() == 1 && steps[0] == (
        GenerationStepView::BurnInTasks {
            name: "burn_in_tasks-"@ + task.context.variant.name,
            build_variant: task.context.variant.name,
        }),
        task.task_name == "burn_in_tags_gen"@ && is_burn_in_tag_variant(
            task.context.variant,
            variant_map,
            name,
        ) ==> steps.contains(
            GenerationStepView::BurnInTests {
                name: "burn_in_tests-"@ + variant_map[name].name + "-generated-by-burn-in-tags"@,
                build_variant: variant_map[name].name,
                run_build_variant_name: variant_map[name].name + "-generated-by-burn-in-tags"@,
            },
        ),
        task.task_name == "burn_in_tags_gen"@ ==> forall|k: int|
            0 <= k < steps.len() ==> exists|asked: Seq<char>| #[trigger]
                is_burn_in_tag_variant(task.context.variant, variant_map, asked)
                    && #[trigger] steps[k] == (GenerationStepView::BurnInTests {
                    name: "burn_in_tests-"@ + variant_map[asked].name
                        + "-generated-by-burn-in-tags"@,
                    build_variant: variant_map[asked].name,
                    run_build_variant_name: variant_map[asked].name
                        + "-generated-by-burn-in-tags"@,
                }),
        task.task_name != "burn_in_tests_gen"@ && task.task_name != "burn_in_tasks_gen"@
            && task.task_name != "burn_in_tags_gen"@ ==> steps.len() == 0,
{
    reveal_strlit("-");
    reveal_strlit("burn_in_tests");
    reveal_strlit("burn_in_tests-");
    reveal_strlit("burn_in_tasks");
    reveal_strlit("burn_in_tasks-");
    reveal_strlit("generated-by-burn-in-tags");
    reveal_strlit("-generated-by-burn-in-tags");
    reveal_strlit("burn_in_tests_gen");
    reveal_strlit("burn_in_tasks_gen");
    assert("burn_in_tasks_gen"@[9] == 'a');
    assert("burn_in_tests_gen"@[9] == 'e');
    assert("burn_in_tests_gen"@.len() == 17);
    assert("burn_in_tasks_gen"@.len() == 17);
    reveal_strlit("burn_in_tags_gen");
    assert("burn_in_tags_gen"@.len() == 16);
    assert("burn_in_tests"@ + "-"@ =~= "burn_in_tests-"@);
    assert("burn_in_tasks"@ + "-"@ =~= "burn_in_tasks-"@);
    assert("-"@ + "generated-by-burn-in-tags"@ =~= "-generated-by-burn-in-tags"@);
    let variant = task.context.variant;
    if task.task_name == "burn_in_tags_gen"@ {
        let names = choose|names: Seq<Seq<char>>|
            #![trigger lists_burn_in_tag_variants(variant, variant_map, names)]
            lists_burn_in_tag_variants(variant, variant_map, names) && steps.len() == names.len()
                && forall|i: int|
                0 <= i < names.len() ==> (#[trigger] steps[i])
                    == crate::generation::plan::burn_in_tags_step(variant_map[names[i]]);
        assert forall|k: int| 0 <= k < names.len() implies #[trigger] steps[k] == (
        GenerationStepView::BurnInTests {
            name: "burn_in_tests-"@ + variant_map[names[k]].name + "-generated-by-burn-in-tags"@,
            build_variant: variant_map[names[k]].name,
            run_build_variant_name: variant_map[names[k]].name + "-generated-by-burn-in-tags"@,
        }) by {
            let own = variant_map[names[k]].name;
            assert("burn_in_tests"@ + "-"@ + (own + "-"@ + "generated-by-burn-in-tags"@)
                =~= "burn_in_tests-"@ + own + "-generated-by-burn-in-tags"@);
            assert(own + "-"@ + "generated-by-burn-in-tags"@ =~= own
                + "-generated-by-burn-in-tags"@);
        }
        if is_burn_in_tag_variant(variant, variant_map, name) {
            assert(names.contains(name));
            let k = names.index_of(name);
            assert(steps[k] == (GenerationStepView::BurnInTests {
                name: "burn_in_tests-"@ + variant_map[name].name + "-generated-by-burn-in-tags"@,
                build_variant: variant_map[name].name,
                run_build_variant_name: variant_map[name].name + "-generated-by-burn-in-tags"@,
            }));
        }
        assert forall|k: int| 0 <= k < steps.len() implies exists|asked: Seq<char>| #[trigger]
            is_burn_in_tag_variant(variant, variant_map, asked) && #[trigger] steps[k] == (
            GenerationStepView::BurnInTests {
                name: "burn_in_tests-"@ + variant_map[asked].name + "-generated-by-burn-in-tags"@,
                build_variant: variant_map[asked].name,
                run_build_variant_name: variant_map[asked].name + "-generated-by-burn-in-tags"@,
            }) by {
            assert(names.contains(names[k]));
            assert(is_burn_in_tag_variant(variant, variant_map, names[k]));
        }
    }
}

/// A part of the steps are those of a task.
pub open spec fn are_steps_of(
    task: TaskOnVariant,
    variant_map: Map<Seq<char>, BuildVariantView>,
    steps: Seq<GenerationStepView>,
    a: int,
    b: int,
) -> bool {
    0 <= a <= b <= steps.len() && generates_burn_in(task, variant_map, steps.subrange(a, b))
}

/// A step is one of some task.
pub open spec fn is_of_some_task(
    tasks: Seq<TaskOnVariant>,
    variant_map: Map<Seq<char>, BuildVariantView>,
    steps: Seq<GenerationStepView>,
    k: int,
) -> bool {
    exists|i: int, a: int, b: int|
        0 <= i < tasks.len() && a <= k < b && #[trigger] are_steps_of(
            tasks[i],
            variant_map,
            steps,
            a,
            b,
        )
}

/// The steps of burn_in are those of all its tasks: each task has its steps among them, and each
/// step is one of some task.
pub proof fn law_each_burn_in_task_has_its_steps(
    tasks: Seq<TaskOnVariant>,
    variant_map: Map<Seq<char>, BuildVariantView>,
    steps: Seq<GenerationStepView>,
    i: int,
    k: int,
)
    requires
        generates_all_burn_in(tasks, variant_map, steps),
    ensures
        0 <= i < tasks.len() ==> exists|a: int, b: int| #[trigger]
            are_steps_of(tasks[i], variant_map, steps, a, b),
        0 <= k < steps.len() ==> is_of_some_task(tasks, variant_map, steps, k),
    decreases tasks.len(),
{
    if tasks.len() > 0 {
        let n = choose|n: int|
            0 <= n <= steps.len() && generates_burn_in(
                tasks.last(),
                variant_map,
                #[trigger] steps.skip(n),
            ) && generates_all_burn_in(tasks.drop_last(), variant_map, steps.take(n));
        let rest = tasks.drop_last();
        let front = steps.take(n);
        let last = tasks.len() - 1;
        law_each_burn_in_task_has_its_steps(rest, variant_map, front, i, k);
        let end = steps.len() as int;
        assert(steps.skip(n) =~= steps.subrange(n, end));
        assert(are_steps_of(tasks[last], variant_map, steps, n, end));
        if 0 <= i < last {
            let (a, b) = choose|a: int, b: int| #[trigger]
                are_steps_of(rest[i], variant_map, front, a, b);
            assert(front.subrange(a, b) =~= steps.subrange(a, b));
            assert(are_steps_of(tasks[i], variant_map, steps, a, b));
        }
        if 0 <= k < n {
            let (j, a, b) = choose|j: int, a: int, b: int|
                0 <= j < rest.len() && a <= k < b && #[trigger] are_steps_of(
                    rest[j],
                    variant_map,
                    front,
                    a,
                    b,
                );
            assert(front.subrange(a, b) =~= steps.subrange(a, b));
            assert(are_steps_of(tasks[j], variant_map, steps, a, b));
        }
    }
}

/// The definitions of generated tasks are those of all their sub-tasks, in their order.
pub proof fn law_all_sub_tasks_are_defined(
    entries: Seq<(String, GeneratedTask)>,
    more: (String, GeneratedTask),
    i: int,
)
    ensures
        definitions_of(Seq::empty()).len() == 0,
        definitions_of(entries.push(more)).len() == definitions_of(entries).len()
            + more.1.suite().sub_tasks.len(),
        0 <= i < definitions_of(entries).len() ==> definitions_of(entries.push(more))[i]
            == definitions_of(entries)[i],
        0 <= i < more.1.suite().sub_tasks.len() ==> definitions_of(
            entries.push(more),
        )[definitions_of(entries).len() + i] == more.1.suite().sub_tasks[i].evg_task,
{
    assert(entries.push(more).drop_last() =~= entries);
}

/// Build variants whose names end as those of required ones come before all others.
pub proof fn law_required_names_come_first(
    names: Set<Seq<char>>,
    list: Seq<Seq<char>>,
    i: int,
    j: int,
)
    requires
        lists_required_first(names, list),
        0 <= i < j < list.len(),
    ensures
        "-required"@.is_suffix_of(list[j]) ==> "-required"@.is_suffix_of(list[i]),
        list[i] != list[j],
        names.contains(list[i]),
{
    assert(is_required(list[j]) ==> is_required(list[i]));
    assert(list.to_set().contains(list[i]));
}

/// A build variant runs the task for burn_in_tags and lists another build variant for them.
pub open spec fn asks_for_tags(
    variant_map: Map<Seq<char>, BuildVariantView>,
    asking: Seq<char>,
    name: Seq<char>,
) -> bool {
    &&& variant_map.contains_key(asking)
    &&& exists|i: int|
        0 <= i < variant_map[asking].tasks.len() && (#[trigger] variant_map[asking].tasks[i]).name
            == "burn_in_tags_gen"@
    &&& is_burn_in_tag_variant(variant_map[asking], variant_map, name)
}

/// The build variants for burn_in_tags are those that some build variant asks for, and each has the
/// compile task that one of those names.
pub proof fn law_tags_are_kept_for_those_asked_for(
    variant_map: Map<Seq<char>, BuildVariantView>,
    name: Seq<char>,
    compile: Seq<char>,
)
    ensures
        infos_of(variant_map, variant_map.dom()).contains_key(name) <==> exists|asking: Seq<char>|
            #[trigger] asks_for_tags(variant_map, asking, name),
        infos_of(variant_map, variant_map.dom()).contains_key(name) && (forall|asking: Seq<char>|
            #[trigger] asks_for_tags(variant_map, asking, name) ==> expands(
                variant_map[asking],
                "burn_in_tag_compile_task_dependency"@,
                compile,
            )) ==> infos_of(
            variant_map,
            variant_map.dom(),
        )[name].compile_task_dependency == compile,
{
    let asking = variant_map.dom();
    assert forall|a: Seq<char>|
        asks_for_tags(variant_map, a, name) == crate::generation::burn_in_tags::asks_for(
            variant_map,
            a,
            name,
        ) by {
        if variant_map.contains_key(a) {
            if has_task(variant_map[a], "burn_in_tags_gen"@) {
                let i = choose|i: int|
                    0 <= i < variant_map[a].tasks.len() && (#[trigger] variant_map[a].tasks[i]).name
                        == "burn_in_tags_gen"@;
                assert(variant_map[a].tasks[i].name == "burn_in_tags_gen"@);
            }
        }
    }
    if exists|a: Seq<char>| #[trigger] asks_for_tags(variant_map, a, name) {
        let a = choose|a: Seq<char>| #[trigger] asks_for_tags(variant_map, a, name);
        assert(crate::generation::burn_in_tags::asks_for(variant_map, a, name));
        assert(asking.contains(a));
    }
    if some_asks_for(variant_map, asking, name) {
        let a = choose|a: Seq<char>|
            asking.contains(a) && #[trigger] crate::generation::burn_in_tags::asks_for(
                variant_map,
                a,
                name,
            );
        assert(asks_for_tags(variant_map, a, name));
    }
}

/// Tags that are already kept stay as they are. Those that a build variant asks for besides are
/// kept with the compile task that it names.
pub proof fn law_tags_are_kept_once(
    infos: Map<Seq<char>, BurnInTagBuildVariantInfoView>,
    variant: BuildVariantView,
    variant_map: Map<Seq<char>, BuildVariantView>,
    name: Seq<char>,
    compile: Seq<char>,
)
    requires
        expands(variant, "burn_in_tag_compile_task_dependency"@, compile),
    ensures
        with_tags(infos, variant, variant_map).contains_key(name) <==> infos.contains_key(name)
            || is_burn_in_tag_variant(variant, variant_map, name),
        infos.contains_key(name) ==> with_tags(infos, variant, variant_map)[name] == infos[name],
        !infos.contains_key(name) && is_burn_in_tag_variant(variant, variant_map, name)
            ==> with_tags(infos, variant, variant_map)[name].compile_task_dependency == compile,
{
}

/// A problem with tags is reported of the build variant that asks for them, and only where it is
/// one: there is none to make, no compile task is named, one that is listed is not known, or one is
/// already made for another compile task.
pub proof fn law_tag_problems_are_real(
    problem: BurnInTagProblemView,
    infos: Map<Seq<char>, BurnInTagBuildVariantInfoView>,
    variant: BuildVariantView,
    variant_map: Map<Seq<char>, BuildVariantView>,
)
    requires
        is_problem(problem, infos, variant, variant_map),
    ensures
        match problem {
            BurnInTagProblemView::Unresolved { build_variant } => build_variant == variant.name,
            BurnInTagProblemView::NoVariants { build_variant } => build_variant == variant.name
                && forall|name: Seq<char>| !#[trigger]
                is_burn_in_tag_variant(variant, variant_map, name),
            BurnInTagProblemView::MissingCompileTask { build_variant } => build_variant
                == variant.name && forall|value: Seq<char>| !#[trigger]
                expands(variant, "burn_in_tag_compile_task_dependency"@, value),
            BurnInTagProblemView::UnknownVariant { build_variant, variant: name } => build_variant
                == variant.name && is_burn_in_tag_variant(variant, variant_map, name)
                && !variant_map.contains_key(name),
            BurnInTagProblemView::OtherCompileTask { build_variant, variant: name } => build_variant
                == variant.name && is_burn_in_tag_variant(variant, variant_map, name)
                && infos.contains_key(name) && !expands(
                variant,
                "burn_in_tag_compile_task_dependency"@,
                infos[name].compile_task_dependency,
            ),
        },
{
}

} // verus!
