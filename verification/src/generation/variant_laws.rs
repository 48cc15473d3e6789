//! What holds of the build variants that are generated, and of the tasks that they run.

use vstd::prelude::*;

use crate::errors::ConfigErrorView;
use crate::evergreen::model::{BuildVariantView, DisplayTaskView, TaskDependencyView, TaskRefView};
use crate::generation::build_variants::{
    config_of, generated_name, generated_variant, ref_dependencies, tag_variants_in_order,
    variants_in_order, GeneratedConfigView,
};
use crate::generation::burn_in_tags::BurnInTagBuildVariantInfoView;
use crate::generation::plan::{context_of, name_in, VariantContextView};
use crate::services::config_extraction::large_distro_of;
use crate::task_types::burn_in_tests::burn_in_tag_variant_of;
use crate::task_types::generated_suite::{
    any_multiversion, display_task_of, task_refs_of, SuiteView,
};

verus! {

/// What is generated for a task of a build variant is kept by build variant for burn_in, and
/// otherwise under the name that the task has there.
pub proof fn law_generated_tasks_are_kept_by_name(context: VariantContextView, task_name: Seq<char>)
    ensures
        task_name == "burn_in_tests_gen"@ ==> generated_name(context, task_name)
            == "burn_in_tests-"@ + context.variant.name,
        task_name == "burn_in_tasks_gen"@ ==> generated_name(context, task_name)
            == "burn_in_tasks-"@ + context.variant.name,
        task_name != "burn_in_tests_gen"@ && task_name != "burn_in_tasks_gen"@ ==> generated_name(
            context,
            task_name,
        ) == name_in(context, task_name),
{
    reveal_strlit("-");
    reveal_strlit("burn_in_tests");
    reveal_strlit("burn_in_tests-");
    reveal_strlit("burn_in_tasks");
    reveal_strlit("burn_in_tasks-");
    assert("burn_in_tests"@ + "-"@ =~= "burn_in_tests-"@);
    assert("burn_in_tasks"@ + "-"@ =~= "burn_in_tasks-"@);
    reveal_strlit("burn_in_tests_gen");
    reveal_strlit("burn_in_tasks_gen");
    assert("burn_in_tests_gen"@[9] == 'e');
    assert("burn_in_tasks_gen"@[9] == 'a');
}

/// References to the sub-tasks of a multiversion suite depend on what the task depends on where the
/// build variant refers to it, and on the selection of binaries. Others have no dependencies of
/// their own.
pub proof fn law_multiversion_references_wait_for_binaries(
    variant: BuildVariantView,
    task_name: Seq<char>,
    suite: SuiteView,
    k: int,
)
    requires
        0 <= k < variant.tasks.len(),
        variant.tasks[k].name == task_name,
        forall|j: int| 0 <= j < k ==> (#[trigger] variant.tasks[j]).name != task_name,
    ensures
        any_multiversion(suite.sub_tasks) ==> (variant.tasks[k].depends_on matches Some(listed)
            ==> ref_dependencies(variant, task_name, suite) == Some(
            listed.push(
                TaskDependencyView { name: "select_multiversion_binaries"@, variant: None },
            ),
        )),
        !any_multiversion(suite.sub_tasks) || variant.tasks[k].depends_on is None
            ==> ref_dependencies(variant, task_name, suite) is None,
{
    crate::evergreen::lookup_laws::law_first_reference_gives_dependencies(
        variant.tasks,
        task_name,
        k,
    );
}

/// The sub-tasks of a suite are generated for the task at a place of a build variant.
pub open spec fn is_generated_at(
    context: VariantContextView,
    generated: Map<Seq<char>, SuiteView>,
    i: int,
) -> bool {
    &&& 0 <= i < context.variant.tasks.len()
    &&& context.variant.tasks[i].name != "burn_in_tags_gen"@
    &&& generated.contains_key(generated_name(context, context.variant.tasks[i].name))
}

/// The suite that is generated for the task at a place of a build variant.
pub open spec fn suite_at(
    context: VariantContextView,
    generated: Map<Seq<char>, SuiteView>,
    i: int,
) -> SuiteView {
    generated[generated_name(context, context.variant.tasks[i].name)]
}

/// A reference is one to a sub-task of the suite at a place.
pub open spec fn is_reference_at(
    exceptions: Option<Set<Seq<char>>>,
    context: VariantContextView,
    generated: Map<Seq<char>, SuiteView>,
    reference: TaskRefView,
    i: int,
) -> bool {
    &&& is_generated_at(context, generated, i)
    &&& large_distro_of(
        exceptions,
        suite_at(context, generated, i),
        context.variant,
    ) matches Ok(distro) && task_refs_of(
        suite_at(context, generated, i),
        distro,
        ref_dependencies(
            context.variant,
            context.variant.tasks[i].name,
            suite_at(context, generated, i),
        ),
    ).contains(reference)
}

proof fn lemma_contains_concatenated<T>(a: Seq<T>, b: Seq<T>, x: T)
    ensures
        (a + b).contains(x) <==> a.contains(x) || b.contains(x),
{
    if a.contains(x) {
        assert((a + b)[a.index_of(x)] == x);
    }
    if b.contains(x) {
        assert((a + b)[a.len() + b.index_of(x)] == x);
    }
    if (a + b).contains(x) {
        let k = (a + b).index_of(x);
        if k < a.len() {
            assert(a[k] == x);
        } else {
            assert(b[k - a.len()] == x);
        }
    }
}

proof fn lemma_contains_pushed<T>(a: Seq<T>, y: T, x: T)
    ensures
        a.push(y).contains(x) <==> a.contains(x) || x == y,
{
    lemma_contains_concatenated(a, seq![y], x);
    assert(a + seq![y] =~= a.push(y));
    assert(seq![y].contains(x) <==> x == y) by {
        assert(seq![y][0] == y);
    }
}

/// What has been gathered from the first tasks of a build variant.
pub open spec fn gathers(
    exceptions: Option<Set<Seq<char>>>,
    context: VariantContextView,
    generated: Map<Seq<char>, SuiteView>,
    n: int,
    config: GeneratedConfigView,
) -> bool {
    &&& forall|reference: TaskRefView| #[trigger]
        config.gen_task_specs.contains(reference) <==> exists|i: int|
            0 <= i < n && #[trigger] is_reference_at(exceptions, context, generated, reference, i)
    &&& forall|shown: DisplayTaskView| #[trigger]
        config.display_tasks.contains(shown) <==> exists|i: int|
            0 <= i < n && #[trigger] is_generated_at(context, generated, i) && shown
                == display_task_of(suite_at(context, generated, i))
    &&& forall|name: Seq<char>| #[trigger]
        config.generating_tasks.contains(name) <==> exists|i: int|
            0 <= i < n && (#[trigger] context.variant.tasks[i]).name == name && (name
                == "burn_in_tags_gen"@ || is_generated_at(context, generated, i))
    &&& config.includes_multiversion_tasks <==> exists|i: int|
        0 <= i < n && #[trigger] is_generated_at(context, generated, i) && any_multiversion(
            suite_at(context, generated, i).sub_tasks,
        )
}

#[verifier::rlimit(40)]
#[verifier::spinoff_prover]
proof fn lemma_gathers(
    exceptions: Option<Set<Seq<char>>>,
    context: VariantContextView,
    generated: Map<Seq<char>, SuiteView>,
    n: int,
)
    requires
        0 <= n <= context.variant.tasks.len(),
    ensures
        config_of(exceptions, context, generated, n) matches Ok(config) ==> gathers(
            exceptions,
            context,
            generated,
            n,
            config,
        ) && forall|i: int|
            0 <= i < n && #[trigger] is_generated_at(context, generated, i) ==> large_distro_of(
                exceptions,
                suite_at(context, generated, i),
                context.variant,
            ) is Ok,
        config_of(exceptions, context, generated, n) matches Err(error) ==> exists|i: int|
            0 <= i < n && #[trigger] is_generated_at(context, generated, i) && large_distro_of(
                exceptions,
                suite_at(context, generated, i),
                context.variant,
            ) == Err::<Option<Seq<char>>, _>(error),
    decreases n,
{
    if n > 0 {
        lemma_gathers(exceptions, context, generated, n - 1);
        let task_name = context.variant.tasks[n - 1].name;
        if let Ok(before) = config_of(exceptions, context, generated, n - 1) {
            if task_name == "burn_in_tags_gen"@ {
                let config = config_of(exceptions, context, generated, n)->Ok_0;
                lemma_step_without_suite(exceptions, context, generated, n, before, config);
            } else if is_generated_at(context, generated, n - 1) {
                let suite = suite_at(context, generated, n - 1);
                if let Ok(distro) = large_distro_of(exceptions, suite, context.variant) {
                    let config = config_of(exceptions, context, generated, n)->Ok_0;
                    lemma_step_with_suite(
                        exceptions,
                        context,
                        generated,
                        n,
                        before,
                        config,
                        distro,
                    );
                } else {
                    assert(is_generated_at(context, generated, n - 1));
                }
            } else {
                let config = config_of(exceptions, context, generated, n)->Ok_0;
                assert(config == before);
                lemma_step_without_suite(exceptions, context, generated, n, before, config);
            }
        }
    }
}

proof fn lemma_step_without_suite(
    exceptions: Option<Set<Seq<char>>>,
    context: VariantContextView,
    generated: Map<Seq<char>, SuiteView>,
    n: int,
    before: GeneratedConfigView,
    config: GeneratedConfigView,
)
    requires
        0 < n <= context.variant.tasks.len(),
        gathers(exceptions, context, generated, n - 1, before),
        !is_generated_at(context, generated, n - 1),
        config == (GeneratedConfigView { generating_tasks: config.generating_tasks, ..before }),
        config.generating_tasks == (if context.variant.tasks[n - 1].name == "burn_in_tags_gen"@ {
            before.generating_tasks.push("burn_in_tags_gen"@)
        } else {
            before.generating_tasks
        }),
    ensures
        gathers(exceptions, context, generated, n, config),
{
    let tags = "burn_in_tags_gen"@;
    assert forall|reference: TaskRefView| #[trigger]
        config.gen_task_specs.contains(reference) <==> exists|i: int|
            0 <= i < n && #[trigger] is_reference_at(
                exceptions,
                context,
                generated,
                reference,
                i,
            ) by {
        assert(before.gen_task_specs.contains(reference) <==> exists|i: int|
            0 <= i < n - 1 && #[trigger] is_reference_at(
                exceptions,
                context,
                generated,
                reference,
                i,
            ));
        assert(!is_reference_at(exceptions, context, generated, reference, n - 1));
    }
    assert forall|shown: DisplayTaskView| #[trigger]
        config.display_tasks.contains(shown) <==> exists|i: int|
            0 <= i < n && #[trigger] is_generated_at(context, generated, i) && shown
                == display_task_of(suite_at(context, generated, i)) by {
        assert(before.display_tasks.contains(shown) <==> exists|i: int|
            0 <= i < n - 1 && #[trigger] is_generated_at(context, generated, i) && shown
                == display_task_of(suite_at(context, generated, i)));
    }
    assert forall|name: Seq<char>| #[trigger]
        config.generating_tasks.contains(name) <==> exists|i: int|
            0 <= i < n && (#[trigger] context.variant.tasks[i]).name == name && (name == tags
                || is_generated_at(context, generated, i)) by {
        assert(before.generating_tasks.contains(name) <==> exists|i: int|
            0 <= i < n - 1 && (#[trigger] context.variant.tasks[i]).name == name && (name == tags
                || is_generated_at(context, generated, i)));
        lemma_contains_pushed(before.generating_tasks, tags, name);
        if context.variant.tasks[n - 1].name == tags && name == tags {
            assert(context.variant.tasks[n - 1].name == name);
        }
        if before.generating_tasks.contains(name) {
            let i = choose|i: int|
                0 <= i < n - 1 && (#[trigger] context.variant.tasks[i]).name == name && (name
                    == tags || is_generated_at(context, generated, i));
            assert(context.variant.tasks[i].name == name);
        }
    }
}

proof fn lemma_step_with_suite(
    exceptions: Option<Set<Seq<char>>>,
    context: VariantContextView,
    generated: Map<Seq<char>, SuiteView>,
    n: int,
    before: GeneratedConfigView,
    config: GeneratedConfigView,
    distro: Option<Seq<char>>,
)
    requires
        0 < n <= context.variant.tasks.len(),
        gathers(exceptions, context, generated, n - 1, before),
        is_generated_at(context, generated, n - 1),
        large_distro_of(exceptions, suite_at(context, generated, n - 1), context.variant) == Ok::<
            _,
            ConfigErrorView,
        >(distro),
        config == (GeneratedConfigView {
            gen_task_specs: before.gen_task_specs + task_refs_of(
                suite_at(context, generated, n - 1),
                distro,
                ref_dependencies(
                    context.variant,
                    context.variant.tasks[n - 1].name,
                    suite_at(context, generated, n - 1),
                ),
            ),
            display_tasks: before.display_tasks.push(
                display_task_of(suite_at(context, generated, n - 1)),
            ),
            generating_tasks: before.generating_tasks.push(context.variant.tasks[n - 1].name),
            includes_multiversion_tasks: before.includes_multiversion_tasks || any_multiversion(
                suite_at(context, generated, n - 1).sub_tasks,
            ),
        }),
    ensures
        gathers(exceptions, context, generated, n, config),
{
    let suite = suite_at(context, generated, n - 1);
    let own = context.variant.tasks[n - 1].name;
    let refs = task_refs_of(suite, distro, ref_dependencies(context.variant, own, suite));
    assert forall|reference: TaskRefView| #[trigger]
        config.gen_task_specs.contains(reference) <==> exists|i: int|
            0 <= i < n && #[trigger] is_reference_at(
                exceptions,
                context,
                generated,
                reference,
                i,
            ) by {
        assert(before.gen_task_specs.contains(reference) <==> exists|i: int|
            0 <= i < n - 1 && #[trigger] is_reference_at(
                exceptions,
                context,
                generated,
                reference,
                i,
            ));
        lemma_contains_concatenated(before.gen_task_specs, refs, reference);
        assert(is_reference_at(exceptions, context, generated, reference, n - 1)
            <==> refs.contains(reference));
    }
    assert forall|shown: DisplayTaskView| #[trigger]
        config.display_tasks.contains(shown) <==> exists|i: int|
            0 <= i < n && #[trigger] is_generated_at(context, generated, i) && shown
                == display_task_of(suite_at(context, generated, i)) by {
        assert(before.display_tasks.contains(shown) <==> exists|i: int|
            0 <= i < n - 1 && #[trigger] is_generated_at(context, generated, i) && shown
                == display_task_of(suite_at(context, generated, i)));
        lemma_contains_pushed(before.display_tasks, display_task_of(suite), shown);
    }
    assert forall|name: Seq<char>| #[trigger]
        config.generating_tasks.contains(name) <==> exists|i: int|
            0 <= i < n && (#[trigger] context.variant.tasks[i]).name == name && (name
                == "burn_in_tags_gen"@ || is_generated_at(context, generated, i)) by {
        assert(before.generating_tasks.contains(name) <==> exists|i: int|
            0 <= i < n - 1 && (#[trigger] context.variant.tasks[i]).name == name && (name
                == "burn_in_tags_gen"@ || is_generated_at(context, generated, i)));
        lemma_contains_pushed(before.generating_tasks, own, name);
        if name == own {
            assert(context.variant.tasks[n - 1].name == name);
        }
        if before.generating_tasks.contains(name) {
            let i = choose|i: int|
                0 <= i < n - 1 && (#[trigger] context.variant.tasks[i]).name == name && (name
                    == "burn_in_tags_gen"@ || is_generated_at(context, generated, i));
            assert(context.variant.tasks[i].name == name);
        }
    }
}

/// A generated build variant refers to all sub-tasks that were generated for its tasks, and to the
/// selection of binaries where some of them need it. It shows each suite, and last the tasks that
/// generated them. It is not activated, and takes nothing else.
pub proof fn law_variants_run_what_was_generated(
    exceptions: Option<Set<Seq<char>>>,
    context: VariantContextView,
    generated: Map<Seq<char>, SuiteView>,
    variant: BuildVariantView,
)
    requires
        generated_variant(exceptions, context, generated) == Ok::<_, ConfigErrorView>(
            Some(variant),
        ),
    ensures
        variant.name == context.variant.name,
        variant.activate == Some(false),
        variant.display_name is None,
        variant.run_on is None,
        variant.expansions is None,
        variant.depends_on is None,
        variant.modules is None,
        variant.batchtime is None,
        variant.stepback is None,
        forall|i: int, j: int|
            is_generated_at(context, generated, i) && 0 <= j < suite_at(
                context,
                generated,
                i,
            ).sub_tasks.len() ==> exists|k: int|
                0 <= k < variant.tasks.len() && (#[trigger] variant.tasks[k]).name == (
                #[trigger] suite_at(context, generated, i).sub_tasks[j]).evg_task.name,
        forall|reference: TaskRefView| #[trigger]
            variant.tasks.contains(reference) ==> (exists|i: int| #[trigger]
                is_reference_at(exceptions, context, generated, reference, i)) || reference == (
            TaskRefView {
                name: "select_multiversion_binaries"@,
                depends_on: None,
                distros: None,
                activate: Some(false),
            }),
        (exists|i: int| #[trigger]
            is_generated_at(context, generated, i) && any_multiversion(
                suite_at(context, generated, i).sub_tasks,
            )) ==> variant.tasks.len() > 0 && variant.tasks.last() == (TaskRefView {
            name: "select_multiversion_binaries"@,
            depends_on: None,
            distros: None,
            activate: Some(false),
        }),
        variant.display_tasks is Some,
        variant.display_tasks.unwrap().len() > 0,
        variant.display_tasks.unwrap().last().name == "generator_tasks"@,
        forall|name: Seq<char>| #[trigger]
            variant.display_tasks.unwrap().last().execution_tasks.contains(name) <==> exists|
                i: int,
            |
                0 <= i < context.variant.tasks.len() && (#[trigger] context.variant.tasks[i]).name
                    == name && (name == "burn_in_tags_gen"@ || is_generated_at(
                    context,
                    generated,
                    i,
                )),
        forall|i: int| #[trigger]
            is_generated_at(context, generated, i) ==> variant.display_tasks.unwrap().contains(
                display_task_of(suite_at(context, generated, i)),
            ),
{
    let n = context.variant.tasks.len() as int;
    lemma_gathers(exceptions, context, generated, n);
    let config = config_of(exceptions, context, generated, n)->Ok_0;
    let selection = TaskRefView {
        name: "select_multiversion_binaries"@,
        depends_on: None,
        distros: None,
        activate: Some(false),
    };
    let shown = variant.display_tasks.unwrap();
    assert(variant.tasks == (if config.includes_multiversion_tasks {
        config.gen_task_specs.push(selection)
    } else {
        config.gen_task_specs
    }));
    assert forall|reference: TaskRefView| #[trigger]
        config.gen_task_specs.contains(reference) implies variant.tasks.contains(reference) by {
        lemma_contains_pushed(config.gen_task_specs, selection, reference);
    }
    assert forall|i: int, j: int|
        is_generated_at(context, generated, i) && 0 <= j < suite_at(
            context,
            generated,
            i,
        ).sub_tasks.len() implies exists|k: int|
        0 <= k < variant.tasks.len() && (#[trigger] variant.tasks[k]).name == (
        #[trigger] suite_at(context, generated, i).sub_tasks[j]).evg_task.name by {
        let suite = suite_at(context, generated, i);
        let distro = large_distro_of(exceptions, suite, context.variant)->Ok_0;
        let refs = task_refs_of(
            suite,
            distro,
            ref_dependencies(context.variant, context.variant.tasks[i].name, suite),
        );
        assert(refs.contains(refs[j]));
        assert(is_reference_at(exceptions, context, generated, refs[j], i));
        assert(config.gen_task_specs.contains(refs[j]));
        assert(variant.tasks.contains(refs[j]));
        let k = variant.tasks.index_of(refs[j]);
        assert(variant.tasks[k].name == suite.sub_tasks[j].evg_task.name);
    }
    assert forall|reference: TaskRefView| #[trigger]
        variant.tasks.contains(reference) implies (exists|i: int| #[trigger]
        is_reference_at(exceptions, context, generated, reference, i)) || reference
        == selection by {
        lemma_contains_pushed(config.gen_task_specs, selection, reference);
    }
    assert forall|i: int| #[trigger] is_generated_at(context, generated, i) implies shown.contains(
        display_task_of(suite_at(context, generated, i)),
    ) by {
        let display = display_task_of(suite_at(context, generated, i));
        assert(config.display_tasks.contains(display));
        lemma_contains_pushed(
            config.display_tasks,
            DisplayTaskView {
                name: "generator_tasks"@,
                execution_tasks: config.generating_tasks,
            },
            display,
        );
    }
}

/// A build variant is generated where one of its tasks generates something, and fails to be where a
/// larger distro that is asked for is missing.
pub proof fn law_variants_are_generated_where_needed(
    exceptions: Option<Set<Seq<char>>>,
    context: VariantContextView,
    generated: Map<Seq<char>, SuiteView>,
)
    ensures
        generated_variant(exceptions, context, generated) matches Ok(variant) ==> (variant is None
            <==> forall|i: int|
            0 <= i < context.variant.tasks.len() ==> (#[trigger] context.variant.tasks[i]).name
                != "burn_in_tags_gen"@ && !is_generated_at(context, generated, i)),
        generated_variant(exceptions, context, generated) is Ok <==> forall|i: int| #[trigger]
            is_generated_at(context, generated, i) ==> large_distro_of(
                exceptions,
                suite_at(context, generated, i),
                context.variant,
            ) is Ok,
        generated_variant(exceptions, context, generated) matches Err(error) ==> exists|i: int|
            #[trigger] is_generated_at(context, generated, i) && large_distro_of(
                exceptions,
                suite_at(context, generated, i),
                context.variant,
            ) == Err::<Option<Seq<char>>, _>(error),
{
    let n = context.variant.tasks.len() as int;
    lemma_gathers(exceptions, context, generated, n);
    if let Ok(config) = config_of(exceptions, context, generated, n) {
        if config.generating_tasks.len() == 0 {
            assert forall|i: int| 0 <= i < n implies (#[trigger] context.variant.tasks[i]).name
                != "burn_in_tags_gen"@ && !is_generated_at(context, generated, i) by {
                assert(!config.generating_tasks.contains(context.variant.tasks[i].name));
            }
        } else {
            let name = config.generating_tasks[0];
            assert(config.generating_tasks.contains(name));
        }
    }
}

/// The generated build variants are those of the listed build variants that have something to run,
/// and the first that fails ends it.
pub proof fn law_listed_variants_are_generated(
    exceptions: Option<Set<Seq<char>>>,
    order: Seq<Seq<char>>,
    more: Seq<char>,
    variant_map: Map<Seq<char>, BuildVariantView>,
    generated: Map<Seq<char>, SuiteView>,
)
    ensures
        variants_in_order(exceptions, Seq::empty(), variant_map, generated) == Ok::<
            _,
            ConfigErrorView,
        >(Seq::<BuildVariantView>::empty()),
        ({
            let before = variants_in_order(exceptions, order, variant_map, generated);
            let after = variants_in_order(exceptions, order.push(more), variant_map, generated);
            let own = generated_variant(exceptions, context_of(variant_map[more]), generated);
            &&& before matches Err(error) ==> after == Err::<Seq<BuildVariantView>, _>(error)
            &&& before matches Ok(variants) ==> match own {
                Ok(Some(variant)) => after == Ok::<_, ConfigErrorView>(variants.push(variant)),
                Ok(None) => after == before,
                Err(error) => after == Err::<Seq<BuildVariantView>, _>(error),
            }
        }),
{
    assert(order.push(more).drop_last() =~= order);
}

/// The build variants for burn_in_tags are made of those listed for which burn_in was generated.
/// Each is named after its base, runs what was generated for it, and waits for the compile task
/// that is kept for it.
pub proof fn law_listed_tag_variants_are_generated(
    exceptions: Option<Set<Seq<char>>>,
    order: Seq<Seq<char>>,
    more: Seq<char>,
    variant_map: Map<Seq<char>, BuildVariantView>,
    infos: Map<Seq<char>, BurnInTagBuildVariantInfoView>,
    generated: Map<Seq<char>, SuiteView>,
)
    ensures
        tag_variants_in_order(exceptions, Seq::empty(), variant_map, infos, generated) == Ok::<
            _,
            ConfigErrorView,
        >(Seq::<BuildVariantView>::empty()),
        ({
            let base = variant_map[more];
            let run_name = base.name + "-generated-by-burn-in-tags"@;
            let task_name = "burn_in_tests-"@ + base.name + "-generated-by-burn-in-tags"@;
            let before = tag_variants_in_order(exceptions, order, variant_map, infos, generated);
            let after = tag_variants_in_order(
                exceptions,
                order.push(more),
                variant_map,
                infos,
                generated,
            );
            &&& before matches Err(error) ==> after == Err::<Seq<BuildVariantView>, _>(error)
            &&& before is Ok && !generated.contains_key(task_name) ==> after == before
            &&& before is Ok && generated.contains_key(task_name) ==> match burn_in_tag_variant_of(
                exceptions,
                base,
                run_name,
                generated[task_name],
                infos[more].compile_task_dependency,
            ) {
                Ok(variant) => after == Ok::<_, ConfigErrorView>(before->Ok_0.push(variant)),
                Err(error) => after == Err::<Seq<BuildVariantView>, _>(error),
            }
        }),
{
    assert(order.push(more).drop_last() =~= order);
    reveal_strlit("-");
    reveal_strlit("burn_in_tests");
    reveal_strlit("burn_in_tests-");
    reveal_strlit("generated-by-burn-in-tags");
    reveal_strlit("-generated-by-burn-in-tags");
    let name = variant_map[more].name;
    assert("burn_in_tests"@ + "-"@ + (name + "-"@ + "generated-by-burn-in-tags"@)
        =~= "burn_in_tests-"@ + name + "-generated-by-burn-in-tags"@);
    assert(name + "-"@ + "generated-by-burn-in-tags"@ =~= name + "-generated-by-burn-in-tags"@);
}

} // verus!
