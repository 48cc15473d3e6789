//! Which tasks to generate.
//!
//! This code goes through all the build variants and finds the tasks that need to be generated.

use vstd::prelude::*;

use crate::evergreen::evg_config::{
    build_variants_by_name, lists_required_first, tasks_by_name, EvgProjectConfig,
};
use crate::evergreen::evg_config_utils::{
    enterprise_switched_off, expansion, is_burn_in_tag_variant, lists_burn_in_tag_variants,
    task_call, variant_platform, EvgConfigUtilsImpl,
};
use crate::evergreen::model::{BuildVariant, BuildVariantView, EvgTask, EvgTaskView, TaskRef};
use crate::evergreen_names::{
    BURN_IN_TAGS, BURN_IN_TASKS, BURN_IN_TESTS, GENERATE_RESMOKE_TASKS, UNIQUE_GEN_SUFFIX_EXPANSION,
};
use crate::generation::burn_in_tags::{has_task, knows_tags, runs_task, tags_known};
use crate::generation::collection::{
    burn_in_tags_variant_name, burn_in_tasks_name, burn_in_tests_name, dashed, lookup_task_name,
    unique_task_name, BURN_IN_BV_SUFFIX, BURN_IN_TASKS_PREFIX, BURN_IN_TESTS_PREFIX,
};
use crate::generation::limits::{is_target, TaskTargets, TaskTargetsView};
use crate::services::config_extraction::ConfigExtractionServiceImpl;
use crate::task_types::fuzzer_tasks::GenFuzzerServiceImpl;
use crate::utils::string_map::{distinct_keys, key_at, lemma_entry, StringMap};
use crate::utils::string_set::StringSet;
use crate::utils::text::str_eq;

verus! {

/// A build variant, with what its tasks are named after.
pub struct VariantContext<'a> {
    /// The build variant.
    pub build_variant: &'a BuildVariant,
    /// Whether the build variant uses the enterprise module.
    pub is_enterprise: bool,
    /// Platform that tasks of the build variant run on.
    pub platform: String,
}

/// What a [`VariantContext`] holds.
pub struct VariantContextView {
    pub variant: BuildVariantView,
    pub is_enterprise: bool,
    pub platform: Seq<char>,
}

impl<'a> DeepView for VariantContext<'a> {
    type V = VariantContextView;

    open spec fn deep_view(&self) -> VariantContextView {
        VariantContextView {
            variant: self.build_variant.deep_view(),
            is_enterprise: self.is_enterprise,
            platform: self.platform@,
        }
    }
}

/// What the tasks of a build variant are named after.
pub open spec fn context_of(variant: BuildVariantView) -> VariantContextView {
    VariantContextView {
        variant,
        is_enterprise: !enterprise_switched_off(variant),
        platform: variant_platform(variant),
    }
}

/// The name under which a task that is generated for a build variant is kept.
pub open spec fn name_in(context: VariantContextView, task_name: Seq<char>) -> Seq<char> {
    unique_task_name(
        context.is_enterprise,
        task_name,
        context.platform,
        expansion(context.variant, UNIQUE_GEN_SUFFIX_EXPANSION@),
    )
}

/// Determine the name under which a task that is generated for a build variant is kept.
///
/// # Arguments
///
/// * `evg_config_utils` - Utilities to work with evergreen project configuration.
/// * `context` - The build variant.
/// * `task_name` - Name of task.
pub fn lookup_name_in(
    evg_config_utils: &EvgConfigUtilsImpl,
    context: &VariantContext,
    task_name: &str,
) -> (name: String)
    ensures
        name@ == name_in(context.deep_view(), task_name@),
{
    let gen_task_suffix: Option<String> = evg_config_utils.lookup_build_variant_expansion(
        UNIQUE_GEN_SUFFIX_EXPANSION,
        context.build_variant,
    );
    match &gen_task_suffix {
        Some(suffix) => lookup_task_name(
            context.is_enterprise,
            task_name,
            context.platform.as_str(),
            Some(suffix.as_str()),
        ),
        None => lookup_task_name(
            context.is_enterprise,
            task_name,
            context.platform.as_str(),
            None,
        ),
    }
}

/// A step of generating the tasks of a project.
#[derive(Debug, PartialEq)]
pub enum GenerationStep {
    /// Generate the burn_in_tests of a build variant, to be run on another one perhaps.
    BurnInTests { name: String, build_variant: String, run_build_variant_name: String },
    /// Generate the burn_in_tasks of a build variant.
    BurnInTasks { name: String, build_variant: String },
    /// Generate a task for a build variant.
    Task { name: String, build_variant: String, task_name: String },
}

/// What a [`GenerationStep`] holds.
pub enum GenerationStepView {
    BurnInTests { name: Seq<char>, build_variant: Seq<char>, run_build_variant_name: Seq<char> },
    BurnInTasks { name: Seq<char>, build_variant: Seq<char> },
    Task { name: Seq<char>, build_variant: Seq<char>, task_name: Seq<char> },
}

impl DeepView for GenerationStep {
    type V = GenerationStepView;

    open spec fn deep_view(&self) -> GenerationStepView {
        match self {
            GenerationStep::BurnInTests { name, build_variant, run_build_variant_name } => {
                GenerationStepView::BurnInTests {
                    name: name@,
                    build_variant: build_variant@,
                    run_build_variant_name: run_build_variant_name@,
                }
            },
            GenerationStep::BurnInTasks { name, build_variant } => GenerationStepView::BurnInTasks {
                name: name@,
                build_variant: build_variant@,
            },
            GenerationStep::Task { name, build_variant, task_name } => GenerationStepView::Task {
                name: name@,
                build_variant: build_variant@,
                task_name: task_name@,
            },
        }
    }
}

/// A task that a build variant runs.
pub struct TaskOnVariant {
    pub context: VariantContextView,
    pub task_name: Seq<char>,
}

/// Those of the first `n` tasks of a build variant that are to be generated.
pub open spec fn tasks_on(targets: TaskTargetsView, context: VariantContextView, n: int) -> Seq<
    TaskOnVariant,
>
    decreases n,
{
    if n <= 0 {
        Seq::empty()
    } else {
        let rest = tasks_on(targets, context, n - 1);
        let task_name = context.variant.tasks[n - 1].name;
        if is_target(targets, context.variant.name, task_name) {
            rest.push(TaskOnVariant { context, task_name })
        } else {
            rest
        }
    }
}

/// The tasks of the build variants that are to be generated, one build variant after the other.
pub open spec fn all_tasks_on(
    targets: TaskTargetsView,
    contexts: Seq<VariantContextView>,
) -> Seq<TaskOnVariant>
    decreases contexts.len(),
{
    if contexts.len() == 0 {
        Seq::empty()
    } else {
        all_tasks_on(targets, contexts.drop_last()) + tasks_on(
            targets,
            contexts.last(),
            contexts.last().variant.tasks.len() as int,
        )
    }
}

/// The task stands for burn_in.
pub open spec fn is_burn_in(task_name: Seq<char>) -> bool {
    task_name == BURN_IN_TESTS@ || task_name == BURN_IN_TAGS@ || task_name == BURN_IN_TASKS@
}

/// The names under which tasks that do not stand for burn_in are kept.
pub open spec fn names_seen(tasks: Seq<TaskOnVariant>) -> Set<Seq<char>>
    decreases tasks.len(),
{
    if tasks.len() == 0 {
        Set::empty()
    } else {
        let rest = names_seen(tasks.drop_last());
        if is_burn_in(tasks.last().task_name) {
            rest
        } else {
            rest.insert(name_in(tasks.last().context, tasks.last().task_name))
        }
    }
}

/// The task is defined, and sub-tasks are generated from it.
pub open spec fn is_generated(task_map: Map<Seq<char>, EvgTaskView>, task_name: Seq<char>) -> bool {
    task_map.contains_key(task_name) && task_call(
        task_map[task_name],
        GENERATE_RESMOKE_TASKS@,
    ) is Some
}

/// The step that generates a task for a build variant.
pub open spec fn task_step(task: TaskOnVariant) -> GenerationStepView {
    GenerationStepView::Task {
        name: name_in(task.context, task.task_name),
        build_variant: task.context.variant.name,
        task_name: task.task_name,
    }
}

/// The steps that generate the tasks, each for the first build variant that runs a task under its
/// name.
pub open spec fn task_steps(
    tasks: Seq<TaskOnVariant>,
    task_map: Map<Seq<char>, EvgTaskView>,
) -> Seq<GenerationStepView>
    decreases tasks.len(),
{
    if tasks.len() == 0 {
        Seq::empty()
    } else {
        let rest = task_steps(tasks.drop_last(), task_map);
        let last = tasks.last();
        if !is_burn_in(last.task_name) && !names_seen(tasks.drop_last()).contains(
            name_in(last.context, last.task_name),
        ) && is_generated(task_map, last.task_name) {
            rest.push(task_step(last))
        } else {
            rest
        }
    }
}

/// The step that generates burn_in_tests to be run on the build variant itself.
pub open spec fn burn_in_tests_step(variant: BuildVariantView) -> GenerationStepView {
    GenerationStepView::BurnInTests {
        name: dashed(BURN_IN_TESTS_PREFIX@, variant.name),
        build_variant: variant.name,
        run_build_variant_name: variant.name,
    }
}

/// The step that generates burn_in_tests to be run on the burn_in_tags build variant.
pub open spec fn burn_in_tags_step(variant: BuildVariantView) -> GenerationStepView {
    GenerationStepView::BurnInTests {
        name: dashed(BURN_IN_TESTS_PREFIX@, dashed(variant.name, BURN_IN_BV_SUFFIX@)),
        build_variant: variant.name,
        run_build_variant_name: dashed(variant.name, BURN_IN_BV_SUFFIX@),
    }
}

/// The step that generates the burn_in_tasks of a build variant.
pub open spec fn burn_in_tasks_step(variant: BuildVariantView) -> GenerationStepView {
    GenerationStepView::BurnInTasks {
        name: dashed(BURN_IN_TASKS_PREFIX@, variant.name),
        build_variant: variant.name,
    }
}

/// The steps generate burn_in for one task of a build variant. Those for burn_in_tags come in any
/// order.
pub open spec fn generates_burn_in(
    task: TaskOnVariant,
    variant_map: Map<Seq<char>, BuildVariantView>,
    steps: Seq<GenerationStepView>,
) -> bool {
    let variant = task.context.variant;
    if task.task_name == BURN_IN_TESTS@ {
        steps == seq![burn_in_tests_step(variant)]
    } else if task.task_name == BURN_IN_TAGS@ {
        exists|names: Seq<Seq<char>>|
            #![trigger lists_burn_in_tag_variants(variant, variant_map, names)]
            lists_burn_in_tag_variants(variant, variant_map, names) && steps.len() == names.len()
                && forall|i: int|
                0 <= i < names.len() ==> (#[trigger] steps[i]) == burn_in_tags_step(
                    variant_map[names[i]],
                )
    } else if task.task_name == BURN_IN_TASKS@ {
        steps == seq![burn_in_tasks_step(variant)]
    } else {
        steps.len() == 0
    }
}

/// The steps generate burn_in for each of the tasks in turn.
pub open spec fn generates_all_burn_in(
    tasks: Seq<TaskOnVariant>,
    variant_map: Map<Seq<char>, BuildVariantView>,
    steps: Seq<GenerationStepView>,
) -> bool
    decreases tasks.len(),
{
    if tasks.len() == 0 {
        steps.len() == 0
    } else {
        exists|n: int|
            0 <= n <= steps.len() && generates_burn_in(
                tasks.last(),
                variant_map,
                #[trigger] steps.skip(n),
            ) && generates_all_burn_in(tasks.drop_last(), variant_map, steps.take(n))
    }
}

/// The names of the build variants to be used for burn_in_tags are known.
pub open spec fn all_tags_known(
    contexts: Seq<VariantContextView>,
    variant_map: Map<Seq<char>, BuildVariantView>,
) -> bool {
    forall|i: int|
        0 <= i < contexts.len() && has_task((#[trigger] contexts[i]).variant, BURN_IN_TAGS@)
            ==> tags_known(contexts[i].variant, variant_map)
}

/// Is the task one of those that stand for burn_in?
fn stands_for_burn_in(task_name: &str) -> (found: bool)
    ensures
        found == is_burn_in(task_name@),
{
    str_eq(task_name, BURN_IN_TESTS) || str_eq(task_name, BURN_IN_TAGS) || str_eq(
        task_name,
        BURN_IN_TASKS,
    )
}

/// More steps after those for the tasks so far generate burn_in for one more task.
proof fn lemma_more_burn_in(
    tasks: Seq<TaskOnVariant>,
    variant_map: Map<Seq<char>, BuildVariantView>,
    steps: Seq<GenerationStepView>,
    task: TaskOnVariant,
    more: Seq<GenerationStepView>,
)
    requires
        generates_all_burn_in(tasks, variant_map, steps),
        generates_burn_in(task, variant_map, more),
    ensures
        generates_all_burn_in(tasks.push(task), variant_map, steps + more),
{
    let all = steps + more;
    assert(tasks.push(task).drop_last() =~= tasks);
    assert(all.skip(steps.len() as int) =~= more);
    assert(all.take(steps.len() as int) =~= steps);
}

/// Implementation of the service for generating tasks.
pub struct GenerateTasksServiceImpl {
    /// Service to work with evergreen project configuration.
    pub evg_config_service: EvgProjectConfig,
    /// Utilities to work with evergreen project configuration.
    pub evg_config_utils: EvgConfigUtilsImpl,
    /// Service to generate fuzzer tasks.
    pub gen_fuzzer_service: GenFuzzerServiceImpl,
    /// Service to extraction configuration from evergreen config.
    pub config_extraction_service: ConfigExtractionServiceImpl,
    /// Should burn_in tasks be generated.
    pub gen_burn_in: bool,
    /// The tasks to generate, if not all of them.
    pub targets: TaskTargets,
}

impl GenerateTasksServiceImpl {
    /// Create an instance of GenerateTasksServiceImpl.
    ///
    /// # Arguments
    ///
    /// * `evg_config_service` - Service to work with evergreen project configuration.
    /// * `evg_config_utils` - Utilities to work with evergreen project configuration.
    /// * `gen_fuzzer_service` - Service to generate fuzzer tasks.
    /// * `config_extraction_service` - Service to extraction configuration from evergreen config.
    /// * `gen_burn_in` - Should burn_in tasks be generated.
    /// * `targets` - The tasks to generate, if not all of them.
    pub fn new(
        evg_config_service: EvgProjectConfig,
        evg_config_utils: EvgConfigUtilsImpl,
        gen_fuzzer_service: GenFuzzerServiceImpl,
        config_extraction_service: ConfigExtractionServiceImpl,
        gen_burn_in: bool,
        targets: TaskTargets,
    ) -> (service: Self)
        ensures
            service.evg_config_service == evg_config_service,
            service.evg_config_utils == evg_config_utils,
            service.gen_fuzzer_service == gen_fuzzer_service,
            service.config_extraction_service == config_extraction_service,
            service.gen_burn_in == gen_burn_in,
            service.targets == targets,
    {
        GenerateTasksServiceImpl {
            evg_config_service,
            evg_config_utils,
            gen_fuzzer_service,
            config_extraction_service,
            gen_burn_in,
            targets,
        }
    }

    /// Determine what the tasks of a build variant are named after.
    ///
    /// # Arguments
    ///
    /// * `build_variant` - The build variant.
    pub fn find_context<'a>(&self, build_variant: &'a BuildVariant) -> (context: VariantContext<'a>)
        ensures
            context.deep_view() == context_of(build_variant.deep_view()),
    {
        VariantContext {
            build_variant,
            is_enterprise: self.evg_config_utils.is_enterprise_build_variant(build_variant),
            platform: self.evg_config_utils.infer_build_variant_platform(build_variant),
        }
    }

    /// Find the steps that generate the tasks of the given build variants.
    ///
    /// A task that several build variants run under one name is generated for the first of them.
    ///
    /// # Arguments
    ///
    /// * `contexts` - The build variants.
    /// * `task_map` - Map of task definitions in evergreen project configuration.
    pub fn plan_tasks(&self, contexts: &Vec<VariantContext>, task_map: &StringMap<EvgTask>) -> (steps:
        Vec<GenerationStep>)
        ensures
            steps.deep_view() == task_steps(
                all_tasks_on(self.targets.deep_view(), contexts.deep_view()),
                task_map.deep_view(),
            ),
    {
        let ghost all = contexts.deep_view();
        let ghost targets = self.targets.deep_view();
        let ghost tasks_by_name = task_map.deep_view();
        let mut steps: Vec<GenerationStep> = Vec::new();
        let mut seen_tasks = StringSet::new();
        let mut i: usize = 0;
        assert(all.take(0) =~= Seq::<VariantContextView>::empty());
        assert(steps.deep_view() =~= Seq::<GenerationStepView>::empty());
        while i < contexts.len()
            invariant
                i <= contexts@.len(),
                all == contexts.deep_view(),
                targets == self.targets.deep_view(),
                tasks_by_name == task_map.deep_view(),
                steps.deep_view() == task_steps(all_tasks_on(targets, all.take(i as int)), tasks_by_name),
                seen_tasks@ == names_seen(all_tasks_on(targets, all.take(i as int))),
            decreases contexts@.len() - i,
        {
            assert(all.take(i + 1).drop_last() =~= all.take(i as int));
            assert(all[i as int] == contexts[i as int].deep_view());
            let context: &VariantContext = &contexts[i];
            let ghost before = all_tasks_on(targets, all.take(i as int));
            let ghost ctx = context.deep_view();
            let refs: &Vec<TaskRef> = &context.build_variant.tasks;
            let mut j: usize = 0;
            assert(before + tasks_on(targets, ctx, 0) =~= before);
            while j < refs.len()
                invariant
                    j <= refs@.len(),
                    tasks_by_name == task_map.deep_view(),
                    targets == self.targets.deep_view(),
                    ctx == context.deep_view(),
                    *refs == context.build_variant.tasks,
                    steps.deep_view() == task_steps(before + tasks_on(targets, ctx, j as int), tasks_by_name),
                    seen_tasks@ == names_seen(before + tasks_on(targets, ctx, j as int)),
                decreases refs@.len() - j,
            {
                let ghost tasks = before + tasks_on(targets, ctx, j as int);
                let ghost task = TaskOnVariant {
                    context: ctx,
                    task_name: ctx.variant.tasks[j as int].name,
                };
                let ghost wanted = is_target(targets, ctx.variant.name, task.task_name);
                let ghost steps_before = steps.deep_view();
                proof {
                    assert(ctx.variant.tasks[j as int] == refs[j as int].deep_view());
                    assert(before + tasks_on(targets, ctx, j + 1) =~= if wanted {
                        tasks.push(task)
                    } else {
                        tasks
                    });
                    assert(tasks.push(task).drop_last() =~= tasks);
                }
                let task_name: &str = refs[j].name.as_str();
                if self.targets.wants(context.build_variant.name.as_str(), task_name)
                    && !stands_for_burn_in(task_name) {
                    let name: String = lookup_name_in(&self.evg_config_utils, context, task_name);
                    // Skip tasks that have already been seen.
                    if !seen_tasks.contains(name.as_str()) {
                        let generated: bool = match task_map.get(task_name) {
                            Some(task_def) => self.evg_config_utils.is_task_generated(task_def),
                            None => false,
                        };
                        if generated {
                            let step = GenerationStep::Task {
                                name: name.clone(),
                                build_variant: context.build_variant.name.clone(),
                                task_name: task_name.to_owned(),
                            };
                            steps.push(step);
                            assert(steps.deep_view() =~= steps_before.push(task_step(task)));
                        }
                    }
                    seen_tasks.insert(name);
                }
                j += 1;
            }
            i += 1;
        }
        assert(all.take(i as int) =~= all);
        steps
    }

    /// Find the steps that generate burn_in for one task of a build variant.
    ///
    /// Burn in tasks could be different for each build variant, so we will always handle them.
    ///
    /// # Arguments
    ///
    /// * `context` - The build variant.
    /// * `task_name` - Name of the task.
    /// * `build_variant_map` - A map of build variant names to their definitions.
    fn plan_burn_in_of_task(
        &self,
        context: &VariantContext,
        task_name: &str,
        build_variant_map: &StringMap<&BuildVariant>,
    ) -> (steps: Vec<GenerationStep>)
        requires
            task_name@ == BURN_IN_TAGS@ ==> tags_known(
                context.deep_view().variant,
                build_variant_map.deep_view(),
            ),
        ensures
            generates_burn_in(
                TaskOnVariant { context: context.deep_view(), task_name: task_name@ },
                build_variant_map.deep_view(),
                steps.deep_view(),
            ),
    {
        let ghost variant = context.deep_view().variant;
        let ghost variant_map = build_variant_map.deep_view();
        let build_variant: &BuildVariant = context.build_variant;
        let mut steps: Vec<GenerationStep> = Vec::new();
        if str_eq(task_name, BURN_IN_TESTS) {
            steps.push(
                GenerationStep::BurnInTests {
                    name: burn_in_tests_name(build_variant.name.as_str()),
                    build_variant: build_variant.name.clone(),
                    run_build_variant_name: build_variant.name.clone(),
                },
            );
            assert(steps.deep_view() =~= seq![burn_in_tests_step(variant)]);
        } else if str_eq(task_name, BURN_IN_TAGS) {
            let names: Vec<String> = self.evg_config_utils.resolve_burn_in_tag_build_variants(
                build_variant,
                build_variant_map,
            );
            let ghost all = names.deep_view();
            let mut i: usize = 0;
            while i < names.len()
                invariant
                    i <= names@.len(),
                    all == names.deep_view(),
                    variant_map == build_variant_map.deep_view(),
                    variant == build_variant.deep_view(),
                    lists_burn_in_tag_variants(variant, variant_map, all),
                    tags_known(variant, variant_map),
                    steps@.len() == i,
                    forall|j: int|
                        0 <= j < i ==> (#[trigger] steps@[j]).deep_view() == burn_in_tags_step(
                            variant_map[all[j]],
                        ),
                decreases names@.len() - i,
            {
                proof {
                    assert(all.contains(all[i as int]));
                    assert(is_burn_in_tag_variant(variant, variant_map, all[i as int]));
                }
                let base_build_variant: &BuildVariant = *build_variant_map.get(
                    names[i].as_str(),
                ).unwrap();
                let run_build_variant_name: String = burn_in_tags_variant_name(
                    base_build_variant.name.as_str(),
                );
                steps.push(
                    GenerationStep::BurnInTests {
                        name: burn_in_tests_name(run_build_variant_name.as_str()),
                        build_variant: base_build_variant.name.clone(),
                        run_build_variant_name,
                    },
                );
                i += 1;
            }
        } else if str_eq(task_name, BURN_IN_TASKS) {
            steps.push(
                GenerationStep::BurnInTasks {
                    name: burn_in_tasks_name(build_variant.name.as_str()),
                    build_variant: build_variant.name.clone(),
                },
            );
            assert(steps.deep_view() =~= seq![burn_in_tasks_step(variant)]);
        }
        steps
    }

    /// Find the steps that generate burn_in for the given build variants.
    ///
    /// # Arguments
    ///
    /// * `contexts` - The build variants.
    /// * `build_variant_map` - A map of build variant names to their definitions.
    pub fn plan_burn_in(
        &self,
        contexts: &Vec<VariantContext>,
        build_variant_map: &StringMap<&BuildVariant>,
    ) -> (steps: Vec<GenerationStep>)
        requires
            all_tags_known(contexts.deep_view(), build_variant_map.deep_view()),
        ensures
            generates_all_burn_in(
                all_tasks_on(self.targets.deep_view(), contexts.deep_view()),
                build_variant_map.deep_view(),
                steps.deep_view(),
            ),
    {
        let ghost all = contexts.deep_view();
        let ghost targets = self.targets.deep_view();
        let ghost variant_map = build_variant_map.deep_view();
        let mut steps: Vec<GenerationStep> = Vec::new();
        let mut i: usize = 0;
        assert(all.take(0) =~= Seq::<VariantContextView>::empty());
        assert(steps.deep_view() =~= Seq::<GenerationStepView>::empty());
        while i < contexts.len()
            invariant
                i <= contexts@.len(),
                all == contexts.deep_view(),
                targets == self.targets.deep_view(),
                variant_map == build_variant_map.deep_view(),
                all_tags_known(all, variant_map),
                generates_all_burn_in(
                    all_tasks_on(targets, all.take(i as int)),
                    variant_map,
                    steps.deep_view(),
                ),
            decreases contexts@.len() - i,
        {
            assert(all.take(i + 1).drop_last() =~= all.take(i as int));
            assert(all[i as int] == contexts[i as int].deep_view());
            let context: &VariantContext = &contexts[i];
            let ghost before = all_tasks_on(targets, all.take(i as int));
            let ghost ctx = context.deep_view();
            let refs: &Vec<TaskRef> = &context.build_variant.tasks;
            let mut j: usize = 0;
            assert(before + tasks_on(targets, ctx, 0) =~= before);
            while j < refs.len()
                invariant
                    j <= refs@.len(),
                    variant_map == build_variant_map.deep_view(),
                    targets == self.targets.deep_view(),
                    ctx == context.deep_view(),
                    *refs == context.build_variant.tasks,
                    has_task(context.deep_view().variant, BURN_IN_TAGS@) ==> tags_known(
                        context.deep_view().variant,
                        variant_map,
                    ),
                    generates_all_burn_in(
                        before + tasks_on(targets, ctx, j as int),
                        variant_map,
                        steps.deep_view(),
                    ),
                decreases refs@.len() - j,
            {
                let ghost tasks = before + tasks_on(targets, ctx, j as int);
                let ghost task = TaskOnVariant {
                    context: ctx,
                    task_name: ctx.variant.tasks[j as int].name,
                };
                let ghost wanted = is_target(targets, ctx.variant.name, task.task_name);
                let ghost steps_before = steps.deep_view();
                proof {
                    assert(ctx.variant.tasks[j as int] == refs[j as int].deep_view());
                    assert(before + tasks_on(targets, ctx, j + 1) =~= if wanted {
                        tasks.push(task)
                    } else {
                        tasks
                    });
                }
                let task_name: &str = refs[j].name.as_str();
                if self.targets.wants(context.build_variant.name.as_str(), task_name) {
                    let mut more: Vec<GenerationStep> = self.plan_burn_in_of_task(
                        context,
                        task_name,
                        build_variant_map,
                    );
                    let ghost added = more.deep_view();
                    steps.append(&mut more);
                    proof {
                        assert(steps.deep_view() =~= steps_before + added);
                        lemma_more_burn_in(tasks, variant_map, steps_before, task, added);
                    }
                }
                j += 1;
            }
            i += 1;
        }
        assert(all.take(i as int) =~= all);
        steps
    }

    /// Are the build variants to be used for burn_in_tags known?
    ///
    /// # Arguments
    ///
    /// * `build_variant_map` - A map of build variant names to their definitions.
    pub fn knows_all_tags(&self, build_variant_map: &StringMap<&BuildVariant>) -> (known: bool)
        ensures
            known == every_tag_known(build_variant_map.deep_view()),
    {
        let ghost variant_map = build_variant_map.deep_view();
        let ghost entries = build_variant_map.entries();
        let n: usize = build_variant_map.len();
        let mut i: usize = 0;
        while i < n
            invariant
                i <= n,
                n == entries.len(),
                entries == build_variant_map.entries(),
                distinct_keys(entries),
                variant_map == build_variant_map.deep_view(),
                forall|j: int|
                    0 <= j < i && has_task((#[trigger] entries[j]).1.deep_view(), BURN_IN_TAGS@)
                        ==> tags_known(entries[j].1.deep_view(), variant_map),
            decreases n - i,
        {
            let build_variant: &BuildVariant = *build_variant_map.value(i);
            proof {
                lemma_entry(entries, i as int);
                assert(variant_map.contains_key(entries[i as int].0@));
                assert(variant_map[entries[i as int].0@] == build_variant.deep_view());
            }
            if runs_task(build_variant, BURN_IN_TAGS) && !knows_tags(
                &self.evg_config_utils,
                build_variant,
                build_variant_map,
            ) {
                return false;
            }
            i += 1;
        }
        proof {
            assert forall|name: Seq<char>| #[trigger]
                variant_map.contains_key(name) && has_task(
                    variant_map[name],
                    BURN_IN_TAGS@,
                ) implies tags_known(variant_map[name], variant_map) by {
                let j = choose|j: int| key_at(entries, j, name);
                lemma_entry(entries, j);
                assert(entries[j].1.deep_view() == variant_map[name]);
            }
        }
        true
    }

    /// Find the steps that generate all the tasks of the project: those of burn_in if burn_in tasks
    /// should be generated, else the others.
    ///
    /// The required build variants come first, so that a task that several build variants run under
    /// one name is generated for a required one where there is one.
    pub fn plan_generated_tasks(&self) -> (steps: Vec<GenerationStep>)
        requires
            self.gen_burn_in ==> every_tag_known(self.variant_map()),
        ensures
            exists|order: Seq<Seq<char>>| #[trigger]
                lists_required_first(self.variant_map().dom(), order) && self.follows_plan(
                    order,
                    steps.deep_view(),
                ),
    {
        let ghost variant_map = self.variant_map();
        let build_variant_list: Vec<String> =
            self.evg_config_service.sort_build_variants_by_required();
        let ghost order = build_variant_list.deep_view();
        let build_variant_map = self.evg_config_service.get_build_variant_map();
        let task_map: StringMap<EvgTask> = self.evg_config_service.get_task_def_map();
        let mut contexts: Vec<VariantContext> = Vec::new();
        let mut i: usize = 0;
        while i < build_variant_list.len()
            invariant
                i <= build_variant_list@.len(),
                order == build_variant_list.deep_view(),
                variant_map == build_variant_map.deep_view(),
                order.to_set() == variant_map.dom(),
                contexts@.len() == i,
                forall|j: int|
                    0 <= j < i ==> (#[trigger] contexts@[j]).deep_view() == context_of(
                        variant_map[order[j]],
                    ),
            decreases build_variant_list@.len() - i,
        {
            proof {
                assert(order.contains(order[i as int]));
                assert(order.to_set().contains(order[i as int]));
                assert(variant_map.contains_key(order[i as int]));
            }
            let build_variant: &BuildVariant = *build_variant_map.get(
                build_variant_list[i].as_str(),
            ).unwrap();
            contexts.push(self.find_context(build_variant));
            i += 1;
        }
        assert(contexts.deep_view() =~= contexts_of(order, variant_map));
        if self.gen_burn_in {
            proof {
                let all = contexts.deep_view();
                assert forall|j: int|
                    0 <= j < all.len() && has_task(
                        (#[trigger] all[j]).variant,
                        BURN_IN_TAGS@,
                    ) implies tags_known(all[j].variant, variant_map) by {
                    assert(order.contains(order[j]));
                    assert(order.to_set().contains(order[j]));
                    assert(variant_map.contains_key(order[j]));
                }
            }
            self.plan_burn_in(&contexts, &build_variant_map)
        } else {
            self.plan_tasks(&contexts, &task_map)
        }
    }

    /// The build variants of the project by their names.
    pub open spec fn variant_map(&self) -> Map<Seq<char>, BuildVariantView> {
        build_variants_by_name(self.evg_config_service.evg_project.buildvariants.deep_view())
    }

    /// The tasks of the project by their names.
    pub open spec fn task_map(&self) -> Map<Seq<char>, EvgTaskView> {
        tasks_by_name(self.evg_config_service.evg_project.tasks.deep_view())
    }

    /// The steps generate all the tasks of the project, going through the build variants in the given
    /// order.
    pub open spec fn follows_plan(
        &self,
        order: Seq<Seq<char>>,
        steps: Seq<GenerationStepView>,
    ) -> bool {
        let tasks = all_tasks_on(
            self.targets.deep_view(),
            contexts_of(order, self.variant_map()),
        );
        if self.gen_burn_in {
            generates_all_burn_in(tasks, self.variant_map(), steps)
        } else {
            steps == task_steps(tasks, self.task_map())
        }
    }
}

/// The named build variants, with what their tasks are named after.
pub open spec fn contexts_of(
    order: Seq<Seq<char>>,
    variant_map: Map<Seq<char>, BuildVariantView>,
) -> Seq<VariantContextView> {
    Seq::new(order.len(), |i: int| context_of(variant_map[order[i]]))
}

/// The names of the build variants to be used for burn_in_tags are known, for all build variants.
pub open spec fn every_tag_known(variant_map: Map<Seq<char>, BuildVariantView>) -> bool {
    forall|name: Seq<char>| #[trigger]
        variant_map.contains_key(name) && has_task(variant_map[name], BURN_IN_TAGS@) ==> tags_known(
            variant_map[name],
            variant_map,
        )
}

} // verus!
