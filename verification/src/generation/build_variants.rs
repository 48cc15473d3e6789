//! The build variants that run the generated tasks.
//!
//! Once the tasks are generated, this code goes through all the build variants again and adds
//! references to the generated tasks that each of them runs.

use vstd::prelude::*;

use crate::errors::{outcome, ConfigError, ConfigErrorView};
use crate::evergreen::evg_config_utils::{is_burn_in_tag_variant, task_ref_dependencies};
use crate::evergreen::model::{
    empty_build_variant, BuildVariant, BuildVariantView, DisplayTask, DisplayTaskView,
    TaskDependency, TaskDependencyView, TaskRef, TaskRefView,
};
use crate::evergreen_names::{
    BURN_IN_TAGS, BURN_IN_TASKS, BURN_IN_TESTS, GENERATOR_TASKS, MULTIVERSION_BINARY_SELECTION,
};
use crate::generation::burn_in_tags::{
    all_tags_ready, asks_for, compile_task, compile_tasks_agree,
    generate_burn_in_build_variant_info, infos_of, lemma_infos_grow, lemma_infos_stay,
    lemma_tags_fit, runs_task, BurnInTagBuildVariantInfo, BurnInTagBuildVariantInfoView,
};
use crate::generation::collection::{
    burn_in_tags_variant_name, burn_in_tasks_name, burn_in_tests_name, dashed, GenTaskCollection,
    GeneratedTask, BURN_IN_BV_SUFFIX, BURN_IN_TASKS_PREFIX, BURN_IN_TESTS_PREFIX,
};
use crate::generation::plan::{
    context_of, lookup_name_in, name_in, GenerateTasksServiceImpl, VariantContext,
    VariantContextView,
};
use crate::services::config_extraction::large_distro_of;
use crate::task_types::burn_in_tests::{burn_in_tag_variant_of, BurnInServiceImpl};
use crate::task_types::generated_suite::{
    any_multiversion, display_task_of, task_refs_of, GeneratedSuite, SuiteView,
};
use crate::task_types::multiversion::MultiversionService;
use crate::utils::string_map::{distinct_keys, key_at, lemma_entry, StringMap};
use crate::utils::text::str_eq;

verus! {

/// A container for configuration generated for a build variant.
pub struct GeneratedConfig {
    /// References to generated tasks that should be run.
    pub gen_task_specs: Vec<TaskRef>,
    /// Display tasks that should be created.
    pub display_tasks: Vec<DisplayTask>,
    /// Names of the tasks that generate tasks.
    pub generating_tasks: Vec<String>,
    /// Whether a generated task needs the binaries of other versions.
    pub includes_multiversion_tasks: bool,
}

/// What a [`GeneratedConfig`] holds.
#[verifier::ext_equal]
pub struct GeneratedConfigView {
    pub gen_task_specs: Seq<TaskRefView>,
    pub display_tasks: Seq<DisplayTaskView>,
    pub generating_tasks: Seq<Seq<char>>,
    pub includes_multiversion_tasks: bool,
}

impl DeepView for GeneratedConfig {
    type V = GeneratedConfigView;

    open spec fn deep_view(&self) -> GeneratedConfigView {
        GeneratedConfigView {
            gen_task_specs: self.gen_task_specs.deep_view(),
            display_tasks: self.display_tasks.deep_view(),
            generating_tasks: self.generating_tasks.deep_view(),
            includes_multiversion_tasks: self.includes_multiversion_tasks,
        }
    }
}

impl GeneratedConfig {
    /// Create an empty instance of generated configuration.
    pub fn new() -> (config: Self)
        ensures
            config.deep_view() == empty_config(),
    {
        let config = GeneratedConfig {
            gen_task_specs: Vec::new(),
            display_tasks: Vec::new(),
            generating_tasks: Vec::new(),
            includes_multiversion_tasks: false,
        };
        assert(config.deep_view() =~= empty_config());
        config
    }
}

/// Configuration without any tasks.
pub open spec fn empty_config() -> GeneratedConfigView {
    GeneratedConfigView {
        gen_task_specs: Seq::empty(),
        display_tasks: Seq::empty(),
        generating_tasks: Seq::empty(),
        includes_multiversion_tasks: false,
    }
}

/// The name under which what was generated for a task of a build variant is kept.
pub open spec fn generated_name(context: VariantContextView, task_name: Seq<char>) -> Seq<char> {
    if task_name == BURN_IN_TESTS@ {
        dashed(BURN_IN_TESTS_PREFIX@, context.variant.name)
    } else if task_name == BURN_IN_TASKS@ {
        dashed(BURN_IN_TASKS_PREFIX@, context.variant.name)
    } else {
        name_in(context, task_name)
    }
}

/// The dependency on the selection of multiversion binaries.
pub open spec fn binary_selection() -> TaskDependencyView {
    TaskDependencyView { name: MULTIVERSION_BINARY_SELECTION@, variant: None }
}

/// The dependencies of the references to a generated task: if it needs the binaries of other versions
/// and the build variant overrides the dependencies of the task, then those and the selection of the
/// binaries.
pub open spec fn ref_dependencies(
    variant: BuildVariantView,
    task_name: Seq<char>,
    suite: SuiteView,
) -> Option<Seq<TaskDependencyView>> {
    match task_ref_dependencies(variant.tasks, task_name) {
        Some(dependencies) if any_multiversion(suite.sub_tasks) => Some(
            dependencies.push(binary_selection()),
        ),
        _ => None,
    }
}

/// The configuration with what was generated for one more task of a build variant.
pub open spec fn with_generated(
    config: GeneratedConfigView,
    variant: BuildVariantView,
    task_name: Seq<char>,
    suite: SuiteView,
    distro: Option<Seq<char>>,
) -> GeneratedConfigView {
    GeneratedConfigView {
        gen_task_specs: config.gen_task_specs + task_refs_of(
            suite,
            distro,
            ref_dependencies(variant, task_name, suite),
        ),
        display_tasks: config.display_tasks.push(display_task_of(suite)),
        generating_tasks: config.generating_tasks.push(task_name),
        includes_multiversion_tasks: config.includes_multiversion_tasks || any_multiversion(
            suite.sub_tasks,
        ),
    }
}

/// What was generated for the first `n` tasks of a build variant, or the first problem.
pub open spec fn config_of(
    exceptions: Option<Set<Seq<char>>>,
    context: VariantContextView,
    generated: Map<Seq<char>, SuiteView>,
    n: int,
) -> Result<GeneratedConfigView, ConfigErrorView>
    decreases n,
{
    if n <= 0 {
        Ok(empty_config())
    } else {
        let task_name = context.variant.tasks[n - 1].name;
        let name = generated_name(context, task_name);
        match config_of(exceptions, context, generated, n - 1) {
            Ok(config) => if task_name == BURN_IN_TAGS@ {
                Ok(
                    GeneratedConfigView {
                        generating_tasks: config.generating_tasks.push(BURN_IN_TAGS@),
                        ..config
                    },
                )
            } else if generated.contains_key(name) {
                match large_distro_of(exceptions, generated[name], context.variant) {
                    Ok(distro) => Ok(
                        with_generated(
                            config,
                            context.variant,
                            task_name,
                            generated[name],
                            distro,
                        ),
                    ),
                    Err(error) => Err(error),
                }
            } else {
                Ok(config)
            },
            Err(error) => Err(error),
        }
    }
}

/// The reference to the selection of multiversion binaries.
pub open spec fn binary_selection_ref() -> TaskRefView {
    TaskRefView {
        name: MULTIVERSION_BINARY_SELECTION@,
        depends_on: None,
        distros: None,
        activate: Some(false),
    }
}

/// The build variant that runs what was generated, if anything was.
pub open spec fn variant_with(name: Seq<char>, config: GeneratedConfigView) -> Option<
    BuildVariantView,
> {
    if config.generating_tasks.len() == 0 {
        None
    } else {
        Some(
            BuildVariantView {
                name,
                tasks: if config.includes_multiversion_tasks {
                    config.gen_task_specs.push(binary_selection_ref())
                } else {
                    config.gen_task_specs
                },
                display_tasks: Some(
                    config.display_tasks.push(
                        DisplayTaskView {
                            name: GENERATOR_TASKS@,
                            execution_tasks: config.generating_tasks,
                        },
                    ),
                ),
                activate: Some(false),
                ..empty_build_variant()
            },
        )
    }
}

/// The build variant that runs what was generated for a build variant, or the first problem.
pub open spec fn generated_variant(
    exceptions: Option<Set<Seq<char>>>,
    context: VariantContextView,
    generated: Map<Seq<char>, SuiteView>,
) -> Result<Option<BuildVariantView>, ConfigErrorView> {
    match config_of(exceptions, context, generated, context.variant.tasks.len() as int) {
        Ok(config) => Ok(variant_with(context.variant.name, config)),
        Err(error) => Err(error),
    }
}

/// A problem with one of the first tasks of a build variant is the problem with all of them.
proof fn lemma_first_problem(
    exceptions: Option<Set<Seq<char>>>,
    context: VariantContextView,
    generated: Map<Seq<char>, SuiteView>,
    n: int,
    m: int,
)
    requires
        0 <= n <= m,
        config_of(exceptions, context, generated, n) is Err,
    ensures
        config_of(exceptions, context, generated, m) == config_of(
            exceptions,
            context,
            generated,
            n,
        ),
    decreases m - n,
{
    if n < m {
        lemma_first_problem(exceptions, context, generated, n, m - 1);
    }
}

/// The result is the optional build variant, or the problem.
pub open spec fn variant_outcome(result: Result<Option<BuildVariant>, ConfigError>) -> Result<
    Option<BuildVariantView>,
    ConfigErrorView,
> {
    match result {
        Ok(variant) => Ok(variant.deep_view()),
        Err(error) => Err(error.deep_view()),
    }
}

impl GenerateTasksServiceImpl {
    /// Add what was generated for a task of a build variant to its configuration.
    fn add_generated(
        &self,
        config: &mut GeneratedConfig,
        build_variant: &BuildVariant,
        task_name: &str,
        generated_task: &GeneratedTask,
        large_distro: Option<String>,
    )
        ensures
            final(config).deep_view() == with_generated(
                old(config).deep_view(),
                build_variant.deep_view(),
                task_name@,
                generated_task.suite(),
                large_distro.deep_view(),
            ),
    {
        let ghost before = config.deep_view();
        let ghost suite = generated_task.suite();
        let ghost variant = build_variant.deep_view();
        let multiversion: bool = generated_task.is_multiversion();
        config.generating_tasks.push(task_name.to_owned());
        assert(config.generating_tasks.deep_view() =~= before.generating_tasks.push(task_name@));
        config.display_tasks.push(generated_task.build_display_task());
        assert(config.display_tasks.deep_view() =~= before.display_tasks.push(
            display_task_of(suite),
        ));
        // If a task is a multiversion task and it has dependencies overriden on the task reference
        // of the build variant, add the MULTIVERSION_BINARY_SELECTION task to those overrides too.
        let overridden: Option<Vec<TaskDependency>> =
            self.evg_config_utils.get_task_ref_dependencies(task_name, build_variant);
        let depends_on: Option<Vec<TaskDependency>> = match overridden {
            Some(mut dependencies) => if multiversion {
                let ghost listed = dependencies.deep_view();
                dependencies.push(
                    TaskDependency {
                        name: MULTIVERSION_BINARY_SELECTION.to_owned(),
                        variant: None,
                    },
                );
                assert(dependencies.deep_view() =~= listed.push(binary_selection()));
                Some(dependencies)
            } else {
                None
            },
            None => None,
        };
        assert(depends_on.deep_view() == ref_dependencies(variant, task_name@, suite));
        if multiversion {
            config.includes_multiversion_tasks = true;
        }
        let mut refs: Vec<TaskRef> = generated_task.build_task_ref(large_distro, depends_on);
        let ghost added = refs.deep_view();
        config.gen_task_specs.append(&mut refs);
        assert(config.gen_task_specs.deep_view() =~= before.gen_task_specs + added);
        assert(config.deep_view() =~= with_generated(
            before,
            variant,
            task_name@,
            suite,
            large_distro.deep_view(),
        ));
    }

    /// Create the definition of a build variant that runs the generated tasks of the given one.
    ///
    /// # Arguments
    ///
    /// * `context` - The build variant.
    /// * `generated_tasks` - Map of task names and their generated configuration.
    ///
    /// # Returns
    ///
    /// The build variant, if it runs any generated tasks.
    pub fn generate_build_variant(
        &self,
        context: &VariantContext,
        generated_tasks: &GenTaskCollection,
    ) -> (variant: Result<Option<BuildVariant>, ConfigError>)
        ensures
            variant_outcome(variant) == generated_variant(
                self.config_extraction_service.exceptions(),
                context.deep_view(),
                generated_tasks.deep_view(),
            ),
    {
        let ghost exceptions = self.config_extraction_service.exceptions();
        let ghost ctx = context.deep_view();
        let ghost generated = generated_tasks.deep_view();
        let build_variant: &BuildVariant = context.build_variant;
        let mut config = GeneratedConfig::new();
        let mut i: usize = 0;
        while i < build_variant.tasks.len()
            invariant
                i <= build_variant.tasks@.len(),
                exceptions == self.config_extraction_service.exceptions(),
                ctx == context.deep_view(),
                ctx.variant == build_variant.deep_view(),
                *build_variant == *context.build_variant,
                generated == generated_tasks.deep_view(),
                config_of(exceptions, ctx, generated, i as int) == Ok::<
                    GeneratedConfigView,
                    ConfigErrorView,
                >(config.deep_view()),
            decreases build_variant.tasks@.len() - i,
        {
            assert(ctx.variant.tasks[i as int] == build_variant.tasks[i as int].deep_view());
            let ghost before = config.deep_view();
            let task_name: &str = build_variant.tasks[i].name.as_str();
            if str_eq(task_name, BURN_IN_TAGS) {
                config.generating_tasks.push(BURN_IN_TAGS.to_owned());
                assert(config.generating_tasks.deep_view() =~= before.generating_tasks.push(
                    BURN_IN_TAGS@,
                ));
            } else {
                let name: String = if str_eq(task_name, BURN_IN_TESTS) {
                    burn_in_tests_name(build_variant.name.as_str())
                } else if str_eq(task_name, BURN_IN_TASKS) {
                    burn_in_tasks_name(build_variant.name.as_str())
                } else {
                    lookup_name_in(&self.evg_config_utils, context, task_name)
                };
                if let Some(generated_task) = generated_tasks.get(name.as_str()) {
                    assert(generated[name@] == generated_task.suite());
                    match self.config_extraction_service.determine_large_distro(
                        generated_task,
                        build_variant,
                    ) {
                        Ok(large_distro) => {
                            self.add_generated(
                                &mut config,
                                build_variant,
                                task_name,
                                generated_task,
                                large_distro,
                            );
                        },
                        Err(error) => {
                            proof {
                                lemma_first_problem(
                                    exceptions,
                                    ctx,
                                    generated,
                                    i + 1,
                                    ctx.variant.tasks.len() as int,
                                );
                            }
                            return Err(error);
                        },
                    }
                }
            }
            i += 1;
        }
        let ghost gathered = config.deep_view();
        // If any generated task is multiversion, ensure the MULTIVERSION_BINARY_SELECTION task is
        // added to the build variant.
        if config.includes_multiversion_tasks {
            config.gen_task_specs.push(
                TaskRef {
                    name: MULTIVERSION_BINARY_SELECTION.to_owned(),
                    depends_on: None,
                    distros: None,
                    activate: Some(false),
                },
            );
            assert(config.gen_task_specs.deep_view() =~= gathered.gen_task_specs.push(
                binary_selection_ref(),
            ));
        }
        if config.generating_tasks.len() == 0 {
            return Ok(None);
        }
        // Put all the "_gen" tasks into a display task to hide them from view.
        config.display_tasks.push(
            DisplayTask {
                name: GENERATOR_TASKS.to_owned(),
                execution_tasks: config.generating_tasks,
            },
        );
        assert(config.display_tasks.deep_view() =~= gathered.display_tasks.push(
            DisplayTaskView {
                name: GENERATOR_TASKS@,
                execution_tasks: gathered.generating_tasks,
            },
        ));
        Ok(
            Some(
                BuildVariant {
                    name: build_variant.name.clone(),
                    tasks: config.gen_task_specs,
                    display_name: None,
                    run_on: None,
                    display_tasks: Some(config.display_tasks),
                    batchtime: None,
                    expansions: None,
                    stepback: None,
                    modules: None,
                    depends_on: None,
                    activate: Some(false),
                },
            ),
        )
    }

    /// Create the definitions of the build variants that run the generated tasks of each build
    /// variant.
    fn generate_base_variants(
        &self,
        build_variant_map: &StringMap<&BuildVariant>,
        generated_tasks: &GenTaskCollection,
    ) -> (variants: Result<Vec<BuildVariant>, ConfigError>)
        ensures
            lists_once(
                build_variant_map.deep_view().dom(),
                key_order(build_variant_map.entries()),
            ),
            outcome(variants) == variants_in_order(
                self.config_extraction_service.exceptions(),
                key_order(build_variant_map.entries()),
                build_variant_map.deep_view(),
                generated_tasks.deep_view(),
            ),
    {
        let ghost exceptions = self.config_extraction_service.exceptions();
        let ghost generated = generated_tasks.deep_view();
        let ghost variant_map = build_variant_map.deep_view();
        let ghost entries = build_variant_map.entries();
        let ghost order = key_order(entries);
        let n: usize = build_variant_map.len();
        proof {
            lemma_key_order(*build_variant_map);
        }
        let mut variants: Vec<BuildVariant> = Vec::new();
        let mut i: usize = 0;
        assert(variants.deep_view() =~= Seq::<BuildVariantView>::empty());
        while i < n
            invariant
                i <= n,
                n == entries.len(),
                entries == build_variant_map.entries(),
                distinct_keys(entries),
                order == key_order(entries),
                lists_once(build_variant_map.deep_view().dom(), order),
                variant_map == build_variant_map.deep_view(),
                exceptions == self.config_extraction_service.exceptions(),
                generated == generated_tasks.deep_view(),
                variants_in_order(exceptions, order.take(i as int), variant_map, generated) == Ok::<
                    Seq<BuildVariantView>,
                    ConfigErrorView,
                >(variants.deep_view()),
            decreases n - i,
        {
            let build_variant: &BuildVariant = *build_variant_map.value(i);
            let ghost before = variants.deep_view();
            proof {
                lemma_entry(entries, i as int);
                assert(variant_map[order[i as int]] == build_variant.deep_view());
                assert(order.take(i + 1).drop_last() =~= order.take(i as int));
            }
            let context = self.find_context(build_variant);
            match self.generate_build_variant(&context, generated_tasks) {
                Ok(Some(variant)) => {
                    variants.push(variant);
                    assert(variants.deep_view() =~= before.push(variant.deep_view()));
                },
                Ok(None) => {},
                Err(error) => {
                    proof {
                        lemma_first_variant_problem(
                            exceptions,
                            order,
                            variant_map,
                            generated,
                            i + 1,
                        );
                    }
                    return Err(error);
                },
            }
            i += 1;
        }
        assert(order.take(i as int) =~= order);
        Ok(variants)
    }

    /// Gather what is known of the build variants that burn_in_tags tasks ask for.
    fn gather_tag_infos(&self, build_variant_map: &StringMap<&BuildVariant>) -> (infos: StringMap<
        BurnInTagBuildVariantInfo,
    >)
        requires
            all_tags_ready(build_variant_map.deep_view()),
        ensures
            infos.deep_view() == infos_of(
                build_variant_map.deep_view(),
                build_variant_map.deep_view().dom(),
            ),
    {
        let ghost variant_map = build_variant_map.deep_view();
        let ghost entries = build_variant_map.entries();
        let ghost mut done: Set<Seq<char>> = Set::empty();
        let n: usize = build_variant_map.len();
        let mut infos: StringMap<BurnInTagBuildVariantInfo> = StringMap::new();
        let mut i: usize = 0;
        assert(infos.deep_view() =~= infos_of(variant_map, done));
        while i < n
            invariant
                i <= n,
                n == entries.len(),
                entries == build_variant_map.entries(),
                distinct_keys(entries),
                variant_map == build_variant_map.deep_view(),
                all_tags_ready(variant_map),
                done.subset_of(variant_map.dom()),
                forall|j: int| 0 <= j < i ==> done.contains((#[trigger] entries[j]).0@),
                compile_tasks_agree(variant_map, done),
                infos.deep_view() == infos_of(variant_map, done),
            decreases n - i,
        {
            let build_variant: &BuildVariant = *build_variant_map.value(i);
            let ghost name = entries[i as int].0@;
            proof {
                lemma_entry(entries, i as int);
                assert(variant_map.contains_key(name));
                assert(variant_map[name] == build_variant.deep_view());
            }
            if runs_task(build_variant, BURN_IN_TAGS) {
                proof {
                    lemma_tags_fit(variant_map, done, name);
                    assert forall|a: Seq<char>, asked: Seq<char>|
                        done.contains(a) && #[trigger] asks_for(
                            variant_map,
                            a,
                            asked,
                        ) implies compile_task(variant_map[a]) is Some by {
                        assert(variant_map.contains_key(a));
                    }
                    lemma_infos_grow(variant_map, done, name);
                }
                generate_burn_in_build_variant_info(
                    &self.evg_config_utils,
                    &mut infos,
                    build_variant,
                    build_variant_map,
                );
            } else {
                proof {
                    lemma_infos_stay(variant_map, done, name);
                }
            }
            proof {
                done = done.insert(name);
            }
            i += 1;
        }
        proof {
            assert forall|name: Seq<char>| #[trigger] variant_map.contains_key(name) implies
                done.contains(name) by {
                let j = choose|j: int| key_at(entries, j, name);
                assert(done.contains(entries[j].0@));
            }
            assert(done =~= variant_map.dom());
        }
        infos
    }

    /// Create the definitions of the burn_in_tags build variants for which burn_in_tests have been
    /// generated.
    fn generate_tag_variants<M: MultiversionService>(
        &self,
        burn_in_service: &BurnInServiceImpl<M>,
        build_variant_map: &StringMap<&BuildVariant>,
        infos: &StringMap<BurnInTagBuildVariantInfo>,
        generated_tasks: &GenTaskCollection,
    ) -> (variants: Result<Vec<BuildVariant>, ConfigError>)
        requires
            infos.deep_view().dom().subset_of(build_variant_map.deep_view().dom()),
        ensures
            lists_once(infos.deep_view().dom(), key_order(infos.entries())),
            outcome(variants) == tag_variants_in_order(
                burn_in_service.config_extraction_service.exceptions(),
                key_order(infos.entries()),
                build_variant_map.deep_view(),
                infos.deep_view(),
                generated_tasks.deep_view(),
            ),
    {
        let ghost exceptions = burn_in_service.config_extraction_service.exceptions();
        let ghost generated = generated_tasks.deep_view();
        let ghost variant_map = build_variant_map.deep_view();
        let ghost info_map = infos.deep_view();
        let ghost entries = infos.entries();
        let ghost order = key_order(entries);
        let n: usize = infos.len();
        proof {
            lemma_key_order(*infos);
        }
        let mut variants: Vec<BuildVariant> = Vec::new();
        let mut i: usize = 0;
        assert(variants.deep_view() =~= Seq::<BuildVariantView>::empty());
        while i < n
            invariant
                i <= n,
                n == entries.len(),
                entries == infos.entries(),
                distinct_keys(entries),
                order == key_order(entries),
                lists_once(infos.deep_view().dom(), order),
                variant_map == build_variant_map.deep_view(),
                info_map == infos.deep_view(),
                info_map.dom().subset_of(variant_map.dom()),
                exceptions == burn_in_service.config_extraction_service.exceptions(),
                generated == generated_tasks.deep_view(),
                tag_variants_in_order(
                    exceptions,
                    order.take(i as int),
                    variant_map,
                    info_map,
                    generated,
                ) == Ok::<Seq<BuildVariantView>, ConfigErrorView>(variants.deep_view()),
            decreases n - i,
        {
            let ghost before = variants.deep_view();
            proof {
                lemma_entry(entries, i as int);
                assert(info_map.contains_key(order[i as int]));
                assert(info_map[order[i as int]] == entries[i as int].1.deep_view());
                assert(variant_map.contains_key(order[i as int]));
                assert(order.take(i + 1).drop_last() =~= order.take(i as int));
            }
            let base_build_variant: &BuildVariant = *build_variant_map.get(
                infos.key(i).as_str(),
            ).unwrap();
            let run_build_variant_name: String = burn_in_tags_variant_name(
                base_build_variant.name.as_str(),
            );
            let task_name: String = burn_in_tests_name(run_build_variant_name.as_str());
            if let Some(generated_task) = generated_tasks.get(task_name.as_str()) {
                match burn_in_service.generate_burn_in_tags_build_variant(
                    base_build_variant,
                    run_build_variant_name,
                    generated_task,
                    infos.value(i).compile_task_dependency.clone(),
                ) {
                    Ok(variant) => {
                        variants.push(variant);
                        assert(variants.deep_view() =~= before.push(variant.deep_view()));
                    },
                    Err(error) => {
                        proof {
                            lemma_first_tag_problem(
                                exceptions,
                                order,
                                variant_map,
                                info_map,
                                generated,
                                i + 1,
                            );
                        }
                        return Err(error);
                    },
                }
            }
            i += 1;
        }
        assert(order.take(i as int) =~= order);
        Ok(variants)
    }

    /// What is known of the build variants that burn_in_tags tasks ask for, if burn_in tasks should be
    /// generated.
    pub open spec fn tag_infos(&self) -> Map<Seq<char>, BurnInTagBuildVariantInfoView> {
        if self.gen_burn_in {
            infos_of(self.variant_map(), self.variant_map().dom())
        } else {
            Map::empty()
        }
    }

    /// All the build variants that run generated tasks: those of the project in one order, and the
    /// burn_in_tags build variants in another; or the first problem on the way.
    pub open spec fn variants_by(
        &self,
        order: Seq<Seq<char>>,
        tag_order: Seq<Seq<char>>,
        tag_exceptions: Option<Set<Seq<char>>>,
        generated: Map<Seq<char>, SuiteView>,
    ) -> Result<Seq<BuildVariantView>, ConfigErrorView> {
        match (
            variants_in_order(
                self.config_extraction_service.exceptions(),
                order,
                self.variant_map(),
                generated,
            ),
            tag_variants_in_order(
                tag_exceptions,
                tag_order,
                self.variant_map(),
                self.tag_infos(),
                generated,
            ),
        ) {
            (Ok(variants), Ok(tag_variants)) => Ok(variants + tag_variants),
            (Err(error), _) => Err(error),
            (_, Err(error)) => Err(error),
        }
    }

    /// Create build variants definitions containing all the generated tasks for each build variant.
    ///
    /// # Arguments
    ///
    /// * `burn_in_service` - Service to generate burn_in tasks.
    /// * `generated_tasks` - Map of task names and their generated configuration.
    ///
    /// # Returns
    ///
    /// Vector of shrub build variants with generated task information.
    pub fn generate_build_variants<M: MultiversionService>(
        &self,
        burn_in_service: &BurnInServiceImpl<M>,
        generated_tasks: &GenTaskCollection,
    ) -> (variants: Result<Vec<BuildVariant>, ConfigError>)
        requires
            self.gen_burn_in ==> all_tags_ready(self.variant_map()),
        ensures
            exists|order: Seq<Seq<char>>, tag_order: Seq<Seq<char>>|
                lists_once(self.variant_map().dom(), order) && lists_once(
                    self.tag_infos().dom(),
                    tag_order,
                ) && outcome(variants) == #[trigger] self.variants_by(
                    order,
                    tag_order,
                    burn_in_service.config_extraction_service.exceptions(),
                    generated_tasks.deep_view(),
                ),
    {
        let build_variant_map = self.evg_config_service.get_build_variant_map();
        let ghost variant_map = self.variant_map();
        let infos: StringMap<BurnInTagBuildVariantInfo> = if self.gen_burn_in {
            self.gather_tag_infos(&build_variant_map)
        } else {
            StringMap::new()
        };
        let ghost order = key_order(build_variant_map.entries());
        let ghost tag_order = key_order(infos.entries());
        proof {
            assert(infos.deep_view() =~= self.tag_infos());
            assert forall|name: Seq<char>| #[trigger] infos.deep_view().dom().contains(name) implies
                variant_map.dom().contains(name) by {
                let a = choose|a: Seq<char>|
                    variant_map.dom().contains(a) && #[trigger] asks_for(variant_map, a, name);
                assert(variant_map.contains_key(a));
                assert(is_burn_in_tag_variant(variant_map[a], variant_map, name));
            }
        }
        let ghost expected = self.variants_by(
            order,
            tag_order,
            burn_in_service.config_extraction_service.exceptions(),
            generated_tasks.deep_view(),
        );
        let base_variants = self.generate_base_variants(&build_variant_map, generated_tasks);
        let tag_variants = self.generate_tag_variants(
            burn_in_service,
            &build_variant_map,
            &infos,
            generated_tasks,
        );
        match (base_variants, tag_variants) {
            (Ok(mut variants), Ok(mut more)) => {
                let ghost first = variants.deep_view();
                let ghost second = more.deep_view();
                variants.append(&mut more);
                assert(variants.deep_view() =~= first + second);
                assert(outcome(Ok(variants)) == expected);
                Ok(variants)
            },
            (Err(error), _) => Err(error),
            (_, Err(error)) => Err(error),
        }
    }
}

/// The list holds each of the names once.
pub open spec fn lists_once(names: Set<Seq<char>>, list: Seq<Seq<char>>) -> bool {
    list.no_duplicates() && list.to_set() == names
}

/// The keys of the entries, in their order.
pub open spec fn key_order<V>(entries: Seq<(String, V)>) -> Seq<Seq<char>> {
    Seq::new(entries.len(), |i: int| entries[i].0@)
}

/// The keys of the entries of a map are its keys.
proof fn lemma_key_order<V: DeepView>(map: StringMap<V>)
    requires
        distinct_keys(map.entries()),
    ensures
        lists_once(map.deep_view().dom(), key_order(map.entries())),
{
    let entries = map.entries();
    let order = key_order(entries);
    assert forall|i: int, j: int| 0 <= i < j < order.len() implies #[trigger] order[i]
        != #[trigger] order[j] by {
        assert(entries[i].0@ != entries[j].0@);
    }
    assert forall|name: Seq<char>| #[trigger] order.to_set().contains(name)
        <==> map.deep_view().dom().contains(name) by {
        if order.contains(name) {
            let i = order.index_of(name);
            assert(entries[i].0@ == name);
            lemma_entry(entries, i);
        }
        if map.deep_view().dom().contains(name) {
            let i = choose|i: int| key_at(entries, i, name);
            assert(order[i] == name);
        }
    }
    assert(order.to_set() =~= map.deep_view().dom());
}

/// The build variants that run the generated tasks of the named ones, or the first problem.
pub open spec fn variants_in_order(
    exceptions: Option<Set<Seq<char>>>,
    order: Seq<Seq<char>>,
    variant_map: Map<Seq<char>, BuildVariantView>,
    generated: Map<Seq<char>, SuiteView>,
) -> Result<Seq<BuildVariantView>, ConfigErrorView>
    decreases order.len(),
{
    if order.len() == 0 {
        Ok(Seq::empty())
    } else {
        match variants_in_order(exceptions, order.drop_last(), variant_map, generated) {
            Ok(before) => match generated_variant(
                exceptions,
                context_of(variant_map[order.last()]),
                generated,
            ) {
                Ok(Some(variant)) => Ok(before.push(variant)),
                Ok(None) => Ok(before),
                Err(error) => Err(error),
            },
            Err(error) => Err(error),
        }
    }
}

/// The burn_in_tags build variants based on the named ones, as far as burn_in_tests have been
/// generated for them, or the first problem.
pub open spec fn tag_variants_in_order(
    exceptions: Option<Set<Seq<char>>>,
    order: Seq<Seq<char>>,
    variant_map: Map<Seq<char>, BuildVariantView>,
    infos: Map<Seq<char>, BurnInTagBuildVariantInfoView>,
    generated: Map<Seq<char>, SuiteView>,
) -> Result<Seq<BuildVariantView>, ConfigErrorView>
    decreases order.len(),
{
    if order.len() == 0 {
        Ok(Seq::empty())
    } else {
        let base = variant_map[order.last()];
        let run_name = dashed(base.name, BURN_IN_BV_SUFFIX@);
        let task_name = dashed(BURN_IN_TESTS_PREFIX@, run_name);
        match tag_variants_in_order(exceptions, order.drop_last(), variant_map, infos, generated) {
            Ok(before) => if generated.contains_key(task_name) {
                match burn_in_tag_variant_of(
                    exceptions,
                    base,
                    run_name,
                    generated[task_name],
                    infos[order.last()].compile_task_dependency,
                ) {
                    Ok(variant) => Ok(before.push(variant)),
                    Err(error) => Err(error),
                }
            } else {
                Ok(before)
            },
            Err(error) => Err(error),
        }
    }
}

/// A problem with one of the first build variants is the problem with all of them.
proof fn lemma_first_variant_problem(
    exceptions: Option<Set<Seq<char>>>,
    order: Seq<Seq<char>>,
    variant_map: Map<Seq<char>, BuildVariantView>,
    generated: Map<Seq<char>, SuiteView>,
    n: int,
)
    requires
        0 <= n <= order.len(),
        variants_in_order(exceptions, order.take(n), variant_map, generated) is Err,
    ensures
        variants_in_order(exceptions, order, variant_map, generated) == variants_in_order(
            exceptions,
            order.take(n),
            variant_map,
            generated,
        ),
    decreases order.len() - n,
{
    if n < order.len() {
        assert(order.take(n + 1).drop_last() =~= order.take(n));
        lemma_first_variant_problem(exceptions, order, variant_map, generated, n + 1);
    } else {
        assert(order.take(n) =~= order);
    }
}

/// A problem with one of the first burn_in_tags build variants is the problem with all of them.
proof fn lemma_first_tag_problem(
    exceptions: Option<Set<Seq<char>>>,
    order: Seq<Seq<char>>,
    variant_map: Map<Seq<char>, BuildVariantView>,
    infos: Map<Seq<char>, BurnInTagBuildVariantInfoView>,
    generated: Map<Seq<char>, SuiteView>,
    n: int,
)
    requires
        0 <= n <= order.len(),
        tag_variants_in_order(exceptions, order.take(n), variant_map, infos, generated) is Err,
    ensures
        tag_variants_in_order(exceptions, order, variant_map, infos, generated)
            == tag_variants_in_order(exceptions, order.take(n), variant_map, infos, generated),
    decreases order.len() - n,
{
    if n < order.len() {
        assert(order.take(n + 1).drop_last() =~= order.take(n));
        lemma_first_tag_problem(exceptions, order, variant_map, infos, generated, n + 1);
    } else {
        assert(order.take(n) =~= order);
    }
}

} // verus!
