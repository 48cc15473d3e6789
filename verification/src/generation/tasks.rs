//! How a single task is generated.

use vstd::prelude::*;

use crate::errors::{ConfigError, ConfigErrorView};
use crate::evergreen::evg_config::build_variants_by_name;
use crate::evergreen::evg_config_utils::{gen_task_var, multiversion_tasks_of, task_tags};
use crate::evergreen::model::{BuildVariant, BuildVariantView, EvgTask, EvgTaskView};
use crate::evergreen_names::{IS_FUZZER, MULTIVERSION};
use crate::generation::limits::{capped_fuzzer, TaskBudget};
use crate::generation::plan::{
    context_of, GenerateTasksServiceImpl, GenerationStep, GenerationStepView, VariantContext,
    VariantContextView,
};
use crate::services::config_extraction::{
    fuzzer_params_of, has_valid_suites, num_files_of, resmoke_params_of, valid_suites,
};
use crate::task_types::fuzzer_tasks::{fuzzer_tasks, FuzzerGenTaskParamsView, FuzzerTask};
use crate::task_types::resmoke_tasks::{suites_needed, ResmokeGenParams, ResmokeGenParamsView};
use crate::utils::lists::push_text;
use crate::utils::string_map::StringMap;
use crate::utils::text::contains_str;

verus! {

/// What becomes of a task definition.
pub enum TaskPlan {
    /// A fuzzer, which is generated from its definition alone.
    Fuzzer(FuzzerTask),
    /// A resmoke task, which is split once the tests of its suites are known.
    Resmoke(ResmokeGenParams),
}

/// The parameters of a task.
pub enum TaskParamsView {
    Fuzzer(FuzzerGenTaskParamsView),
    Resmoke(ResmokeGenParamsView),
}

/// The task is a fuzzer.
pub open spec fn is_fuzzer(task: EvgTaskView) -> bool {
    gen_task_var(task, IS_FUZZER@) == Some("true"@)
}

/// The suites of the task can be told, and a multiversion fuzzer names its multiversion suites.
pub open spec fn can_plan(task_def: EvgTask) -> bool {
    &&& valid_suites(task_def)
    &&& is_fuzzer(task_def.deep_view()) && task_tags(task_def.deep_view()).contains(MULTIVERSION@)
        ==> multiversion_tasks_of(task_def) is Some
}

/// The plan is what the parameters ask for.
pub open spec fn plans(plan: TaskPlan, params: TaskParamsView) -> bool {
    match params {
        TaskParamsView::Fuzzer(params) => plan matches TaskPlan::Fuzzer(task) && task.task_name@
            == params.task_name && task.sub_tasks.deep_view() == fuzzer_tasks(params),
        TaskParamsView::Resmoke(params) => plan matches TaskPlan::Resmoke(p) && p.deep_view()
            == params,
    }
}

/// The result is a plan for the parameters, or their problem.
pub open spec fn plans_outcome(
    plan: Result<TaskPlan, ConfigError>,
    params: Result<TaskParamsView, ConfigErrorView>,
) -> bool {
    match params {
        Ok(params) => plan matches Ok(plan) && plans(plan, params),
        Err(error) => plan matches Err(e) && e.deep_view() == error,
    }
}

/// The parameters of a task, those of a fuzzer within what may still be generated.
pub open spec fn within(
    params: Result<TaskParamsView, ConfigErrorView>,
    remaining: Option<usize>,
) -> Result<TaskParamsView, ConfigErrorView> {
    match (params, remaining) {
        (Ok(TaskParamsView::Fuzzer(params)), Some(remaining)) => Ok(
            TaskParamsView::Fuzzer(capped_fuzzer(params, remaining as nat)),
        ),
        _ => params,
    }
}

/// The texts of a list, each of them once, where it occurs first.
pub open spec fn first_occurrences(list: Seq<Seq<char>>) -> Seq<Seq<char>>
    decreases list.len(),
{
    if list.len() == 0 {
        Seq::empty()
    } else {
        let before = first_occurrences(list.drop_last());
        if before.contains(list.last()) {
            before
        } else {
            before.push(list.last())
        }
    }
}

/// The suites that a task needs the tests of, as far as they can be told.
pub open spec fn known_suites(params: ResmokeGenParamsView) -> Seq<Seq<char>> {
    if params.require_multiversion_generate_tasks && params.multiversion_generate_tasks is None {
        Seq::empty()
    } else {
        suites_needed(params)
    }
}

/// The suites that tasks need the tests of, in the order of the tasks.
pub open spec fn suites_of_all(tasks: Seq<ResmokeGenParamsView>) -> Seq<Seq<char>>
    decreases tasks.len(),
{
    if tasks.len() == 0 {
        Seq::empty()
    } else {
        suites_of_all(tasks.drop_last()) + known_suites(tasks.last())
    }
}

/// Add a text to a list, if it is not there yet.
fn add_once(list: &mut Vec<String>, text: &str, Ghost(all): Ghost<Seq<Seq<char>>>)
    requires
        old(list).deep_view() == first_occurrences(all),
    ensures
        final(list).deep_view() == first_occurrences(all.push(text@)),
{
    assert(all.push(text@).drop_last() =~= all);
    if !contains_str(list, text) {
        push_text(list, text);
    }
}

/// Find the suites that tasks need the tests of, each of them once.
///
/// # Arguments
///
/// * `tasks` - Parameters for how the tasks should be generated.
pub fn find_suites(tasks: &Vec<ResmokeGenParams>) -> (suites: Vec<String>)
    ensures
        suites.deep_view() == first_occurrences(suites_of_all(tasks.deep_view())),
{
    let ghost views = tasks.deep_view();
    let mut suites: Vec<String> = Vec::new();
    let mut i: usize = 0;
    assert(suites.deep_view() =~= first_occurrences(suites_of_all(views.take(0))));
    while i < tasks.len()
        invariant
            i <= tasks@.len(),
            views == tasks.deep_view(),
            suites.deep_view() == first_occurrences(suites_of_all(views.take(i as int))),
        decreases tasks@.len() - i,
    {
        let params: &ResmokeGenParams = &tasks[i];
        let ghost before = suites_of_all(views.take(i as int));
        let ghost more = known_suites(params.deep_view());
        assert(views.take(i + 1).drop_last() =~= views.take(i as int));
        assert(views.take(i + 1).last() == params.deep_view());
        assert(before + more.take(0) =~= before);
        if params.require_multiversion_generate_tasks {
            if let Some(configs) = &params.multiversion_generate_tasks {
                let mut j: usize = 0;
                while j < configs.len()
                    invariant
                        j <= configs@.len(),
                        more.len() == configs@.len(),
                        forall|k: int| 0 <= k < configs@.len() ==> #[trigger] more[k] == configs@[k].suite_name@,
                        suites.deep_view() == first_occurrences(before + more.take(j as int)),
                    decreases configs@.len() - j,
                {
                    add_once(
                        &mut suites,
                        configs[j].suite_name.as_str(),
                        Ghost(before + more.take(j as int)),
                    );
                    j += 1;
                    assert((before + more.take(j - 1)).push(more[j - 1]) =~= before + more.take(
                        j as int,
                    ));
                }
                assert(more.take(j as int) =~= more);
            }
        } else {
            add_once(&mut suites, params.suite_name.as_str(), Ghost(before));
            assert(before.push(params.suite_name@) =~= before + more);
        }
        assert(more.len() == 0 ==> before + more =~= before);
        i += 1;
    }
    assert(views.take(i as int) =~= views);
    suites
}

impl GenerateTasksServiceImpl {
    /// The parameters of a task that is no fuzzer.
    pub open spec fn resmoke_task_params(
        &self,
        task_def: EvgTask,
        context: VariantContextView,
    ) -> Result<TaskParamsView, ConfigErrorView> {
        match resmoke_params_of(
            self.config_extraction_service.generating_task@,
            self.config_extraction_service.config_location@,
            task_def,
            context.is_enterprise,
            Some(context.variant),
            Some(context.platform),
        ) {
            Ok(params) => Ok(TaskParamsView::Resmoke(params)),
            Err(error) => Err(error),
        }
    }

    /// The parameters of a fuzzer that generates the given number of files.
    pub open spec fn fuzzer_task_params(
        &self,
        task_def: EvgTask,
        variant: BuildVariantView,
        num_files: Seq<char>,
    ) -> Result<TaskParamsView, ConfigErrorView> {
        match fuzzer_params_of(
            self.config_extraction_service.generating_task@,
            self.config_extraction_service.config_location@,
            task_def,
            variant,
            num_files,
        ) {
            Ok(params) => Ok(TaskParamsView::Fuzzer(params)),
            Err(error) => Err(error),
        }
    }

    /// The parameters of a task.
    pub open spec fn task_params(&self, task_def: EvgTask, variant: BuildVariantView) -> Result<
        TaskParamsView,
        ConfigErrorView,
    > {
        if is_fuzzer(task_def.deep_view()) {
            self.fuzzer_task_params(
                task_def,
                variant,
                num_files_of(task_def.deep_view(), variant).unwrap(),
            )
        } else {
            self.resmoke_task_params(task_def, context_of(variant))
        }
    }

    /// Can the task be generated from its definition?
    ///
    /// # Arguments
    ///
    /// * `task_def` - Task definition to base generated task on.
    pub fn can_generate_task(&self, task_def: &EvgTask) -> (can: bool)
        ensures
            can == can_plan(*task_def),
    {
        if !has_valid_suites(task_def) {
            return false;
        }
        if self.evg_config_utils.is_task_fuzzer(task_def) && self.evg_config_utils.get_task_tags(
            task_def,
        ).contains(MULTIVERSION) {
            return self.evg_config_utils.get_multiversion_generate_tasks(task_def).is_some();
        }
        true
    }

    /// Plan a task that is no fuzzer, for the given build variant.
    ///
    /// # Arguments
    ///
    /// * `task_def` - Task definition to base generated task on.
    /// * `context` - Build Variant to base generated task on.
    pub fn plan_resmoke_task(&self, task_def: &EvgTask, context: &VariantContext) -> (plan: Result<
        TaskPlan,
        ConfigError,
    >)
        requires
            valid_suites(*task_def),
        ensures
            plans_outcome(plan, self.resmoke_task_params(*task_def, context.deep_view())),
    {
        match self.config_extraction_service.task_def_to_resmoke_params(
            task_def,
            context.is_enterprise,
            Some(context.build_variant),
            Some(context.platform.clone()),
        ) {
            Ok(params) => Ok(TaskPlan::Resmoke(params)),
            Err(error) => Err(error),
        }
    }

    /// Plan a fuzzer that generates the given number of files.
    ///
    /// # Arguments
    ///
    /// * `task_def` - Task definition to base generated task on.
    /// * `build_variant` - Build Variant to base generated task on.
    /// * `num_files` - Number of files to generate.
    pub fn plan_fuzzer_task(
        &self,
        task_def: &EvgTask,
        build_variant: &BuildVariant,
        num_files: String,
    ) -> (plan: Result<TaskPlan, ConfigError>)
        requires
            can_plan(*task_def),
            is_fuzzer(task_def.deep_view()),
        ensures
            plans_outcome(
                plan,
                self.fuzzer_task_params(*task_def, build_variant.deep_view(), num_files@),
            ),
    {
        match self.config_extraction_service.fuzzer_params_with(task_def, build_variant, num_files) {
            Ok(params) => {
                assert(params.deep_view().multiversion_generate_tasks == multiversion_tasks_of(
                    *task_def,
                ));
                Ok(TaskPlan::Fuzzer(self.gen_fuzzer_service.generate_fuzzer_task(&params)))
            },
            Err(error) => Err(error),
        }
    }

    /// Generate a task for the given task definition, as far as that can be done from the definition
    /// alone.
    ///
    /// # Arguments
    ///
    /// * `task_def` - Task definition to base generated task on.
    /// * `build_variant` - Build Variant to base generated task on.
    ///
    /// # Returns
    ///
    /// A generated fuzzer, or the parameters of a resmoke task.
    pub fn generate_task(&self, task_def: &EvgTask, build_variant: &BuildVariant) -> (plan: Result<
        TaskPlan,
        ConfigError,
    >)
        requires
            can_plan(*task_def),
            is_fuzzer(task_def.deep_view()) ==> num_files_of(
                task_def.deep_view(),
                build_variant.deep_view(),
            ) is Some,
        ensures
            plans_outcome(plan, self.task_params(*task_def, build_variant.deep_view())),
    {
        if self.evg_config_utils.is_task_fuzzer(task_def) {
            let num_files: String = self.config_extraction_service.find_num_files(
                task_def,
                build_variant,
            ).unwrap();
            self.plan_fuzzer_task(task_def, build_variant, num_files)
        } else {
            let context = self.find_context(build_variant);
            self.plan_resmoke_task(task_def, &context)
        }
    }

    /// Generate a task for the given task definition, if a fuzzer names the number of files to
    /// generate.
    ///
    /// # Arguments
    ///
    /// * `task_def` - Task definition to base generated task on.
    /// * `build_variant` - Build Variant to base generated task on.
    ///
    /// # Returns
    ///
    /// A generated fuzzer, or the parameters of a resmoke task; nothing for a fuzzer without a number
    /// of files.
    pub fn find_generated_task(&self, task_def: &EvgTask, build_variant: &BuildVariant) -> (plan:
        Option<Result<TaskPlan, ConfigError>>)
        requires
            can_plan(*task_def),
        ensures
            plan is None <==> is_fuzzer(task_def.deep_view()) && num_files_of(
                task_def.deep_view(),
                build_variant.deep_view(),
            ) is None,
            plan matches Some(plan) ==> plans_outcome(
                plan,
                self.task_params(*task_def, build_variant.deep_view()),
            ),
    {
        if self.evg_config_utils.is_task_fuzzer(task_def)
            && self.config_extraction_service.find_num_files(task_def, build_variant).is_none() {
            None
        } else {
            Some(self.generate_task(task_def, build_variant))
        }
    }

    /// Generate a task for the given task definition, a fuzzer within what may still be generated.
    ///
    /// # Arguments
    ///
    /// * `task_def` - Task definition to base generated task on.
    /// * `build_variant` - Build Variant to base generated task on.
    /// * `budget` - How many tasks may still be generated.
    ///
    /// # Returns
    ///
    /// A generated fuzzer, or the parameters of a resmoke task; nothing for a fuzzer without a number
    /// of files.
    pub fn find_task_within(
        &self,
        task_def: &EvgTask,
        build_variant: &BuildVariant,
        budget: &TaskBudget,
    ) -> (plan: Option<Result<TaskPlan, ConfigError>>)
        requires
            can_plan(*task_def),
        ensures
            plan is None <==> is_fuzzer(task_def.deep_view()) && num_files_of(
                task_def.deep_view(),
                build_variant.deep_view(),
            ) is None,
            plan matches Some(plan) ==> plans_outcome(
                plan,
                within(
                    self.task_params(*task_def, build_variant.deep_view()),
                    budget.remaining,
                ),
            ),
    {
        if !self.evg_config_utils.is_task_fuzzer(task_def) {
            return self.find_generated_task(task_def, build_variant);
        }
        match self.config_extraction_service.find_num_files(task_def, build_variant) {
            Some(num_files) => Some(
                match self.config_extraction_service.fuzzer_params_with(
                    task_def,
                    build_variant,
                    num_files,
                ) {
                    Ok(mut params) => {
                        assert(params.deep_view().multiversion_generate_tasks
                            == multiversion_tasks_of(*task_def));
                        budget.cap_fuzzer(&mut params);
                        Ok(TaskPlan::Fuzzer(self.gen_fuzzer_service.generate_fuzzer_task(&params)))
                    },
                    Err(error) => Err(error),
                },
            ),
            None => None,
        }
    }

    /// The suites that a step discovers the tests of, as far as they can be told.
    pub open spec fn suites_of_step(
        &self,
        step: GenerationStepView,
        tasks: Map<Seq<char>, EvgTask>,
    ) -> Seq<Seq<char>> {
        let variants = build_variants_by_name(
            self.evg_config_service.evg_project.buildvariants.deep_view(),
        );
        match step {
            GenerationStepView::Task { name, build_variant, task_name } => if tasks.contains_key(
                task_name,
            ) && variants.contains_key(build_variant) && can_plan(tasks[task_name]) {
                match self.task_params(tasks[task_name], variants[build_variant]) {
                    Ok(TaskParamsView::Resmoke(params)) => known_suites(params),
                    _ => Seq::empty(),
                }
            } else {
                Seq::empty()
            },
            _ => Seq::empty(),
        }
    }

    /// The suites that steps discover the tests of, in the order of the steps.
    pub open spec fn suites_of_steps(
        &self,
        steps: Seq<GenerationStepView>,
        tasks: Map<Seq<char>, EvgTask>,
    ) -> Seq<Seq<char>>
        decreases steps.len(),
    {
        if steps.len() == 0 {
            Seq::empty()
        } else {
            self.suites_of_steps(steps.drop_last(), tasks) + self.suites_of_step(
                steps.last(),
                tasks,
            )
        }
    }

    /// Find the parameters of the resmoke task that a step generates, if it generates one.
    fn find_resmoke_params(
        &self,
        step: &GenerationStep,
        task_map: &StringMap<EvgTask>,
        variants: &StringMap<&BuildVariant>,
    ) -> (params: Option<ResmokeGenParams>)
        requires
            variants.deep_view() == build_variants_by_name(
                self.evg_config_service.evg_project.buildvariants.deep_view(),
            ),
        ensures
            match params {
                Some(params) => self.suites_of_step(step.deep_view(), task_map@) == known_suites(
                    params.deep_view(),
                ),
                None => self.suites_of_step(step.deep_view(), task_map@) == Seq::<
                    Seq<char>,
                >::empty(),
            },
    {
        if let GenerationStep::Task { name, build_variant, task_name } = step {
            if let Some(task_def) = task_map.get(task_name.as_str()) {
                if let Some(variant) = variants.get(build_variant.as_str()) {
                    assert(variants.deep_view()[build_variant@] == variant.deep_view());
                    if self.can_generate_task(task_def) {
                        if let Some(Ok(TaskPlan::Resmoke(params))) = self.find_generated_task(
                            task_def,
                            *variant,
                        ) {
                            return Some(params);
                        }
                    }
                } else {
                    assert(!variants.deep_view().contains_key(build_variant@));
                }
            }
        }
        None
    }

    /// Find the suites that a plan discovers the tests of, each of them once.
    ///
    /// # Arguments
    ///
    /// * `steps` - Steps of the plan.
    /// * `task_map` - Map of task definitions in evergreen project configuration.
    pub fn suites_of_plan(&self, steps: &Vec<GenerationStep>, task_map: &StringMap<EvgTask>) -> (
    suites: Vec<String>)
        ensures
            suites.deep_view() == first_occurrences(
                self.suites_of_steps(steps.deep_view(), task_map@),
            ),
    {
        let ghost views = steps.deep_view();
        let variants = self.evg_config_service.get_build_variant_map();
        let mut tasks: Vec<ResmokeGenParams> = Vec::new();
        let mut i: usize = 0;
        assert(suites_of_all(tasks.deep_view()) =~= self.suites_of_steps(
            views.take(0),
            task_map@,
        ));
        while i < steps.len()
            invariant
                i <= steps@.len(),
                views == steps.deep_view(),
                variants.deep_view() == build_variants_by_name(
                    self.evg_config_service.evg_project.buildvariants.deep_view(),
                ),
                suites_of_all(tasks.deep_view()) == self.suites_of_steps(
                    views.take(i as int),
                    task_map@,
                ),
            decreases steps@.len() - i,
        {
            assert(views.take(i + 1).drop_last() =~= views.take(i as int));
            assert(views.take(i + 1).last() == steps[i as int].deep_view());
            let ghost before = tasks.deep_view();
            match self.find_resmoke_params(&steps[i], task_map, &variants) {
                Some(params) => {
                    tasks.push(params);
                    assert(tasks.deep_view() =~= before.push(params.deep_view()));
                    assert(tasks.deep_view().drop_last() =~= before);
                },
                None => {
                    assert(suites_of_all(before) + Seq::<Seq<char>>::empty() =~= suites_of_all(
                        before,
                    ));
                },
            }
            i += 1;
        }
        assert(views.take(i as int) =~= views);
        find_suites(&tasks)
    }
}

} // verus!
