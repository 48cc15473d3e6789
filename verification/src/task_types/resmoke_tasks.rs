//! Service for generating resmoke tasks.
//!
//! This service will use the historic runtime of tests in the given task to divide the tests into
//! sub-suites that can be run in parallel.
//!
//! Each task will contain the generated sub-suites.

use rand::prelude::SliceRandom;
use rand::thread_rng;
use vstd::prelude::*;

use crate::evergreen::evg_config_utils::{
    MultiversionGenerateTaskConfig, MultiversionGenerateTaskConfigView,
};
use crate::evergreen::model::{
    call_of, call_with, clone_optional_vars, clone_vars, empty_task, fn_call, fn_call_with_params,
    new_vars, push_command, set_var, text_param, BuildVariant, BuildVariantView, EvgCommand,
    EvgCommandView, EvgTask, EvgTaskView, ParamValue, ParamValueView, TaskDependency, Vars,
    VarsView,
};
use crate::evergreen::evg_task_history::{TaskRuntimeHistory, TestRuntimeHistory};
use crate::evergreen_names::{
    ADD_GIT_TAG, CONFIGURE_EVG_API_CREDS, DO_MULTIVERSION_SETUP, DO_SETUP, GEN_TASK_CONFIG_LOCATION,
    GET_PROJECT_WITH_NO_MODULES, MULTIVERSION_EXCLUDE_TAG, MULTIVERSION_EXCLUDE_TAGS_FILE,
    REQUIRE_MULTIVERSION_SETUP, RESMOKE_ARGS, RESMOKE_JOBS_MAX, RUN_GENERATED_TESTS, SUITE_NAME,
};
use crate::task_types::fuzzer_tasks::{build_dependencies, dependencies_of};
use crate::task_types::generated_suite::{
    GeneratedSubTask, GeneratedSubTaskView, GeneratedSuite, SuiteView,
};
use crate::task_types::multiversion::MultiversionService;
use crate::task_types::test_splitting::{
    divide_by_runtime, divide_evenly, split_by_runtime, split_evenly,
};
use crate::utils::lists::{clone_texts, keep_flagged, kept, push_text};
use crate::utils::number::{decimal, format_decimal};
use crate::utils::task_name::{generated_task_name, name_generated_task};
use crate::utils::text::{contains_str, starts_with};

verus! {

/// Parameters describing how a specific resmoke suite should be generated.
#[derive(Debug, PartialEq, Default)]
pub struct ResmokeGenParams {
    /// Name of task being generated.
    pub task_name: String,
    /// Multiversion tasks to generate.
    pub multiversion_generate_tasks: Option<Vec<MultiversionGenerateTaskConfig>>,
    /// Name of suite being generated.
    pub suite_name: String,
    /// Should the generated tasks run on a 'large' distro.
    pub use_large_distro: bool,
    /// Should the generated tasks run on a 'xlarge' distro.
    pub use_xlarge_distro: bool,
    /// Does the task require multiversion setup.
    pub require_multiversion_setup: bool,
    /// Should multiversion generate tasks exist for this.
    pub require_multiversion_generate_tasks: bool,
    /// Specify how many times resmoke should repeat the suite being tested.
    pub repeat_suites: Option<u64>,
    /// Arguments that should be passed to resmoke.
    pub resmoke_args: String,
    /// Number of jobs to limit resmoke to.
    pub resmoke_jobs_max: Option<u64>,
    /// Location where generated task configuration will be stored in S3.
    pub config_location: String,
    /// List of tasks generated sub-tasks should depend on.
    pub dependencies: Vec<String>,
    /// Is the task for enterprise builds.
    pub is_enterprise: bool,
    /// Arguments to pass to 'run tests' function.
    pub pass_through_vars: Option<Vars>,
    /// Name of platform the task will run on.
    pub platform: Option<String>,
    /// Name of variant specific suffix to add to tasks
    pub gen_task_suffix: Option<String>,
    /// Number of sub-tasks requested in the task's Evergreen YAML definition.
    pub num_tasks: Option<usize>,
}

/// What a [`ResmokeGenParams`] holds.
pub struct ResmokeGenParamsView {
    pub task_name: Seq<char>,
    pub multiversion_generate_tasks: Option<Seq<MultiversionGenerateTaskConfigView>>,
    pub suite_name: Seq<char>,
    pub use_large_distro: bool,
    pub use_xlarge_distro: bool,
    pub require_multiversion_setup: bool,
    pub require_multiversion_generate_tasks: bool,
    pub repeat_suites: Option<u64>,
    pub resmoke_args: Seq<char>,
    pub resmoke_jobs_max: Option<u64>,
    pub config_location: Seq<char>,
    pub dependencies: Seq<Seq<char>>,
    pub is_enterprise: bool,
    pub pass_through_vars: Option<VarsView>,
    pub platform: Option<Seq<char>>,
    pub gen_task_suffix: Option<Seq<char>>,
    pub num_tasks: Option<usize>,
}

impl DeepView for ResmokeGenParams {
    type V = ResmokeGenParamsView;

    open spec fn deep_view(&self) -> ResmokeGenParamsView {
        ResmokeGenParamsView {
            task_name: self.task_name@,
            multiversion_generate_tasks: self.multiversion_generate_tasks.deep_view(),
            suite_name: self.suite_name@,
            use_large_distro: self.use_large_distro,
            use_xlarge_distro: self.use_xlarge_distro,
            require_multiversion_setup: self.require_multiversion_setup,
            require_multiversion_generate_tasks: self.require_multiversion_generate_tasks,
            repeat_suites: self.repeat_suites,
            resmoke_args: self.resmoke_args@,
            resmoke_jobs_max: self.resmoke_jobs_max,
            config_location: self.config_location@,
            dependencies: self.dependencies.deep_view(),
            is_enterprise: self.is_enterprise,
            pass_through_vars: self.pass_through_vars.deep_view(),
            platform: self.platform.deep_view(),
            gen_task_suffix: self.gen_task_suffix.deep_view(),
            num_tasks: self.num_tasks,
        }
    }
}

impl Clone for ResmokeGenParams {
    fn clone(&self) -> (copy: Self)
        ensures
            copy.deep_view() == self.deep_view(),
    {
        let multiversion_generate_tasks = self.multiversion_generate_tasks.clone();
        assert(multiversion_generate_tasks.deep_view() =~~= self.multiversion_generate_tasks.deep_view());
        let dependencies = self.dependencies.clone();
        assert(dependencies.deep_view() =~~= self.dependencies.deep_view());
        let pass_through_vars = clone_optional_vars(&self.pass_through_vars);
        ResmokeGenParams {
            task_name: self.task_name.clone(),
            multiversion_generate_tasks,
            suite_name: self.suite_name.clone(),
            use_large_distro: self.use_large_distro,
            use_xlarge_distro: self.use_xlarge_distro,
            require_multiversion_setup: self.require_multiversion_setup,
            require_multiversion_generate_tasks: self.require_multiversion_generate_tasks,
            repeat_suites: self.repeat_suites,
            resmoke_args: self.resmoke_args.clone(),
            resmoke_jobs_max: self.resmoke_jobs_max,
            config_location: self.config_location.clone(),
            dependencies,
            is_enterprise: self.is_enterprise,
            pass_through_vars,
            platform: self.platform.clone(),
            gen_task_suffix: self.gen_task_suffix.clone(),
            num_tasks: self.num_tasks,
        }
    }
}

/// Representation of generated sub-suite.
#[derive(Debug, PartialEq, Default)]
pub struct SubSuite {
    /// Index value of generated suite, none for the suite of miscellaneous tests.
    pub index: Option<usize>,
    /// Name of generated sub-suite.
    pub name: String,
    /// List of tests belonging to sub-suite.
    pub test_list: Vec<String>,
    /// Suite the generated suite is based off.
    pub origin_suite: String,
    /// List of tests that should be excluded from sub-suite.
    pub exclude_test_list: Option<Vec<String>>,
    /// Multiversion exclude tags.
    pub mv_exclude_tags: Option<String>,
    /// Is sub-suite for a enterprise build_variant.
    pub is_enterprise: bool,
    /// Platform of build_variant the sub-suite is for.
    pub platform: Option<String>,
}

/// What a [`SubSuite`] holds.
pub struct SubSuiteView {
    pub index: Option<usize>,
    pub name: Seq<char>,
    pub test_list: Seq<Seq<char>>,
    pub origin_suite: Seq<char>,
    pub exclude_test_list: Option<Seq<Seq<char>>>,
    pub mv_exclude_tags: Option<Seq<char>>,
    pub is_enterprise: bool,
    pub platform: Option<Seq<char>>,
}

impl DeepView for SubSuite {
    type V = SubSuiteView;

    open spec fn deep_view(&self) -> SubSuiteView {
        SubSuiteView {
            index: self.index,
            name: self.name@,
            test_list: self.test_list.deep_view(),
            origin_suite: self.origin_suite@,
            exclude_test_list: self.exclude_test_list.deep_view(),
            mv_exclude_tags: self.mv_exclude_tags.deep_view(),
            is_enterprise: self.is_enterprise,
            platform: self.platform.deep_view(),
        }
    }
}

impl Clone for SubSuite {
    fn clone(&self) -> (copy: Self)
        ensures
            copy.deep_view() == self.deep_view(),
    {
        let test_list = self.test_list.clone();
        assert(test_list.deep_view() =~~= self.test_list.deep_view());
        let exclude_test_list = self.exclude_test_list.clone();
        assert(exclude_test_list.deep_view() =~~= self.exclude_test_list.deep_view());
        SubSuite {
            index: self.index,
            name: self.name.clone(),
            test_list,
            origin_suite: self.origin_suite.clone(),
            exclude_test_list,
            mv_exclude_tags: self.mv_exclude_tags.clone(),
            is_enterprise: self.is_enterprise,
            platform: self.platform.clone(),
        }
    }
}

/// Information needed to generate resmoke configuration files for the generated task.
#[derive(Debug, PartialEq)]
pub struct ResmokeSuiteGenerationInfo {
    /// Name of task being generated.
    pub task_name: String,
    /// Name of resmoke suite generated task is based on.
    pub origin_suite: String,
    /// List of generated sub-suites comprising task.
    pub sub_suites: Vec<SubSuite>,
    /// If true, sub-tasks should be generated for the multiversion generate tasks.
    pub require_multiversion_generate_tasks: bool,
}

/// What a [`ResmokeSuiteGenerationInfo`] holds.
pub struct ResmokeSuiteGenerationInfoView {
    pub task_name: Seq<char>,
    pub origin_suite: Seq<char>,
    pub sub_suites: Seq<SubSuiteView>,
    pub require_multiversion_generate_tasks: bool,
}

impl DeepView for ResmokeSuiteGenerationInfo {
    type V = ResmokeSuiteGenerationInfoView;

    open spec fn deep_view(&self) -> ResmokeSuiteGenerationInfoView {
        ResmokeSuiteGenerationInfoView {
            task_name: self.task_name@,
            origin_suite: self.origin_suite@,
            sub_suites: self.sub_suites.deep_view(),
            require_multiversion_generate_tasks: self.require_multiversion_generate_tasks,
        }
    }
}

impl Clone for ResmokeSuiteGenerationInfo {
    fn clone(&self) -> (copy: Self)
        ensures
            copy.deep_view() == self.deep_view(),
    {
        let sub_suites = self.sub_suites.clone();
        assert(sub_suites.deep_view() =~~= self.sub_suites.deep_view());
        ResmokeSuiteGenerationInfo {
            task_name: self.task_name.clone(),
            origin_suite: self.origin_suite.clone(),
            sub_suites,
            require_multiversion_generate_tasks: self.require_multiversion_generate_tasks,
        }
    }
}

/// Representation of a generated resmoke suite.
#[derive(Debug, PartialEq, Default)]
pub struct GeneratedResmokeSuite {
    /// Name of display task to create.
    pub task_name: String,
    /// Sub suites that comprise generated task.
    pub sub_suites: Vec<GeneratedSubTask>,
}

/// What a [`GeneratedResmokeSuite`] holds.
pub struct GeneratedResmokeSuiteView {
    pub task_name: Seq<char>,
    pub sub_suites: Seq<GeneratedSubTaskView>,
}

impl DeepView for GeneratedResmokeSuite {
    type V = GeneratedResmokeSuiteView;

    open spec fn deep_view(&self) -> GeneratedResmokeSuiteView {
        GeneratedResmokeSuiteView {
            task_name: self.task_name@,
            sub_suites: self.sub_suites.deep_view(),
        }
    }
}

impl Clone for GeneratedResmokeSuite {
    fn clone(&self) -> (copy: Self)
        ensures
            copy.deep_view() == self.deep_view(),
    {
        let sub_suites = self.sub_suites.clone();
        assert(sub_suites.deep_view() =~~= self.sub_suites.deep_view());
        GeneratedResmokeSuite {
            task_name: self.task_name.clone(),
            sub_suites,
        }
    }
}

impl GeneratedSuite for GeneratedResmokeSuite {
    open spec fn suite(&self) -> SuiteView {
        SuiteView { display_name: self.task_name@, sub_tasks: self.sub_suites.deep_view() }
    }

    /// Get the display name to use for the generated task.
    fn display_name(&self) -> (name: String) {
        self.task_name.clone()
    }

    /// Get the list of sub-tasks that comprise the generated task.
    fn sub_tasks(&self) -> (sub_tasks: Vec<GeneratedSubTask>) {
        let sub_tasks = self.sub_suites.clone();
        assert(sub_tasks.deep_view() =~~= self.sub_suites.deep_view());
        sub_tasks
    }
}

/// The resmoke arguments of a sub-task.
pub open spec fn resmoke_args_of(
    params: ResmokeGenParamsView,
    exclude_tags: Seq<char>,
    origin_suite: Seq<char>,
) -> Seq<char> {
    "--originSuite="@ + origin_suite + " "@ + (match params.repeat_suites {
        Some(repeat) => "--repeatSuites="@ + decimal(repeat as nat),
        None => Seq::empty(),
    }) + " "@ + (if params.require_multiversion_setup {
        "--tagFile=generated_resmoke_config/"@ + MULTIVERSION_EXCLUDE_TAGS_FILE@
            + " --excludeWithAnyTags="@ + exclude_tags
    } else {
        Seq::empty()
    }) + " "@ + params.resmoke_args
}

/// The suite that a sub-task runs.
pub open spec fn run_suite_of(suite_file: Seq<char>, suite_override: Option<Seq<char>>) -> Seq<char> {
    match suite_override {
        Some(suite) => suite,
        None => "generated_resmoke_config/"@ + suite_file + ".yml"@,
    }
}

/// The vars for the 'run tests' function of a sub-task.
pub open spec fn run_test_vars_of(
    params: ResmokeGenParamsView,
    suite_file: Seq<char>,
    sub_suite: SubSuiteView,
    exclude_tags: Seq<char>,
    suite_override: Option<Seq<char>>,
) -> VarsView {
    let passed = match params.pass_through_vars {
        Some(vars) => vars,
        None => Map::empty(),
    };
    let vars = passed.insert(
        REQUIRE_MULTIVERSION_SETUP@,
        ParamValueView::Bool(params.require_multiversion_setup),
    ).insert(
        RESMOKE_ARGS@,
        ParamValueView::String(resmoke_args_of(params, exclude_tags, sub_suite.origin_suite)),
    ).insert(SUITE_NAME@, ParamValueView::String(run_suite_of(suite_file, suite_override))).insert(
        GEN_TASK_CONFIG_LOCATION@,
        ParamValueView::String(params.config_location),
    );
    let tagged = match sub_suite.mv_exclude_tags {
        Some(tags) => vars.insert(MULTIVERSION_EXCLUDE_TAG@, ParamValueView::String(tags)),
        None => vars,
    };
    match params.resmoke_jobs_max {
        Some(jobs) => tagged.insert(RESMOKE_JOBS_MAX@, ParamValueView::Number(jobs)),
        None => tagged,
    }
}

impl ResmokeGenParams {
    /// Build the vars to send to the tasks in the 'run tests' function.
    ///
    /// # Arguments
    ///
    /// * `suite_file` - Name of suite file to run.
    /// * `sub_suite` - Sub-suite to run.
    /// * `exclude_tags` - Resmoke tags to exclude.
    /// * `suite_override` - Suite to run in place of the suite file.
    ///
    /// # Returns
    ///
    /// Map of arguments to pass to 'run tests' function.
    pub fn build_run_test_vars(
        &self,
        suite_file: &str,
        sub_suite: &SubSuite,
        exclude_tags: &str,
        suite_override: Option<String>,
    ) -> (vars: Vars)
        ensures
            vars.deep_view() == run_test_vars_of(
                self.deep_view(),
                suite_file@,
                sub_suite.deep_view(),
                exclude_tags@,
                suite_override.deep_view(),
            ),
    {
        let mut vars: Vars = match &self.pass_through_vars {
            Some(passed) => clone_vars(passed),
            None => new_vars(),
        };
        let resmoke_args: String = self.build_resmoke_args(
            exclude_tags,
            sub_suite.origin_suite.as_str(),
        );
        let suite: String = match &suite_override {
            Some(suite) => suite.clone(),
            None => {
                let mut suite: String = "generated_resmoke_config/".to_owned();
                suite.append(suite_file);
                suite.append(".yml");
                suite
            },
        };
        set_var(
            &mut vars,
            REQUIRE_MULTIVERSION_SETUP,
            ParamValue::Bool(self.require_multiversion_setup),
        );
        set_var(&mut vars, RESMOKE_ARGS, ParamValue::String(resmoke_args));
        set_var(&mut vars, SUITE_NAME, ParamValue::String(suite));
        set_var(&mut vars, GEN_TASK_CONFIG_LOCATION, text_param(self.config_location.as_str()));
        if let Some(tags) = &sub_suite.mv_exclude_tags {
            set_var(&mut vars, MULTIVERSION_EXCLUDE_TAG, text_param(tags.as_str()));
        }
        if let Some(jobs) = self.resmoke_jobs_max {
            set_var(&mut vars, RESMOKE_JOBS_MAX, ParamValue::Number(jobs));
        }
        vars
    }

    /// Build the resmoke arguments to use for a generate sub-task.
    ///
    /// # Arguments
    ///
    /// * `exclude_tags` - Resmoke tags to exclude.
    /// * `origin_suite` - Suite the generated suite is based on.
    ///
    /// # Returns
    ///
    /// String of arguments to pass to resmoke.
    pub fn build_resmoke_args(&self, exclude_tags: &str, origin_suite: &str) -> (args: String)
        ensures
            args@ == resmoke_args_of(self.deep_view(), exclude_tags@, origin_suite@),
    {
        let mut args: String = "--originSuite=".to_owned();
        args.append(origin_suite);
        args.append(" ");
        if let Some(repeat) = self.repeat_suites {
            args.append("--repeatSuites=");
            args.append(format_decimal(repeat).as_str());
        }
        args.append(" ");
        if self.require_multiversion_setup {
            args.append("--tagFile=generated_resmoke_config/");
            args.append(MULTIVERSION_EXCLUDE_TAGS_FILE);
            args.append(" --excludeWithAnyTags=");
            args.append(exclude_tags);
        }
        args.append(" ");
        args.append(self.resmoke_args.as_str());
        assert(args@ =~= resmoke_args_of(self.deep_view(), exclude_tags@, origin_suite@));
        args
    }

    /// Build the dependency structure to use the the generated sub-tasks.
    ///
    /// # Returns
    ///
    /// List of `TaskDependency`s for generated tasks.
    pub fn get_dependencies(&self) -> (dependencies: Option<Vec<TaskDependency>>)
        ensures
            dependencies.deep_view() == dependencies_of(self.dependencies.deep_view()),
    {
        build_dependencies(&self.dependencies)
    }
}

/// The commands of a resmoke task.
pub open spec fn resmoke_commands_of(
    run_test_fn_name: Seq<char>,
    run_test_vars: VarsView,
    requires_multiversion_setup: bool,
) -> Seq<EvgCommandView> {
    (if requires_multiversion_setup {
        seq![call_of(GET_PROJECT_WITH_NO_MODULES@), call_of(ADD_GIT_TAG@)]
    } else {
        Seq::empty()
    }) + seq![call_of(DO_SETUP@), call_of(CONFIGURE_EVG_API_CREDS@)] + (
    if requires_multiversion_setup {
        seq![call_of(DO_MULTIVERSION_SETUP@)]
    } else {
        Seq::empty()
    }) + seq![call_with(run_test_fn_name, run_test_vars)]
}

/// Create a list of commands to run a resmoke task in evergreen.
///
/// # Arguments
///
/// * `run_test_fn_name` - Name of function to run tests.
/// * `run_test_vars` - Variable to pass to the run tests function.
/// * `requires_multiversion_setup` - Does the task require multiversion setup.
///
/// # Returns
///
/// A list of evergreen commands comprising the task.
pub fn resmoke_commands(
    run_test_fn_name: &str,
    run_test_vars: Vars,
    requires_multiversion_setup: bool,
) -> (commands: Vec<EvgCommand>)
    ensures
        commands.deep_view() == resmoke_commands_of(
            run_test_fn_name@,
            run_test_vars.deep_view(),
            requires_multiversion_setup,
        ),
{
    let ghost vars = run_test_vars.deep_view();
    let mut commands: Vec<EvgCommand> = Vec::new();
    if requires_multiversion_setup {
        push_command(&mut commands, fn_call(GET_PROJECT_WITH_NO_MODULES));
        push_command(&mut commands, fn_call(ADD_GIT_TAG));
    }
    push_command(&mut commands, fn_call(DO_SETUP));
    push_command(&mut commands, fn_call(CONFIGURE_EVG_API_CREDS));
    if requires_multiversion_setup {
        push_command(&mut commands, fn_call(DO_MULTIVERSION_SETUP));
    }
    push_command(&mut commands, fn_call_with_params(run_test_fn_name, run_test_vars));
    assert(commands.deep_view() =~= resmoke_commands_of(
        run_test_fn_name@,
        vars,
        requires_multiversion_setup,
    ));
    commands
}

/// What the display name of a required build variant starts with.
pub const REQUIRED_PREFIX: &'static str = "!";

/// How many sub-tasks to generate for a task.
#[derive(Debug, Clone, Copy, PartialEq)]
pub struct SubtaskLimits {
    /// Ideal total test runtime (in nanoseconds) for individual subtasks on required variants,
    /// used to determine the number of subtasks for tasks on required variants.
    pub test_runtime_per_required_subtask: i64,
    /// Threshold of total test runtime (in nanoseconds) for a required task to be considered large
    /// enough to warrant splitting into more that the default number of tasks.
    pub large_required_task_runtime_threshold: i64,
    /// Default number of subtasks that should be generated for tasks
    pub default_subtasks_per_task: usize,
    /// Maximum number of subtasks that can be generated for tasks
    pub max_subtasks_per_task: usize,
}

/// How resmoke tasks should be generated.
#[derive(Debug, PartialEq)]
pub struct GenResmokeConfig {
    /// Disable evergreen task-history queries and use task splitting fallback.
    pub use_task_split_fallback: bool,
    /// Enterprise directory.
    pub enterprise_dir: Option<String>,
}

impl GenResmokeConfig {
    /// Create a new GenResmokeConfig.
    ///
    /// # Arguments
    ///
    /// * `use_task_split_fallback` - Disable evergreen task-history queries and use task
    ///    splitting fallback.
    /// * `enterprise_dir` - Directory enterprise files are stored in.
    ///
    /// # Returns
    ///
    /// New instance of `GenResmokeConfig`.
    pub fn new(use_task_split_fallback: bool, enterprise_dir: Option<String>) -> (config: Self)
        ensures
            config.use_task_split_fallback == use_task_split_fallback,
            config.enterprise_dir == enterprise_dir,
    {
        GenResmokeConfig { use_task_split_fallback, enterprise_dir }
    }
}

/// The runtime of the tests in a history that are among the given ones.
pub open spec fn total_runtime(
    entries: Seq<(String, TestRuntimeHistory)>,
    tests: Seq<Seq<char>>,
) -> int
    decreases entries.len(),
{
    if entries.len() == 0 {
        0
    } else {
        total_runtime(entries.drop_last(), tests) + (if tests.contains(
            entries.last().1.test_name@,
        ) {
            entries.last().1.average_runtime as int
        } else {
            0
        })
    }
}

/// The number of sub-tasks beyond the default that a task gets whose runtime is over the threshold
/// by `over`.
pub open spec fn extra_subtasks(over: int, per_subtask: int) -> int {
    if per_subtask < 0 {
        0
    } else if per_subtask == 0 || over / per_subtask > usize::MAX {
        usize::MAX as int
    } else {
        over / per_subtask
    }
}

/// The number of sub-tasks that a task should have, going by its runtime.
pub open spec fn ideal_subtasks(
    limits: SubtaskLimits,
    num_tasks: Option<usize>,
    display_name: Option<Seq<char>>,
    runtime: int,
) -> int {
    match num_tasks {
        Some(num_tasks) => num_tasks as int,
        None => if REQUIRED_PREFIX@.is_prefix_of(display_name.unwrap()) && runtime
            > limits.large_required_task_runtime_threshold {
            limits.default_subtasks_per_task + extra_subtasks(
                runtime - limits.large_required_task_runtime_threshold,
                limits.test_runtime_per_required_subtask as int,
            )
        } else {
            limits.default_subtasks_per_task as int
        },
    }
}

/// The number of sub-tasks that a task gets: as many as it should have, but no more than it has
/// tests, or than are allowed.
pub open spec fn subtask_count(
    limits: SubtaskLimits,
    num_tasks: Option<usize>,
    display_name: Option<Seq<char>>,
    runtime: int,
    tests: nat,
) -> int {
    let ideal = ideal_subtasks(limits, num_tasks, display_name, runtime);
    let allowed = limits.max_subtasks_per_task as int;
    let least = if ideal < tests {
        ideal
    } else {
        tests as int
    };
    if least < allowed {
        least
    } else {
        allowed
    }
}

/// The number of sub-tasks that a task gets without a runtime history: as many as are requested,
/// but no more than it has tests, or than are allowed.
pub open spec fn fallback_count(limits: SubtaskLimits, num_tasks: Option<usize>, tests: nat) -> int {
    let requested = match num_tasks {
        Some(num_tasks) => num_tasks as int,
        None => limits.default_subtasks_per_task as int,
    };
    let allowed = limits.max_subtasks_per_task as int;
    let least = if requested < tests {
        requested
    } else {
        tests as int
    };
    if least < allowed {
        least
    } else {
        allowed
    }
}

/// The sub-suites of a task, given the tests of each.
pub open spec fn sub_suites_of(
    params: ResmokeGenParamsView,
    multiversion_name: Option<Seq<char>>,
    multiversion_tags: Option<Seq<char>>,
    suites: Seq<Seq<Seq<char>>>,
) -> Seq<SubSuiteView> {
    Seq::new(
        suites.len(),
        |i: int|
            SubSuiteView {
                index: Some(i as usize),
                name: match multiversion_name {
                    Some(name) => name,
                    None => params.task_name,
                },
                test_list: suites[i],
                origin_suite: match multiversion_name {
                    Some(name) => name,
                    None => params.suite_name,
                },
                exclude_test_list: None,
                mv_exclude_tags: multiversion_tags,
                is_enterprise: params.is_enterprise,
                platform: params.platform,
            },
    )
}

/// The tests that stand outside the enterprise directory.
pub open spec fn outside_dir(tests: Seq<Seq<char>>, dir: Seq<char>) -> Seq<Seq<char>>
    decreases tests.len(),
{
    if tests.len() == 0 {
        Seq::empty()
    } else if dir.is_prefix_of(tests.last()) {
        outside_dir(tests.drop_last(), dir)
    } else {
        outside_dir(tests.drop_last(), dir).push(tests.last())
    }
}

/// The tests of a task: those of its suite that exist, without those of the enterprise module if
/// the task is not for it.
pub open spec fn selected_tests(
    params: ResmokeGenParamsView,
    enterprise_dir: Option<Seq<char>>,
    discovered: Seq<Seq<char>>,
    existing: Seq<bool>,
) -> Seq<Seq<char>> {
    let found = kept(discovered, existing);
    match enterprise_dir {
        Some(dir) => if params.is_enterprise {
            found
        } else {
            outside_dir(found, dir)
        },
        None => found,
    }
}

/// Calls `rand::seq::SliceRandom::shuffle` with `rand::thread_rng`, which puts the tests into a
/// random order. The contract claims that the same tests are still there, each as often as before.
/// It says nothing of their order.
#[verifier::external_body]
fn shuffle(tests: &mut Vec<String>)
    ensures
        final(tests).deep_view().to_multiset() == old(tests).deep_view().to_multiset(),
{
    tests.shuffle(&mut thread_rng());
}

/// What is known of a suite that is to be split.
#[derive(Debug, PartialEq)]
pub struct SuiteTests {
    /// The tests of the suite.
    pub test_list: Vec<String>,
    /// The runtime history of the task, if it could be obtained.
    pub history: Option<TaskRuntimeHistory>,
}

/// Implementation of service to generate resmoke tasks.
pub struct GenResmokeTaskServiceImpl<M> {
    /// Service for generating multiversion configurations.
    pub multiversion_service: M,
    /// Configuration for generating resmoke tasks.
    pub config: GenResmokeConfig,
    /// How many sub-tasks to generate for a task.
    pub subtask_limits: SubtaskLimits,
}

/// The number of sub-tasks of a task with a runtime history can be told: the build variant has a
/// display name if it matters, the number fits the machine, and there is a sub-task for the tests.
pub open spec fn can_split(
    limits: SubtaskLimits,
    params: ResmokeGenParamsView,
    variant: BuildVariantView,
    history: TaskRuntimeHistory,
    tests: Seq<Seq<char>>,
) -> bool {
    let runtime = total_runtime(history.test_map.entries(), tests);
    let ideal = ideal_subtasks(limits, params.num_tasks, variant.display_name, runtime);
    &&& params.num_tasks is None ==> variant.display_name is Some
    &&& ideal <= usize::MAX
    &&& tests.len() > 0 ==> ideal > 0 && limits.max_subtasks_per_task > 0
}

/// The tests of a task without a runtime history can be split: there is a sub-task for the tests.
pub open spec fn can_split_fallback(
    limits: SubtaskLimits,
    params: ResmokeGenParamsView,
    tests: Seq<Seq<char>>,
) -> bool {
    tests.len() > 0 ==> fallback_count(limits, params.num_tasks, tests.len()) > 0
}

/// The sub-suites of a task with a runtime history.
pub open spec fn split_task_of(
    limits: SubtaskLimits,
    params: ResmokeGenParamsView,
    variant: BuildVariantView,
    history: TaskRuntimeHistory,
    tests: Seq<Seq<char>>,
    multiversion_name: Option<Seq<char>>,
    multiversion_tags: Option<Seq<char>>,
) -> Seq<SubSuiteView> {
    let count = subtask_count(
        limits,
        params.num_tasks,
        variant.display_name,
        total_runtime(history.test_map.entries(), tests),
        tests.len(),
    );
    sub_suites_of(
        params,
        multiversion_name,
        multiversion_tags,
        split_by_runtime(history.test_map.deep_view(), tests, count as nat),
    )
}

/// The sub-suites of a task without a runtime history.
pub open spec fn split_fallback_of(
    limits: SubtaskLimits,
    params: ResmokeGenParamsView,
    tests: Seq<Seq<char>>,
    multiversion_name: Option<Seq<char>>,
    multiversion_tags: Option<Seq<char>>,
) -> Seq<SubSuiteView> {
    if tests.len() == 0 {
        Seq::empty()
    } else {
        sub_suites_of(
            params,
            multiversion_name,
            multiversion_tags,
            split_evenly(tests, fallback_count(limits, params.num_tasks, tests.len()) as nat),
        )
    }
}

impl<M: MultiversionService> GenResmokeTaskServiceImpl<M> {
    /// Create a new instance of the service implementation.
    ///
    /// # Arguments
    ///
    /// * `multiversion_service` - An instance of the service for multiversion configurations.
    /// * `config` - Configuration for how resmoke tasks should be generated.
    /// * `subtask_limits` - How many sub-tasks to generate for a task.
    ///
    /// # Returns
    ///
    /// New instance of GenResmokeTaskService.
    pub fn new(multiversion_service: M, config: GenResmokeConfig, subtask_limits: SubtaskLimits) -> (service:
        Self)
        ensures
            service.multiversion_service == multiversion_service,
            service.config == config,
            service.subtask_limits == subtask_limits,
    {
        GenResmokeTaskServiceImpl { multiversion_service, config, subtask_limits }
    }

    /// Choose the tests of a suite that belong to the task.
    ///
    /// # Arguments
    ///
    /// * `params` - Parameters about the suite being split.
    /// * `discovered` - Tests that were discovered in the suite.
    /// * `existing` - For each of the tests, is there such a file.
    pub fn select_tests(&self, params: &ResmokeGenParams, discovered: &Vec<String>, existing: &Vec<bool>) -> (tests:
        Vec<String>)
        requires
            discovered@.len() == existing@.len(),
        ensures
            tests.deep_view() == selected_tests(
                params.deep_view(),
                self.config.enterprise_dir.deep_view(),
                discovered.deep_view(),
                existing@,
            ),
    {
        let found: Vec<String> = keep_flagged(discovered, existing);
        if params.is_enterprise {
            return found;
        }
        match &self.config.enterprise_dir {
            Some(dir) => {
                let ghost all = found.deep_view();
                let mut tests: Vec<String> = Vec::new();
                let mut i: usize = 0;
                assert(tests.deep_view() =~= outside_dir(all.take(0), dir@));
                while i < found.len()
                    invariant
                        i <= found@.len(),
                        all == found.deep_view(),
                        tests.deep_view() == outside_dir(all.take(i as int), dir@),
                    decreases found@.len() - i,
                {
                    assert(all.take(i + 1).drop_last() =~= all.take(i as int));
                    assert(all.take(i + 1).last() == found[i as int]@);
                    if !starts_with(found[i].as_str(), dir.as_str()) {
                        push_text(&mut tests, found[i].as_str());
                    }
                    i += 1;
                }
                assert(all.take(i as int) =~= all);
                tests
            },
            None => found,
        }
    }

    /// Get the list of tests belonging to the suite being generated, in a random order.
    ///
    /// # Arguments
    ///
    /// * `params` - Parameters about the suite being split.
    /// * `discovered` - Tests that were discovered in the suite.
    /// * `existing` - For each of the tests, is there such a file.
    ///
    /// # Returns
    ///
    /// List of tests belonging to suite being split.
    pub fn get_test_list(&self, params: &ResmokeGenParams, discovered: &Vec<String>, existing: &Vec<bool>) -> (tests:
        Vec<String>)
        requires
            discovered@.len() == existing@.len(),
        ensures
            tests.deep_view().to_multiset() == selected_tests(
                params.deep_view(),
                self.config.enterprise_dir.deep_view(),
                discovered.deep_view(),
                existing@,
            ).to_multiset(),
    {
        let mut tests: Vec<String> = self.select_tests(params, discovered, existing);
        shuffle(&mut tests);
        tests
    }

    /// Can the given task be split into sub-tasks by the runtime of its tests?
    pub fn is_splittable(
        &self,
        params: &ResmokeGenParams,
        task_stats: &TaskRuntimeHistory,
        build_variant: &BuildVariant,
        test_list: &Vec<String>,
    ) -> (splittable: bool)
        ensures
            splittable == can_split(
                self.subtask_limits,
                params.deep_view(),
                build_variant.deep_view(),
                *task_stats,
                test_list.deep_view(),
            ),
    {
        if params.num_tasks.is_none() && build_variant.display_name.is_none() {
            return false;
        }
        let runtime: i128 = self.total_runtime(task_stats, test_list);
        match self.ideal_num_tasks(params, build_variant, runtime) {
            Some(ideal) => test_list.len() == 0 || (ideal > 0
                && self.subtask_limits.max_subtasks_per_task > 0),
            None => false,
        }
    }

    /// The runtime of the tests in a history that are among the given ones.
    fn total_runtime(&self, task_stats: &TaskRuntimeHistory, test_list: &Vec<String>) -> (runtime: i128)
        ensures
            runtime == total_runtime(task_stats.test_map.entries(), test_list.deep_view()),
            -0x7fff_ffff_ffff_ffff_8000_0000_0000_0000 <= runtime
                <= 0x7fff_ffff_ffff_fffe_8000_0000_0000_0001,
    {
        let n: usize = task_stats.test_map.len();
        let ghost entries = task_stats.test_map.entries();
        let mut runtime: i128 = 0;
        let mut i: usize = 0;
        while i < n
            invariant
                i <= n,
                n == entries.len(),
                entries == task_stats.test_map.entries(),
                runtime == total_runtime(entries.take(i as int), test_list.deep_view()),
                -(i * 0x8000_0000_0000_0000) <= runtime <= i * 0x7fff_ffff_ffff_ffff,
            decreases n - i,
        {
            assert(entries.take(i + 1).drop_last() =~= entries.take(i as int));
            assert(entries.take(i + 1).last() == entries[i as int]);
            let history: &TestRuntimeHistory = task_stats.test_map.value(i);
            if contains_str(test_list, history.test_name.as_str()) {
                runtime = runtime + history.average_runtime as i128;
            }
            i += 1;
        }
        assert(entries.take(i as int) =~= entries);
        runtime
    }

    /// The number of sub-tasks that a task should have, if it fits the machine.
    fn ideal_num_tasks(
        &self,
        params: &ResmokeGenParams,
        build_variant: &BuildVariant,
        runtime: i128,
    ) -> (ideal: Option<usize>)
        requires
            params.num_tasks is None ==> build_variant.display_name is Some,
            -0x7fff_ffff_ffff_ffff_8000_0000_0000_0000 <= runtime
                <= 0x7fff_ffff_ffff_fffe_8000_0000_0000_0001,
        ensures
            ({
                let expected = ideal_subtasks(
                    self.subtask_limits,
                    params.num_tasks,
                    build_variant.display_name.deep_view(),
                    runtime as int,
                );
                match ideal {
                    Some(ideal) => ideal == expected,
                    None => expected > usize::MAX,
                }
            }),
    {
        let limits: &SubtaskLimits = &self.subtask_limits;
        if let Some(num_tasks) = params.num_tasks {
            return Some(num_tasks);
        }
        let required: bool = match &build_variant.display_name {
            Some(name) => starts_with(name.as_str(), REQUIRED_PREFIX),
            None => false,
        };
        if required && runtime > limits.large_required_task_runtime_threshold as i128 {
            let over: i128 = runtime - limits.large_required_task_runtime_threshold as i128;
            let per_subtask: i64 = limits.test_runtime_per_required_subtask;
            let extra: usize = if per_subtask < 0 {
                0
            } else if per_subtask == 0 {
                usize::MAX
            } else {
                let quotient: u128 = over as u128 / per_subtask as u128;
                if quotient > usize::MAX as u128 {
                    usize::MAX
                } else {
                    quotient as usize
                }
            };
            limits.default_subtasks_per_task.checked_add(extra)
        } else {
            Some(limits.default_subtasks_per_task)
        }
    }

    /// Split the given task into a number of sub-tasks for parallel execution.
    ///
    /// # Arguments
    ///
    /// * `params` - Parameters for how tasks should be generated.
    /// * `task_stats` - Statistics on the historic runtimes of tests in the task.
    /// * `multiversion_name` - Name of task if performing multiversion generation.
    /// * `multiversion_tags` - Tag to use when performing multiversion generation.
    /// * `build_variant` - Build variant to base generation off of.
    /// * `test_list` - Tests of the task.
    ///
    /// # Returns
    ///
    /// A list of sub-suites to run the tests is the given task.
    pub fn split_task(
        &self,
        params: &ResmokeGenParams,
        task_stats: &TaskRuntimeHistory,
        multiversion_name: Option<&str>,
        multiversion_tags: Option<String>,
        build_variant: &BuildVariant,
        test_list: Vec<String>,
    ) -> (sub_suites: Vec<SubSuite>)
        requires
            can_split(
                self.subtask_limits,
                params.deep_view(),
                build_variant.deep_view(),
                *task_stats,
                test_list.deep_view(),
            ),
        ensures
            sub_suites.deep_view() == split_task_of(
                self.subtask_limits,
                params.deep_view(),
                build_variant.deep_view(),
                *task_stats,
                test_list.deep_view(),
                multiversion_name.deep_view(),
                multiversion_tags.deep_view(),
            ),
    {
        let runtime: i128 = self.total_runtime(task_stats, &test_list);
        let ideal: usize = match self.ideal_num_tasks(params, build_variant, runtime) {
            Some(ideal) => ideal,
            None => usize::MAX,
        };
        let mut num_tasks: usize = ideal;
        if test_list.len() < num_tasks {
            num_tasks = test_list.len();
        }
        if self.subtask_limits.max_subtasks_per_task < num_tasks {
            num_tasks = self.subtask_limits.max_subtasks_per_task;
        }
        let suites: Vec<Vec<String>> = divide_by_runtime(test_list, task_stats, num_tasks);
        self.build_sub_suites(params, multiversion_name, multiversion_tags, suites)
    }

    /// Give the tests of each sub-suite the form of a sub-suite.
    fn build_sub_suites(
        &self,
        params: &ResmokeGenParams,
        multiversion_name: Option<&str>,
        multiversion_tags: Option<String>,
        suites: Vec<Vec<String>>,
    ) -> (sub_suites: Vec<SubSuite>)
        ensures
            sub_suites.deep_view() == sub_suites_of(
                params.deep_view(),
                multiversion_name.deep_view(),
                multiversion_tags.deep_view(),
                suites.deep_view(),
            ),
    {
        let ghost expected = sub_suites_of(
            params.deep_view(),
            multiversion_name.deep_view(),
            multiversion_tags.deep_view(),
            suites.deep_view(),
        );
        let mut sub_suites: Vec<SubSuite> = Vec::new();
        let mut i: usize = 0;
        while i < suites.len()
            invariant
                i <= suites@.len(),
                expected == sub_suites_of(
                    params.deep_view(),
                    multiversion_name.deep_view(),
                    multiversion_tags.deep_view(),
                    suites.deep_view(),
                ),
                sub_suites@.len() == i,
                forall|j: int| 0 <= j < i ==> (#[trigger] sub_suites@[j]).deep_view() == expected[j],
            decreases suites@.len() - i,
        {
            let name: &str = match multiversion_name {
                Some(name) => name,
                None => params.task_name.as_str(),
            };
            let origin_suite: &str = match multiversion_name {
                Some(name) => name,
                None => params.suite_name.as_str(),
            };
            let sub_suite = SubSuite {
                index: Some(i),
                name: name.to_owned(),
                test_list: clone_texts(&suites[i]),
                origin_suite: origin_suite.to_owned(),
                exclude_test_list: None,
                mv_exclude_tags: multiversion_tags.clone(),
                is_enterprise: params.is_enterprise,
                platform: params.platform.clone(),
            };
            assert(suites.deep_view()[i as int] == suites[i as int].deep_view());
            assert(sub_suite.deep_view() == expected[i as int]);
            sub_suites.push(sub_suite);
            i += 1;
        }
        assert(sub_suites.deep_view() =~= expected);
        sub_suites
    }

    /// Can the given task be split into sub-tasks without a runtime history?
    pub fn is_splittable_fallback(&self, params: &ResmokeGenParams, test_list: &Vec<String>) -> (splittable:
        bool)
        ensures
            splittable == can_split_fallback(
                self.subtask_limits,
                params.deep_view(),
                test_list.deep_view(),
            ),
    {
        test_list.len() == 0 || (self.requested_num_tasks(params) > 0
            && self.subtask_limits.max_subtasks_per_task > 0)
    }

    /// The number of sub-tasks that is requested for a task.
    fn requested_num_tasks(&self, params: &ResmokeGenParams) -> (requested: usize)
        ensures
            requested == (match params.num_tasks {
                Some(num_tasks) => num_tasks,
                None => self.subtask_limits.default_subtasks_per_task,
            }),
    {
        match params.num_tasks {
            Some(num_tasks) => num_tasks,
            None => self.subtask_limits.default_subtasks_per_task,
        }
    }

    /// Split a task with no historic runtime information.
    ///
    /// Since we don't have any runtime information, we will just split the tests evenly among
    /// the number of suites we want to create.
    ///
    /// # Arguments
    ///
    /// * `params` - Parameters for how tasks should be generated.
    /// * `multiversion_name` - Name of task if performing multiversion generation.
    /// * `multiversion_tags` - Tag to use when performing multiversion generation.
    /// * `test_list` - Tests of the task.
    ///
    /// # Returns
    ///
    /// A list of sub-suites to run the tests is the given task.
    pub fn split_task_fallback(
        &self,
        params: &ResmokeGenParams,
        multiversion_name: Option<&str>,
        multiversion_tags: Option<String>,
        test_list: &Vec<String>,
    ) -> (sub_suites: Vec<SubSuite>)
        requires
            can_split_fallback(self.subtask_limits, params.deep_view(), test_list.deep_view()),
        ensures
            sub_suites.deep_view() == split_fallback_of(
                self.subtask_limits,
                params.deep_view(),
                test_list.deep_view(),
                multiversion_name.deep_view(),
                multiversion_tags.deep_view(),
            ),
    {
        if test_list.len() == 0 {
            let sub_suites: Vec<SubSuite> = Vec::new();
            assert(sub_suites.deep_view() =~= Seq::<SubSuiteView>::empty());
            return sub_suites;
        }
        let mut num_tasks: usize = self.requested_num_tasks(params);
        if test_list.len() < num_tasks {
            num_tasks = test_list.len();
        }
        if self.subtask_limits.max_subtasks_per_task < num_tasks {
            num_tasks = self.subtask_limits.max_subtasks_per_task;
        }
        let suites: Vec<Vec<String>> = divide_evenly(test_list, num_tasks);
        self.build_sub_suites(params, multiversion_name, multiversion_tags, suites)
    }
}

/// A sub-task that executes a sub-suite.
pub open spec fn resmoke_sub_task_of(
    params: ResmokeGenParamsView,
    sub_suite: SubSuiteView,
    total_sub_suites: nat,
    exclude_tags: Seq<char>,
    suite_override: Option<Seq<char>>,
) -> GeneratedSubTaskView {
    let suite_file = generated_task_name(
        sub_suite.name,
        sub_suite.index,
        total_sub_suites,
        params.is_enterprise,
    );
    GeneratedSubTaskView {
        evg_task: EvgTaskView {
            name: suite_file + (match params.gen_task_suffix {
                Some(suffix) => suffix,
                None => Seq::empty(),
            }),
            commands: Some(
                resmoke_commands_of(
                    RUN_GENERATED_TESTS@,
                    run_test_vars_of(params, suite_file, sub_suite, exclude_tags, suite_override),
                    params.require_multiversion_setup,
                ),
            ),
            depends_on: dependencies_of(params.dependencies),
            ..empty_task()
        },
        use_large_distro: params.use_large_distro,
        use_xlarge_distro: params.use_xlarge_distro,
    }
}

/// The sub-suites for what is known of a suite. Where its runtime history could not be obtained, or
/// is not to be used, they are split evenly.
pub open spec fn sub_suites_for(
    config: GenResmokeConfig,
    limits: SubtaskLimits,
    params: ResmokeGenParamsView,
    variant: BuildVariantView,
    tests: SuiteTests,
    multiversion_name: Option<Seq<char>>,
    multiversion_tags: Option<Seq<char>>,
) -> Seq<SubSuiteView> {
    match tests.history {
        Some(history) if !config.use_task_split_fallback => split_task_of(
            limits,
            params,
            variant,
            history,
            tests.test_list.deep_view(),
            multiversion_name,
            multiversion_tags,
        ),
        _ => split_fallback_of(
            limits,
            params,
            tests.test_list.deep_view(),
            multiversion_name,
            multiversion_tags,
        ),
    }
}

/// What is known of a suite is enough to split it.
pub open spec fn can_create(
    config: GenResmokeConfig,
    limits: SubtaskLimits,
    params: ResmokeGenParamsView,
    variant: BuildVariantView,
    tests: SuiteTests,
) -> bool {
    match tests.history {
        Some(history) if !config.use_task_split_fallback => can_split(
            limits,
            params,
            variant,
            history,
            tests.test_list.deep_view(),
        ),
        _ => can_split_fallback(limits, params, tests.test_list.deep_view()),
    }
}

/// The sub-suites for each of the multiversion tasks in turn.
pub open spec fn multiversion_sub_suites(
    config: GenResmokeConfig,
    limits: SubtaskLimits,
    params: ResmokeGenParamsView,
    variant: BuildVariantView,
    tasks: Seq<MultiversionGenerateTaskConfigView>,
    tests: Seq<SuiteTests>,
) -> Seq<SubSuiteView>
    decreases tasks.len(),
{
    if tasks.len() == 0 {
        Seq::empty()
    } else {
        multiversion_sub_suites(
            config,
            limits,
            params,
            variant,
            tasks.drop_last(),
            tests.drop_last(),
        ) + sub_suites_for(
            config,
            limits,
            params,
            variant,
            tests.last(),
            Some(tasks.last().suite_name),
            Some(tasks.last().old_version),
        )
    }
}

/// The suites that a task is split into, or that its multiversion tasks are.
pub open spec fn all_sub_suites(
    config: GenResmokeConfig,
    limits: SubtaskLimits,
    params: ResmokeGenParamsView,
    variant: BuildVariantView,
    tests: Seq<SuiteTests>,
) -> Seq<SubSuiteView> {
    if params.require_multiversion_generate_tasks {
        multiversion_sub_suites(
            config,
            limits,
            params,
            variant,
            params.multiversion_generate_tasks.unwrap(),
            tests,
        )
    } else {
        sub_suites_for(config, limits, params, variant, tests[0], None, None)
    }
}

/// What is generated for the sub-suites of a task.
pub open spec fn generation_info_of(
    params: ResmokeGenParamsView,
    sub_suites: Seq<SubSuiteView>,
) -> ResmokeSuiteGenerationInfoView {
    ResmokeSuiteGenerationInfoView {
        task_name: params.task_name,
        origin_suite: params.suite_name,
        sub_suites,
        require_multiversion_generate_tasks: params.require_multiversion_generate_tasks,
    }
}

/// The sub-tasks that run the sub-suites of a task.
pub open spec fn sub_tasks_of<M: MultiversionService>(
    service: M,
    params: ResmokeGenParamsView,
    sub_suites: Seq<SubSuiteView>,
) -> Seq<GeneratedSubTaskView> {
    sub_suites.map_values(
        |sub_suite: SubSuiteView|
            resmoke_sub_task_of(
                params,
                sub_suite,
                sub_suites.len(),
                service.exclude_tags(params.task_name, sub_suite.mv_exclude_tags),
                None,
            ),
    )
}

/// The names of the suites whose tests a task needs.
pub open spec fn suites_needed(params: ResmokeGenParamsView) -> Seq<Seq<char>> {
    if params.require_multiversion_generate_tasks {
        params.multiversion_generate_tasks.unwrap().map_values(
            |task: MultiversionGenerateTaskConfigView| task.suite_name,
        )
    } else {
        seq![params.suite_name]
    }
}

impl<M: MultiversionService> GenResmokeTaskServiceImpl<M> {
    /// Build a shrub task to execute a split sub-task.
    ///
    /// # Arguments
    ///
    /// * `sub_suite` - Sub task to create task for.
    /// * `total_sub_suites` - Total number of sub-tasks of the task.
    /// * `params` - Parameters for how task should be generated.
    /// * `suite_override` - Suite to run in place of the generated one.
    ///
    /// # Returns
    ///
    /// A shrub task to execute the given sub-suite.
    pub fn build_resmoke_sub_task(
        &self,
        sub_suite: &SubSuite,
        total_sub_suites: usize,
        params: &ResmokeGenParams,
        suite_override: Option<String>,
    ) -> (sub_task: GeneratedSubTask)
        requires
            self.multiversion_service.knows_mode(sub_suite.deep_view().mv_exclude_tags),
        ensures
            sub_task.deep_view() == resmoke_sub_task_of(
                params.deep_view(),
                sub_suite.deep_view(),
                total_sub_suites as nat,
                self.multiversion_service.exclude_tags(
                    params.task_name@,
                    sub_suite.deep_view().mv_exclude_tags,
                ),
                suite_override.deep_view(),
            ),
    {
        let exclude_tags: String = self.multiversion_service.exclude_tags_for_task(
            params.task_name.as_str(),
            sub_suite.mv_exclude_tags.clone(),
        );
        let suite_file: String = name_generated_task(
            sub_suite.name.as_str(),
            sub_suite.index,
            total_sub_suites,
            params.is_enterprise,
        );
        let run_test_vars: Vars = params.build_run_test_vars(
            suite_file.as_str(),
            sub_suite,
            exclude_tags.as_str(),
            suite_override,
        );
        let mut name: String = suite_file.clone();
        if let Some(suffix) = &params.gen_task_suffix {
            name.append(suffix.as_str());
        }
        assert(name@ =~= suite_file@ + (match params.gen_task_suffix {
            Some(suffix) => suffix@,
            None => Seq::empty(),
        }));
        GeneratedSubTask {
            evg_task: EvgTask {
                name,
                commands: Some(
                    resmoke_commands(
                        RUN_GENERATED_TESTS,
                        run_test_vars,
                        params.require_multiversion_setup,
                    ),
                ),
                depends_on: params.get_dependencies(),
                exec_timeout_secs: None,
                tags: None,
                patchable: None,
                stepback: None,
            },
            use_large_distro: params.use_large_distro,
            use_xlarge_distro: params.use_xlarge_distro,
        }
    }

    /// Is the runtime history of tasks of use?
    pub fn uses_task_history(&self) -> (used: bool)
        ensures
            used == !self.config.use_task_split_fallback,
    {
        !self.config.use_task_split_fallback
    }

    /// The names of the suites whose tests have to be discovered to generate a task.
    ///
    /// # Arguments
    ///
    /// * `params` - Parameters for how task should be generated.
    pub fn suites_to_discover(&self, params: &ResmokeGenParams) -> (suites: Vec<String>)
        requires
            params.require_multiversion_generate_tasks ==> params.multiversion_generate_tasks
                is Some,
        ensures
            suites.deep_view() == suites_needed(params.deep_view()),
    {
        let mut suites: Vec<String> = Vec::new();
        let ghost expected = suites_needed(params.deep_view());
        if params.require_multiversion_generate_tasks {
            if let Some(tasks) = &params.multiversion_generate_tasks {
                let mut i: usize = 0;
                while i < tasks.len()
                    invariant
                        i <= tasks@.len(),
                        params.require_multiversion_generate_tasks,
                        params.multiversion_generate_tasks == Some(*tasks),
                        expected == suites_needed(params.deep_view()),
                        suites.deep_view() == expected.take(i as int),
                    decreases tasks@.len() - i,
                {
                    assert(expected[i as int] == tasks[i as int].suite_name@);
                    push_text(&mut suites, tasks[i].suite_name.as_str());
                    i += 1;
                    assert(suites.deep_view() =~= expected.take(i as int));
                }
                assert(expected.take(i as int) =~= expected);
            }
        } else {
            push_text(&mut suites, params.suite_name.as_str());
            assert(suites.deep_view() =~= expected);
        }
        suites
    }

    /// Is what is known of a suite enough to split it?
    pub fn can_create_tasks(
        &self,
        params: &ResmokeGenParams,
        build_variant: &BuildVariant,
        tests: &SuiteTests,
    ) -> (enough: bool)
        ensures
            enough == can_create(
                self.config,
                self.subtask_limits,
                params.deep_view(),
                build_variant.deep_view(),
                *tests,
            ),
    {
        match &tests.history {
            Some(history) => if self.config.use_task_split_fallback {
                self.is_splittable_fallback(params, &tests.test_list)
            } else {
                self.is_splittable(params, history, build_variant, &tests.test_list)
            },
            None => self.is_splittable_fallback(params, &tests.test_list),
        }
    }

    /// Create sub-suites based on the given information.
    ///
    /// # Arguments
    ///
    /// * `params` - Parameters for how tasks should be generated.
    /// * `build_variant` - Build variant to base generation off of.
    /// * `multiversion_name` - Name of task if performing multiversion generation.
    /// * `multiversion_tags` - Tag to use when performing multiversion generation.
    /// * `tests` - What is known of the suite.
    ///
    /// # Returns
    ///
    /// List of sub-suites that were generated.
    pub fn create_tasks(
        &self,
        params: &ResmokeGenParams,
        build_variant: &BuildVariant,
        multiversion_name: Option<&str>,
        multiversion_tags: Option<String>,
        tests: &SuiteTests,
    ) -> (sub_suites: Vec<SubSuite>)
        requires
            can_create(
                self.config,
                self.subtask_limits,
                params.deep_view(),
                build_variant.deep_view(),
                *tests,
            ),
        ensures
            sub_suites.deep_view() == sub_suites_for(
                self.config,
                self.subtask_limits,
                params.deep_view(),
                build_variant.deep_view(),
                *tests,
                multiversion_name.deep_view(),
                multiversion_tags.deep_view(),
            ),
    {
        if !self.config.use_task_split_fallback {
            if let Some(history) = &tests.history {
                return self.split_task(
                    params,
                    history,
                    multiversion_name,
                    multiversion_tags,
                    build_variant,
                    clone_texts(&tests.test_list),
                );
            }
        }
        // If we couldn't get the task history, then fallback to splitting the tests evenly
        // among the desired number of sub-suites.
        self.split_task_fallback(params, multiversion_name, multiversion_tags, &tests.test_list)
    }

    /// Create version of the generated sub-tasks for all the multiversion combinations.
    ///
    /// # Arguments
    ///
    /// * `params` - Parameters for how task should be generated.
    /// * `build_variant` - Build variant to base generation off.
    /// * `tests` - What is known of the suite of each combination.
    ///
    /// # Returns
    ///
    /// List of all sub-suites for a multiversion task with generate tasks.
    pub fn create_multiversion_tasks(
        &self,
        params: &ResmokeGenParams,
        build_variant: &BuildVariant,
        tests: &Vec<SuiteTests>,
    ) -> (sub_suites: Vec<SubSuite>)
        requires
            params.multiversion_generate_tasks matches Some(tasks) && tasks@.len() == tests@.len(),
            forall|i: int|
                0 <= i < tests@.len() ==> can_create(
                    self.config,
                    self.subtask_limits,
                    params.deep_view(),
                    build_variant.deep_view(),
                    #[trigger] tests@[i],
                ),
        ensures
            sub_suites.deep_view() == multiversion_sub_suites(
                self.config,
                self.subtask_limits,
                params.deep_view(),
                build_variant.deep_view(),
                params.deep_view().multiversion_generate_tasks.unwrap(),
                tests@,
            ),
    {
        let mut sub_suites: Vec<SubSuite> = Vec::new();
        if let Some(tasks) = &params.multiversion_generate_tasks {
            let ghost all = tasks.deep_view();
            let mut i: usize = 0;
            assert(sub_suites.deep_view() =~= multiversion_sub_suites(
                self.config,
                self.subtask_limits,
                params.deep_view(),
                build_variant.deep_view(),
                all.take(0),
                tests@.take(0),
            ));
            while i < tasks.len()
                invariant
                    i <= tasks@.len(),
                    tasks@.len() == tests@.len(),
                    all == tasks.deep_view(),
                    forall|j: int|
                        0 <= j < tests@.len() ==> can_create(
                            self.config,
                            self.subtask_limits,
                            params.deep_view(),
                            build_variant.deep_view(),
                            #[trigger] tests@[j],
                        ),
                    sub_suites.deep_view() == multiversion_sub_suites(
                        self.config,
                        self.subtask_limits,
                        params.deep_view(),
                        build_variant.deep_view(),
                        all.take(i as int),
                        tests@.take(i as int),
                    ),
                decreases tasks@.len() - i,
            {
                assert(all.take(i + 1).drop_last() =~= all.take(i as int));
                assert(all.take(i + 1).last() == tasks[i as int].deep_view());
                assert(tests@.take(i + 1).drop_last() =~= tests@.take(i as int));
                assert(tests@.take(i + 1).last() == tests@[i as int]);
                let mut more: Vec<SubSuite> = self.create_tasks(
                    params,
                    build_variant,
                    Some(tasks[i].suite_name.as_str()),
                    Some(tasks[i].old_version.clone()),
                    &tests[i],
                );
                let ghost before = sub_suites.deep_view();
                let ghost added = more.deep_view();
                sub_suites.append(&mut more);
                assert(sub_suites.deep_view() =~= before + added);
                i += 1;
            }
            assert(all.take(i as int) =~= all);
            assert(tests@.take(i as int) =~= tests@);
        }
        sub_suites
    }

    /// Resmoke tasks can be generated from what is known: there are multiversion tasks if they are
    /// required, what is known of each suite is enough to split it, and the types of multiversion
    /// tasks among the sub-suites are known.
    pub open spec fn accepts(
        &self,
        params: ResmokeGenParamsView,
        variant: BuildVariantView,
        tests: Seq<SuiteTests>,
    ) -> bool {
        &&& params.require_multiversion_generate_tasks ==> params.multiversion_generate_tasks
            is Some
        &&& tests.len() == suites_needed(params).len()
        &&& forall|i: int|
            0 <= i < tests.len() ==> can_create(
                self.config,
                self.subtask_limits,
                params,
                variant,
                #[trigger] tests[i],
            )
        &&& forall|i: int|
            0 <= i < all_sub_suites(
                self.config,
                self.subtask_limits,
                params,
                variant,
                tests,
            ).len() ==> self.multiversion_service.knows_mode(
                (#[trigger] all_sub_suites(
                    self.config,
                    self.subtask_limits,
                    params,
                    variant,
                    tests,
                )[i]).mv_exclude_tags,
            )
    }

    /// Can resmoke tasks be generated from what is known?
    ///
    /// # Arguments
    ///
    /// * `params` - Parameters for how task should be generated.
    /// * `build_variant` - Build variant to base task splitting on.
    /// * `tests` - What is known of each of the suites that have to be discovered.
    pub fn can_generate(
        &self,
        params: &ResmokeGenParams,
        build_variant: &BuildVariant,
        tests: &Vec<SuiteTests>,
    ) -> (can: bool)
        ensures
            can == self.accepts(params.deep_view(), build_variant.deep_view(), tests@),
    {
        let ghost p = params.deep_view();
        let ghost variant = build_variant.deep_view();
        let needed: usize = if params.require_multiversion_generate_tasks {
            match &params.multiversion_generate_tasks {
                Some(tasks) => tasks.len(),
                None => {
                    return false;
                },
            }
        } else {
            1
        };
        if tests.len() != needed {
            return false;
        }
        let mut i: usize = 0;
        while i < tests.len()
            invariant
                i <= tests@.len(),
                p == params.deep_view(),
                variant == build_variant.deep_view(),
                forall|j: int|
                    0 <= j < i ==> can_create(
                        self.config,
                        self.subtask_limits,
                        p,
                        variant,
                        #[trigger] tests@[j],
                    ),
            decreases tests@.len() - i,
        {
            if !self.can_create_tasks(params, build_variant, &tests[i]) {
                return false;
            }
            i += 1;
        }
        let sub_suites: Vec<SubSuite> = if params.require_multiversion_generate_tasks {
            self.create_multiversion_tasks(params, build_variant, tests)
        } else {
            self.create_tasks(params, build_variant, None, None, &tests[0])
        };
        let ghost all = sub_suites.deep_view();
        assert(all == all_sub_suites(self.config, self.subtask_limits, p, variant, tests@));
        let mut i: usize = 0;
        while i < sub_suites.len()
            invariant
                i <= sub_suites@.len(),
                p == params.deep_view(),
                variant == build_variant.deep_view(),
                all == sub_suites.deep_view(),
                all == all_sub_suites(self.config, self.subtask_limits, p, variant, tests@),
                forall|j: int|
                    0 <= j < i ==> self.multiversion_service.knows_mode(
                        (#[trigger] all[j]).mv_exclude_tags,
                    ),
            decreases sub_suites@.len() - i,
        {
            assert(all[i as int] == sub_suites[i as int].deep_view());
            if !self.multiversion_service.is_mode_known(&sub_suites[i].mv_exclude_tags) {
                return false;
            }
            i += 1;
        }
        true
    }

    /// Generate a task for running the given task in parallel.
    ///
    /// # Arguments
    ///
    /// * `params` - Parameters for how task should be generated.
    /// * `build_variant` - Build variant to base task splitting on.
    /// * `tests` - What is known of each of the suites that have to be discovered.
    ///
    /// # Returns
    ///
    /// What to write resmoke configuration files from, and a generated suite representing the split
    /// task.
    pub fn generate_resmoke_task(
        &self,
        params: &ResmokeGenParams,
        build_variant: &BuildVariant,
        tests: &Vec<SuiteTests>,
    ) -> (generated: (ResmokeSuiteGenerationInfo, GeneratedResmokeSuite))
        requires
            self.accepts(params.deep_view(), build_variant.deep_view(), tests@),
        ensures
            generated.0.deep_view() == generation_info_of(
                params.deep_view(),
                all_sub_suites(
                    self.config,
                    self.subtask_limits,
                    params.deep_view(),
                    build_variant.deep_view(),
                    tests@,
                ),
            ),
            generated.1.deep_view() == (GeneratedResmokeSuiteView {
                task_name: params.task_name@,
                sub_suites: sub_tasks_of(
                    self.multiversion_service,
                    params.deep_view(),
                    all_sub_suites(
                        self.config,
                        self.subtask_limits,
                        params.deep_view(),
                        build_variant.deep_view(),
                        tests@,
                    ),
                ),
            }),
    {
        let sub_suites: Vec<SubSuite> = if params.require_multiversion_generate_tasks {
            self.create_multiversion_tasks(params, build_variant, tests)
        } else {
            self.create_tasks(params, build_variant, None, None, &tests[0])
        };
        let ghost all = sub_suites.deep_view();
        assert(all == all_sub_suites(
            self.config,
            self.subtask_limits,
            params.deep_view(),
            build_variant.deep_view(),
            tests@,
        ));
        let total: usize = sub_suites.len();
        let mut sub_tasks: Vec<GeneratedSubTask> = Vec::new();
        let mut i: usize = 0;
        while i < total
            invariant
                i <= total,
                total == sub_suites@.len(),
                all == sub_suites.deep_view(),
                forall|j: int|
                    0 <= j < all.len() ==> self.multiversion_service.knows_mode(
                        (#[trigger] all[j]).mv_exclude_tags,
                    ),
                sub_tasks@.len() == i,
                forall|j: int|
                    0 <= j < i ==> (#[trigger] sub_tasks@[j]).deep_view() == resmoke_sub_task_of(
                        params.deep_view(),
                        all[j],
                        total as nat,
                        self.multiversion_service.exclude_tags(
                            params.task_name@,
                            all[j].mv_exclude_tags,
                        ),
                        None,
                    ),
            decreases total - i,
        {
            assert(all[i as int] == sub_suites[i as int].deep_view());
            sub_tasks.push(self.build_resmoke_sub_task(&sub_suites[i], total, params, None));
            i += 1;
        }
        assert(sub_tasks.deep_view() =~= sub_tasks_of(
            self.multiversion_service,
            params.deep_view(),
            all,
        ));
        let info = ResmokeSuiteGenerationInfo {
            task_name: params.task_name.clone(),
            origin_suite: params.suite_name.clone(),
            sub_suites,
            require_multiversion_generate_tasks: params.require_multiversion_generate_tasks,
        };
        let suite = GeneratedResmokeSuite {
            task_name: params.task_name.clone(),
            sub_suites: sub_tasks,
        };
        (info, suite)
    }
}

} // verus!
