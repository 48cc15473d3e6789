//! Service for generating fuzzer tasks.

use vstd::prelude::*;

use crate::evergreen::evg_config_utils::{
    MultiversionGenerateTaskConfig, MultiversionGenerateTaskConfigView,
};
use crate::evergreen::model::{
    call_of, call_with, empty_task, fn_call, fn_call_with_params, new_vars, push_command, set_var,
    text_param, EvgCommand, EvgCommandView, EvgTask, EvgTaskView, ParamValue, ParamValueView,
    TaskDependency, TaskDependencyView, Vars, VarsView,
};
use crate::evergreen_names::{
    ADD_GIT_TAG, CONFIGURE_EVG_API_CREDS, CONTINUE_ON_FAILURE, DO_MULTIVERSION_SETUP, DO_SETUP,
    FUZZER_PARAMETERS, GEN_TASK_CONFIG_LOCATION, GET_PROJECT_WITH_NO_MODULES, IDLE_TIMEOUT,
    MULTIVERSION_EXCLUDE_TAGS, NPM_COMMAND, REQUIRE_MULTIVERSION_SETUP, RESMOKE_ARGS,
    RESMOKE_JOBS_MAX, RUN_FUZZER, RUN_GENERATED_TESTS, SETUP_JSTESTFUZZ, SHOULD_SHUFFLE_TESTS,
    SUITE_NAME, TASK_NAME,
};
use crate::task_types::generated_suite::{
    GeneratedSubTask, GeneratedSubTaskView, GeneratedSuite, SuiteView,
};
use crate::utils::task_name::{generated_task_name, name_generated_task};

verus! {

/// Parameters for how a fuzzer task should be generated.
#[derive(Debug, PartialEq, Default)]
pub struct FuzzerGenTaskParams {
    /// Name of task being generated.
    pub task_name: String,
    /// Multiversion tasks to generate.
    pub multiversion_generate_tasks: Option<Vec<MultiversionGenerateTaskConfig>>,
    /// Name of build variant being generated on.
    pub variant: String,
    /// Resmoke suite for generated tests.
    pub suite: String,
    /// Number of javascript files fuzzer should generate.
    pub num_files: String,
    /// Number of sub-tasks fuzzer should generate.
    pub num_tasks: u64,
    /// Arguments to pass to resmoke invocation.
    pub resmoke_args: String,
    /// NPM command to perform fuzzer execution.
    pub npm_command: String,
    /// Arguments to pass to fuzzer invocation.
    pub jstestfuzz_vars: Option<String>,
    /// Should generated tests continue running after hitting error.
    pub continue_on_failure: bool,
    /// Maximum number of jobs resmoke should execute in parallel.
    pub resmoke_jobs_max: u64,
    /// Should tests be executed out of order.
    pub should_shuffle: bool,
    /// Timeout before test execution is considered hung.
    pub timeout_secs: u64,
    /// Requires downloading multiversion binaries.
    pub require_multiversion_setup: bool,
    /// Location of generated task configuration.
    pub config_location: String,
    /// List of tasks generated sub-tasks should depend on.
    pub dependencies: Vec<String>,
    /// Is the task for enterprise builds.
    pub is_enterprise: bool,
    /// Name of platform the task will run on.
    pub platform: Option<String>,
}

/// What a [`FuzzerGenTaskParams`] holds.
pub struct FuzzerGenTaskParamsView {
    pub task_name: Seq<char>,
    pub multiversion_generate_tasks: Option<Seq<MultiversionGenerateTaskConfigView>>,
    pub variant: Seq<char>,
    pub suite: Seq<char>,
    pub num_files: Seq<char>,
    pub num_tasks: u64,
    pub resmoke_args: Seq<char>,
    pub npm_command: Seq<char>,
    pub jstestfuzz_vars: Option<Seq<char>>,
    pub continue_on_failure: bool,
    pub resmoke_jobs_max: u64,
    pub should_shuffle: bool,
    pub timeout_secs: u64,
    pub require_multiversion_setup: bool,
    pub config_location: Seq<char>,
    pub dependencies: Seq<Seq<char>>,
    pub is_enterprise: bool,
    pub platform: Option<Seq<char>>,
}

impl DeepView for FuzzerGenTaskParams {
    type V = FuzzerGenTaskParamsView;

    open spec fn deep_view(&self) -> FuzzerGenTaskParamsView {
        FuzzerGenTaskParamsView {
            task_name: self.task_name@,
            multiversion_generate_tasks: self.multiversion_generate_tasks.deep_view(),
            variant: self.variant@,
            suite: self.suite@,
            num_files: self.num_files@,
            num_tasks: self.num_tasks,
            resmoke_args: self.resmoke_args@,
            npm_command: self.npm_command@,
            jstestfuzz_vars: self.jstestfuzz_vars.deep_view(),
            continue_on_failure: self.continue_on_failure,
            resmoke_jobs_max: self.resmoke_jobs_max,
            should_shuffle: self.should_shuffle,
            timeout_secs: self.timeout_secs,
            require_multiversion_setup: self.require_multiversion_setup,
            config_location: self.config_location@,
            dependencies: self.dependencies.deep_view(),
            is_enterprise: self.is_enterprise,
            platform: self.platform.deep_view(),
        }
    }
}

impl Clone for FuzzerGenTaskParams {
    fn clone(&self) -> (copy: Self)
        ensures
            copy.deep_view() == self.deep_view(),
    {
        let multiversion_generate_tasks = self.multiversion_generate_tasks.clone();
        assert(multiversion_generate_tasks.deep_view() =~~= self.multiversion_generate_tasks.deep_view());
        let dependencies = self.dependencies.clone();
        assert(dependencies.deep_view() =~~= self.dependencies.deep_view());
        FuzzerGenTaskParams {
            task_name: self.task_name.clone(),
            multiversion_generate_tasks,
            variant: self.variant.clone(),
            suite: self.suite.clone(),
            num_files: self.num_files.clone(),
            num_tasks: self.num_tasks,
            resmoke_args: self.resmoke_args.clone(),
            npm_command: self.npm_command.clone(),
            jstestfuzz_vars: self.jstestfuzz_vars.clone(),
            continue_on_failure: self.continue_on_failure,
            resmoke_jobs_max: self.resmoke_jobs_max,
            should_shuffle: self.should_shuffle,
            timeout_secs: self.timeout_secs,
            require_multiversion_setup: self.require_multiversion_setup,
            config_location: self.config_location.clone(),
            dependencies,
            is_enterprise: self.is_enterprise,
            platform: self.platform.clone(),
        }
    }
}

/// The dependencies of generated sub-tasks, given the names of the tasks.
pub open spec fn dependencies_of(names: Seq<Seq<char>>) -> Option<Seq<TaskDependencyView>> {
    if names.len() == 0 {
        None
    } else {
        Some(names.map_values(|name: Seq<char>| TaskDependencyView { name, variant: None }))
    }
}

/// Build the dependencies of generated sub-tasks.
///
/// # Arguments
///
/// * `names` - Names of the tasks to depend on.
pub fn build_dependencies(names: &Vec<String>) -> (dependencies: Option<Vec<TaskDependency>>)
    ensures
        dependencies.deep_view() == dependencies_of(names.deep_view()),
{
    if names.len() == 0 {
        return None;
    }
    let mut dependencies: Vec<TaskDependency> = Vec::new();
    let mut i: usize = 0;
    while i < names.len()
        invariant
            i <= names@.len(),
            dependencies@.len() == i,
            forall|j: int|
                0 <= j < i ==> (#[trigger] dependencies@[j]).deep_view() == (TaskDependencyView {
                    name: names@[j]@,
                    variant: None,
                }),
        decreases names@.len() - i,
    {
        dependencies.push(TaskDependency { name: names[i].clone(), variant: None });
        i += 1;
    }
    assert(dependencies.deep_view() =~= names.deep_view().map_values(
        |name: Seq<char>| TaskDependencyView { name, variant: None },
    ));
    Some(dependencies)
}

/// The parameters for the fuzzer.
pub open spec fn fuzzer_parameters(params: FuzzerGenTaskParamsView) -> VarsView {
    Map::<Seq<char>, ParamValueView>::empty().insert(
        NPM_COMMAND@,
        ParamValueView::String(params.npm_command),
    ).insert(
        FUZZER_PARAMETERS@,
        ParamValueView::String(
            "--numGeneratedFiles "@ + params.num_files + " "@ + (match params.jstestfuzz_vars {
                Some(vars) => vars,
                None => Seq::empty(),
            }),
        ),
    )
}

/// The vars for the 'run tests' function of a fuzzer.
pub open spec fn fuzzer_run_vars(
    params: FuzzerGenTaskParamsView,
    suite: Option<Seq<char>>,
    old_version: Option<Seq<char>>,
) -> VarsView {
    let vars = Map::<Seq<char>, ParamValueView>::empty().insert(
        CONTINUE_ON_FAILURE@,
        ParamValueView::Bool(params.continue_on_failure),
    ).insert(GEN_TASK_CONFIG_LOCATION@, ParamValueView::String(params.config_location)).insert(
        REQUIRE_MULTIVERSION_SETUP@,
        ParamValueView::Bool(params.require_multiversion_setup),
    ).insert(RESMOKE_ARGS@, ParamValueView::String(params.resmoke_args)).insert(
        RESMOKE_JOBS_MAX@,
        ParamValueView::Number(params.resmoke_jobs_max),
    ).insert(SHOULD_SHUFFLE_TESTS@, ParamValueView::Bool(params.should_shuffle)).insert(
        TASK_NAME@,
        ParamValueView::String(params.task_name),
    ).insert(IDLE_TIMEOUT@, ParamValueView::Number(params.timeout_secs)).insert(
        SUITE_NAME@,
        ParamValueView::String(
            match suite {
                Some(suite) => suite,
                None => params.suite,
            },
        ),
    );
    match old_version {
        Some(old_version) => vars.insert(
            MULTIVERSION_EXCLUDE_TAGS@,
            ParamValueView::String(old_version),
        ),
        None => vars,
    }
}

/// The commands of a fuzzer sub-task.
pub open spec fn fuzzer_commands(
    params: FuzzerGenTaskParamsView,
    suite: Option<Seq<char>>,
    old_version: Option<Seq<char>>,
) -> Seq<EvgCommandView> {
    (if params.require_multiversion_setup {
        seq![call_of(GET_PROJECT_WITH_NO_MODULES@), call_of(ADD_GIT_TAG@)]
    } else {
        Seq::empty()
    }) + seq![call_of(DO_SETUP@), call_of(CONFIGURE_EVG_API_CREDS@)] + (
    if params.require_multiversion_setup {
        seq![call_of(DO_MULTIVERSION_SETUP@)]
    } else {
        Seq::empty()
    }) + seq![
        call_of(SETUP_JSTESTFUZZ@),
        call_with(RUN_FUZZER@, fuzzer_parameters(params)),
        call_with(RUN_GENERATED_TESTS@, fuzzer_run_vars(params, suite, old_version)),
    ]
}

/// A sub-task of a fuzzer.
pub open spec fn fuzzer_sub_task(
    params: FuzzerGenTaskParamsView,
    display_name: Seq<char>,
    index: usize,
    suite: Option<Seq<char>>,
    old_version: Option<Seq<char>>,
) -> EvgTaskView {
    EvgTaskView {
        name: generated_task_name(
            display_name,
            Some(index),
            (params.num_tasks as usize) as nat,
            params.is_enterprise,
        ),
        commands: Some(fuzzer_commands(params, suite, old_version)),
        depends_on: dependencies_of(params.dependencies),
        ..empty_task()
    }
}

/// The sub-tasks of a fuzzer for one suite.
pub open spec fn fuzzer_tasks_for(
    params: FuzzerGenTaskParamsView,
    display_name: Seq<char>,
    suite: Option<Seq<char>>,
    old_version: Option<Seq<char>>,
) -> Seq<EvgTaskView> {
    Seq::new(
        (params.num_tasks as usize) as nat,
        |i: int| fuzzer_sub_task(params, display_name, i as usize, suite, old_version),
    )
}

/// The sub-tasks of a multiversion fuzzer, for each of the suites in turn.
pub open spec fn multiversion_fuzzer_tasks(
    params: FuzzerGenTaskParamsView,
    configs: Seq<MultiversionGenerateTaskConfigView>,
) -> Seq<EvgTaskView>
    decreases configs.len(),
{
    if configs.len() == 0 {
        Seq::empty()
    } else {
        multiversion_fuzzer_tasks(params, configs.drop_last()) + fuzzer_tasks_for(
            params,
            configs.last().suite_name,
            Some(configs.last().suite_name),
            Some(configs.last().old_version),
        )
    }
}

/// The sub-tasks of a fuzzer.
pub open spec fn fuzzer_tasks(params: FuzzerGenTaskParamsView) -> Seq<EvgTaskView> {
    if params.require_multiversion_setup {
        multiversion_fuzzer_tasks(params, params.multiversion_generate_tasks.unwrap())
    } else {
        fuzzer_tasks_for(params, params.task_name, None, None)
    }
}

impl FuzzerGenTaskParams {
    /// Create parameters to send to fuzzer to generate appropriate fuzzer tests.
    pub fn build_fuzzer_parameters(&self) -> (vars: Vars)
        ensures
            vars.deep_view() == fuzzer_parameters(self.deep_view()),
    {
        let mut parameters: String = "--numGeneratedFiles ".to_owned();
        parameters.append(self.num_files.as_str());
        parameters.append(" ");
        if let Some(vars) = &self.jstestfuzz_vars {
            parameters.append(vars.as_str());
        }
        assert(parameters@ =~= "--numGeneratedFiles "@ + self.num_files@ + " "@ + (
        match self.jstestfuzz_vars {
            Some(vars) => vars@,
            None => Seq::empty(),
        }));
        let mut vars: Vars = new_vars();
        set_var(&mut vars, NPM_COMMAND, text_param(self.npm_command.as_str()));
        set_var(&mut vars, FUZZER_PARAMETERS, ParamValue::String(parameters));
        vars
    }

    /// Determine if these parameters are for a multiversion fuzzer.
    pub fn is_multiversion(&self) -> (multiversion: bool)
        ensures
            multiversion == self.require_multiversion_setup,
    {
        self.require_multiversion_setup
    }

    /// Build the vars to send to tasks in the 'run tests' function.
    ///
    /// # Arguments
    ///
    /// * `generated_suite_name` - A generated suite to execute against.
    /// * `old_version` - Previous version of mongo to test against.
    ///
    /// # Returns
    ///
    /// Map of arguments to pass to 'run tests' function.
    pub fn build_run_tests_vars(&self, generated_suite_name: Option<&str>, old_version: Option<&str>) -> (vars:
        Vars)
        ensures
            vars.deep_view() == fuzzer_run_vars(
                self.deep_view(),
                generated_suite_name.deep_view(),
                old_version.deep_view(),
            ),
    {
        let mut vars: Vars = new_vars();
        set_var(&mut vars, CONTINUE_ON_FAILURE, ParamValue::Bool(self.continue_on_failure));
        set_var(&mut vars, GEN_TASK_CONFIG_LOCATION, text_param(self.config_location.as_str()));
        set_var(&mut vars, REQUIRE_MULTIVERSION_SETUP, ParamValue::Bool(self.is_multiversion()));
        set_var(&mut vars, RESMOKE_ARGS, text_param(self.resmoke_args.as_str()));
        set_var(&mut vars, RESMOKE_JOBS_MAX, ParamValue::Number(self.resmoke_jobs_max));
        set_var(&mut vars, SHOULD_SHUFFLE_TESTS, ParamValue::Bool(self.should_shuffle));
        set_var(&mut vars, TASK_NAME, text_param(self.task_name.as_str()));
        set_var(&mut vars, IDLE_TIMEOUT, ParamValue::Number(self.timeout_secs));
        let suite: &str = match generated_suite_name {
            Some(suite) => suite,
            None => self.suite.as_str(),
        };
        set_var(&mut vars, SUITE_NAME, text_param(suite));
        if let Some(old_version) = old_version {
            set_var(&mut vars, MULTIVERSION_EXCLUDE_TAGS, text_param(old_version));
        }
        vars
    }

    /// Build the dependency structure to use the the generated sub-tasks.
    ///
    /// # Returns
    ///
    /// List of `TaskDependency`s for generated tasks.
    pub fn get_dependencies(&self) -> (dependencies: Option<Vec<TaskDependency>>)
        ensures
            dependencies.deep_view() == dependencies_of(self.dependencies.deep_view()),
    {
        build_dependencies(&self.dependencies)
    }
}

/// A Generated Fuzzer task.
#[derive(Debug, PartialEq)]
pub struct FuzzerTask {
    /// Name for generated task.
    pub task_name: String,
    /// Sub-tasks comprising generated task.
    pub sub_tasks: Vec<EvgTask>,
}

impl GeneratedSuite for FuzzerTask {
    open spec fn suite(&self) -> SuiteView {
        SuiteView {
            display_name: self.task_name@,
            sub_tasks: self.sub_tasks.deep_view().map_values(
                |evg_task: EvgTaskView|
                    GeneratedSubTaskView {
                        evg_task,
                        use_large_distro: false,
                        use_xlarge_distro: false,
                    },
            ),
        }
    }

    /// Get the display name to use for the generated task.
    fn display_name(&self) -> (name: String) {
        self.task_name.clone()
    }

    /// Get the list of sub-tasks that comprise the generated task.
    fn sub_tasks(&self) -> (sub_tasks: Vec<GeneratedSubTask>) {
        let mut sub_tasks: Vec<GeneratedSubTask> = Vec::new();
        let mut i: usize = 0;
        while i < self.sub_tasks.len()
            invariant
                i <= self.sub_tasks@.len(),
                sub_tasks@.len() == i,
                forall|j: int|
                    0 <= j < i ==> (#[trigger] sub_tasks@[j]).deep_view()
                        == self.suite().sub_tasks[j],
            decreases self.sub_tasks@.len() - i,
        {
            sub_tasks.push(
                GeneratedSubTask {
                    evg_task: self.sub_tasks[i].clone(),
                    use_large_distro: false,
                    use_xlarge_distro: false,
                },
            );
            i += 1;
        }
        assert(sub_tasks.deep_view() =~= self.suite().sub_tasks);
        sub_tasks
    }
}

/// Implementation of the GenFuzzerService.
pub struct GenFuzzerServiceImpl {}

impl GenFuzzerServiceImpl {
    /// Create a new instance of the GenFuzzerService.
    pub fn new() -> (service: Self)
        ensures
            service == (GenFuzzerServiceImpl {  }),
    {
        GenFuzzerServiceImpl {  }
    }

    /// Generate a fuzzer task based on the given parameters.
    ///
    /// # Arguments
    ///
    /// * `params` - Parameters describing how to generate fuzzer.
    ///
    /// # Returns
    ///
    /// FuzzerTask with details of how shrub task for the suite is built.
    pub fn generate_fuzzer_task(&self, params: &FuzzerGenTaskParams) -> (task: FuzzerTask)
        requires
            params.require_multiversion_setup ==> params.multiversion_generate_tasks is Some,
        ensures
            task.task_name@ == params.task_name@,
            task.sub_tasks.deep_view() == fuzzer_tasks(params.deep_view()),
    {
        let mut sub_tasks: Vec<EvgTask> = Vec::new();
        if params.is_multiversion() {
            if let Some(configs) = &params.multiversion_generate_tasks {
                let ghost all = configs.deep_view();
                let mut i: usize = 0;
                assert(sub_tasks.deep_view() =~= multiversion_fuzzer_tasks(
                    params.deep_view(),
                    all.take(0),
                ));
                while i < configs.len()
                    invariant
                        i <= configs@.len(),
                        all == configs.deep_view(),
                        sub_tasks.deep_view() == multiversion_fuzzer_tasks(
                            params.deep_view(),
                            all.take(i as int),
                        ),
                    decreases configs@.len() - i,
                {
                    assert(all.take(i + 1).drop_last() =~= all.take(i as int));
                    assert(all.take(i + 1).last() == configs[i as int].deep_view());
                    let config: &MultiversionGenerateTaskConfig = &configs[i];
                    let mut more: Vec<EvgTask> = build_fuzzer_sub_tasks(
                        config.suite_name.as_str(),
                        params,
                        Some(config.suite_name.as_str()),
                        Some(config.old_version.as_str()),
                    );
                    let ghost before = sub_tasks.deep_view();
                    let ghost added = more.deep_view();
                    sub_tasks.append(&mut more);
                    assert(sub_tasks.deep_view() =~= before + added);
                    i += 1;
                }
                assert(all.take(i as int) =~= all);
            }
        } else {
            sub_tasks = build_fuzzer_sub_tasks(params.task_name.as_str(), params, None, None);
        }
        FuzzerTask { task_name: params.task_name.clone(), sub_tasks }
    }
}

/// Build the sub-tasks of a fuzzer for one suite.
fn build_fuzzer_sub_tasks(
    display_name: &str,
    params: &FuzzerGenTaskParams,
    generated_suite_name: Option<&str>,
    old_version: Option<&str>,
) -> (sub_tasks: Vec<EvgTask>)
    ensures
        sub_tasks.deep_view() == fuzzer_tasks_for(
            params.deep_view(),
            display_name@,
            generated_suite_name.deep_view(),
            old_version.deep_view(),
        ),
{
    let total: usize = params.num_tasks as usize;
    let ghost expected = fuzzer_tasks_for(
        params.deep_view(),
        display_name@,
        generated_suite_name.deep_view(),
        old_version.deep_view(),
    );
    let mut sub_tasks: Vec<EvgTask> = Vec::new();
    let mut i: usize = 0;
    while i < total
        invariant
            i <= total,
            total == params.num_tasks as usize,
            expected == fuzzer_tasks_for(
                params.deep_view(),
                display_name@,
                generated_suite_name.deep_view(),
                old_version.deep_view(),
            ),
            sub_tasks@.len() == i,
            forall|j: int| 0 <= j < i ==> (#[trigger] sub_tasks@[j]).deep_view() == expected[j],
        decreases total - i,
    {
        sub_tasks.push(
            build_fuzzer_sub_task(display_name, i, params, generated_suite_name, old_version),
        );
        i += 1;
    }
    assert(sub_tasks.deep_view() =~= expected);
    sub_tasks
}

/// Build a sub-task for a fuzzer.
///
/// # Arguments
///
/// * `display_name` - Display name of task being built.
/// * `sub_task_index` - Index of sub-task to build.
/// * `params` - Parameters for how task should be generated.
/// * `generated_suite_name` - Name of suite to execute against.
/// * `old_version` - Previous version of mongo to test against.
///
/// # Returns
///
/// A shrub task to generate the sub-task.
pub fn build_fuzzer_sub_task(
    display_name: &str,
    sub_task_index: usize,
    params: &FuzzerGenTaskParams,
    generated_suite_name: Option<&str>,
    old_version: Option<&str>,
) -> (task: EvgTask)
    ensures
        task.deep_view() == fuzzer_sub_task(
            params.deep_view(),
            display_name@,
            sub_task_index,
            generated_suite_name.deep_view(),
            old_version.deep_view(),
        ),
{
    let name: String = name_generated_task(
        display_name,
        Some(sub_task_index),
        params.num_tasks as usize,
        params.is_enterprise,
    );
    let mut commands: Vec<EvgCommand> = Vec::new();
    if params.is_multiversion() {
        push_command(&mut commands, fn_call(GET_PROJECT_WITH_NO_MODULES));
        push_command(&mut commands, fn_call(ADD_GIT_TAG));
    }
    push_command(&mut commands, fn_call(DO_SETUP));
    push_command(&mut commands, fn_call(CONFIGURE_EVG_API_CREDS));
    if params.is_multiversion() {
        push_command(&mut commands, fn_call(DO_MULTIVERSION_SETUP));
    }
    push_command(&mut commands, fn_call(SETUP_JSTESTFUZZ));
    push_command(
        &mut commands,
        fn_call_with_params(RUN_FUZZER, params.build_fuzzer_parameters()),
    );
    push_command(
        &mut commands,
        fn_call_with_params(
            RUN_GENERATED_TESTS,
            params.build_run_tests_vars(generated_suite_name, old_version),
        ),
    );
    assert(commands.deep_view() =~= fuzzer_commands(
        params.deep_view(),
        generated_suite_name.deep_view(),
        old_version.deep_view(),
    ));
    EvgTask {
        name,
        commands: Some(commands),
        depends_on: params.get_dependencies(),
        exec_timeout_secs: None,
        tags: None,
        patchable: None,
        stepback: None,
    }
}

} // verus!
