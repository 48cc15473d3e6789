//! Extraction of the parameters for generated tasks from the evergreen project configuration.

use vstd::prelude::*;

use crate::errors::{outcome, ConfigError, ConfigErrorView};
use crate::evergreen::evg_config_utils::{
    default_bool, default_str, dependency_names, enterprise_switched_off, expansion, gen_task_var,
    get_suite_var, has_valid_multiversion_suites, is_valid_suite, multiversion_tasks_of,
    optional_u64, required_bool, required_str, required_u64, suite_name_of, suite_var,
    task_call_vars, task_tags, translated_run_var, valid_multiversion_suites, valid_suite,
    variant_platform, EvgConfigUtilsImpl, EXPANSION_DEFAULT, EXPANSION_ID, EXPANSION_PATTERN,
};
use crate::evergreen::model::{BuildVariant, BuildVariantView, EvgTask, EvgTaskView};
use crate::evergreen_names::{
    CONTINUE_ON_FAILURE, FUZZER_PARAMETERS, GENERATE_RESMOKE_TASKS, IDLE_TIMEOUT,
    LARGE_DISTRO_EXPANSION, MULTIVERSION, NO_MULTIVERSION_GENERATE_TASKS, NPM_COMMAND,
    NUM_FUZZER_FILES, NUM_FUZZER_TASKS, REPEAT_SUITES, RESMOKE_ARGS, RESMOKE_JOBS_MAX,
    SHOULD_SHUFFLE_TESTS, UNIQUE_GEN_SUFFIX_EXPANSION, USE_LARGE_DISTRO, USE_XLARGE_DISTRO,
    XLARGE_DISTRO_EXPANSION,
};
use crate::generate_sub_tasks_config::GenerateSubTasksConfig;
use crate::task_types::fuzzer_tasks::{FuzzerGenTaskParams, FuzzerGenTaskParamsView};
use crate::task_types::generated_suite::{any_large, any_xlarge, GeneratedSuite, SuiteView};
use crate::task_types::resmoke_tasks::{ResmokeGenParams, ResmokeGenParamsView};
use crate::utils::pattern::regex_named_groups;
use crate::utils::task_name::{remove_gen_suffix, without_gen_suffix};
use crate::utils::text::str_eq;

verus! {

/// The npm command of a fuzzer that names none.
pub const DEFAULT_NPM_COMMAND: &'static str = "jstestfuzz";

/// Implementation for performing extractions of evergreen project configuration.
pub struct ConfigExtractionServiceImpl {
    /// Utilities for looking up evergreen project configuration.
    pub evg_config_utils: EvgConfigUtilsImpl,
    /// Name of task running task generation.
    pub generating_task: String,
    /// Location where generated configuration will be stored.
    pub config_location: String,
    /// Configuration for generating sub-tasks.
    pub gen_sub_tasks_config: Option<GenerateSubTasksConfig>,
}

/// The texts without the given one.
pub open spec fn without_text(texts: Seq<Seq<char>>, text: Seq<char>) -> Seq<Seq<char>>
    decreases texts.len(),
{
    if texts.len() == 0 {
        Seq::empty()
    } else if texts.last() == text {
        without_text(texts.drop_last(), text)
    } else {
        without_text(texts.drop_last(), text).push(texts.last())
    }
}

/// The number of files that a fuzzer should generate on a build variant.
pub open spec fn num_files_of(task: EvgTaskView, variant: BuildVariantView) -> Option<Seq<char>> {
    match gen_task_var(task, NUM_FUZZER_FILES@) {
        Some(var) => translated_run_var(
            var,
            regex_named_groups(EXPANSION_PATTERN@, var, EXPANSION_ID@, EXPANSION_DEFAULT@),
            variant,
        ),
        None => None,
    }
}

/// The suites that a task names can be told.
pub open spec fn valid_suites(task: EvgTask) -> bool {
    &&& suite_var(task.deep_view()) matches Some(suite) ==> valid_suite(suite)
    &&& valid_multiversion_suites(task)
}

/// Can the suites that a task names be told?
pub fn has_valid_suites(task: &EvgTask) -> (valid: bool)
    ensures
        valid == valid_suites(*task),
{
    if let Some(suite) = get_suite_var(task) {
        if !is_valid_suite(suite) {
            return false;
        }
    }
    has_valid_multiversion_suites(task)
}

/// The task should get multiversion sub-tasks.
pub open spec fn requires_multiversion_tasks(task: EvgTaskView) -> bool {
    task_tags(task).contains(MULTIVERSION@) && !task_tags(task).contains(
        NO_MULTIVERSION_GENERATE_TASKS@,
    )
}

/// The parameters of a fuzzer, or the first problem with its variables.
pub open spec fn fuzzer_params_of(
    generating_task: Seq<char>,
    config_location: Seq<char>,
    task_def: EvgTask,
    variant: BuildVariantView,
    num_files: Seq<char>,
) -> Result<FuzzerGenTaskParamsView, ConfigErrorView> {
    let task = task_def.deep_view();
    match (
        required_u64(task, NUM_FUZZER_TASKS@),
        required_str(task, RESMOKE_ARGS@),
        required_bool(task, CONTINUE_ON_FAILURE@),
        required_u64(task, RESMOKE_JOBS_MAX@),
        required_bool(task, SHOULD_SHUFFLE_TESTS@),
        required_u64(task, IDLE_TIMEOUT@),
    ) {
        (Err(error), _, _, _, _, _) => Err(error),
        (_, Err(error), _, _, _, _) => Err(error),
        (_, _, Err(error), _, _, _) => Err(error),
        (_, _, _, Err(error), _, _) => Err(error),
        (_, _, _, _, Err(error), _) => Err(error),
        (_, _, _, _, _, Err(error)) => Err(error),
        (
            Ok(num_tasks),
            Ok(resmoke_args),
            Ok(continue_on_failure),
            Ok(resmoke_jobs_max),
            Ok(should_shuffle),
            Ok(timeout_secs),
        ) => Ok(
            FuzzerGenTaskParamsView {
                task_name: without_gen_suffix(task.name),
                multiversion_generate_tasks: multiversion_tasks_of(task_def),
                variant: variant.name,
                suite: suite_name_of(task),
                num_files,
                num_tasks,
                resmoke_args,
                npm_command: default_str(task, NPM_COMMAND@, DEFAULT_NPM_COMMAND@),
                jstestfuzz_vars: gen_task_var(task, FUZZER_PARAMETERS@),
                continue_on_failure,
                resmoke_jobs_max,
                should_shuffle,
                timeout_secs,
                require_multiversion_setup: task_tags(task).contains(MULTIVERSION@),
                config_location,
                dependencies: without_text(dependency_names(task), generating_task),
                is_enterprise: !enterprise_switched_off(variant),
                platform: Some(variant_platform(variant)),
            },
        ),
    }
}

/// The parameters of a resmoke task, or the first problem with its variables.
pub open spec fn resmoke_params_of(
    generating_task: Seq<char>,
    config_location: Seq<char>,
    task_def: EvgTask,
    is_enterprise: bool,
    variant: Option<BuildVariantView>,
    platform: Option<Seq<char>>,
) -> Result<ResmokeGenParamsView, ConfigErrorView> {
    let task = task_def.deep_view();
    match (
        default_bool(task, USE_LARGE_DISTRO@, false),
        default_bool(task, USE_XLARGE_DISTRO@, false),
        optional_u64(task, REPEAT_SUITES@),
        optional_u64(task, RESMOKE_JOBS_MAX@),
        optional_u64(task, NUM_FUZZER_TASKS@),
    ) {
        (Err(error), _, _, _, _) => Err(error),
        (_, Err(error), _, _, _) => Err(error),
        (_, _, Err(error), _, _) => Err(error),
        (_, _, _, Err(error), _) => Err(error),
        (_, _, _, _, Err(error)) => Err(error),
        (
            Ok(use_large_distro),
            Ok(use_xlarge_distro),
            Ok(repeat_suites),
            Ok(resmoke_jobs_max),
            Ok(num_tasks),
        ) => Ok(
            ResmokeGenParamsView {
                task_name: without_gen_suffix(task.name),
                multiversion_generate_tasks: multiversion_tasks_of(task_def),
                suite_name: suite_name_of(task),
                use_large_distro,
                use_xlarge_distro,
                require_multiversion_setup: task_tags(task).contains(MULTIVERSION@),
                require_multiversion_generate_tasks: requires_multiversion_tasks(task),
                repeat_suites,
                resmoke_args: default_str(task, RESMOKE_ARGS@, ""@),
                resmoke_jobs_max,
                config_location,
                dependencies: without_text(dependency_names(task), generating_task),
                is_enterprise,
                pass_through_vars: task_call_vars(task, GENERATE_RESMOKE_TASKS@),
                platform,
                gen_task_suffix: match variant {
                    Some(variant) => expansion(variant, UNIQUE_GEN_SUFFIX_EXPANSION@),
                    None => None,
                },
                num_tasks: match num_tasks {
                    Some(num_tasks) => Some(num_tasks as usize),
                    None => None,
                },
            },
        ),
    }
}

/// The distro for the sub-tasks that ask for a large one, or the problem that there is none.
pub open spec fn large_distro_of(
    exceptions: Option<Set<Seq<char>>>,
    suite: SuiteView,
    variant: BuildVariantView,
) -> Result<Option<Seq<char>>, ConfigErrorView> {
    let large = expansion(variant, LARGE_DISTRO_EXPANSION@);
    let xlarge = expansion(variant, XLARGE_DISTRO_EXPANSION@);
    if any_xlarge(suite.sub_tasks) && xlarge is Some {
        Ok(xlarge)
    } else if (any_xlarge(suite.sub_tasks) || any_large(suite.sub_tasks)) && large is Some {
        Ok(large)
    } else if any_large(suite.sub_tasks) && !(exceptions matches Some(names) && names.contains(
        variant.name,
    )) {
        Err(ConfigErrorView::MissingLargeDistro { build_variant: variant.name })
    } else {
        Ok(None)
    }
}

impl ConfigExtractionServiceImpl {
    /// The build variants that can do without a large distro.
    pub open spec fn exceptions(&self) -> Option<Set<Seq<char>>> {
        match self.gen_sub_tasks_config {
            Some(config) => Some(config.build_variant_large_distro_exceptions@),
            None => None,
        }
    }

    /// Create a new instance of the config extraction service.
    ///
    /// # Arguments
    ///
    /// * `evg_config_utils` - Utilities for looking up evergreen project configuration.
    /// * `generating_task` - Name of task running task generation.
    /// * `config_location` - Location where generated configuration will be stored.
    /// * `gen_sub_tasks_config` - Configuration for generating sub-tasks.
    ///
    pub fn new(
        evg_config_utils: EvgConfigUtilsImpl,
        generating_task: String,
        config_location: String,
        gen_sub_tasks_config: Option<GenerateSubTasksConfig>,
    ) -> (service: Self)
        ensures
            service.evg_config_utils == evg_config_utils,
            service.generating_task == generating_task,
            service.config_location == config_location,
            service.gen_sub_tasks_config == gen_sub_tasks_config,
    {
        ConfigExtractionServiceImpl {
            evg_config_utils,
            generating_task,
            config_location,
            gen_sub_tasks_config,
        }
    }

    /// Determine the dependencies to add to tasks generated from the given task definition.
    ///
    /// A generated tasks should depend on all tasks listed in its "_gen" tasks depends_on
    /// section except for the task generated the configuration.
    ///
    /// # Arguments
    ///
    /// * `task_def` - Definition of task being generated from.
    ///
    /// # Returns
    ///
    /// List of tasks that should be used as dependencies.
    pub fn determine_task_dependencies(&self, task_def: &EvgTask) -> (names: Vec<String>)
        ensures
            names.deep_view() == without_text(
                dependency_names(task_def.deep_view()),
                self.generating_task@,
            ),
    {
        let listed: Vec<String> = self.evg_config_utils.get_task_dependencies(task_def);
        let ghost all = listed.deep_view();
        let mut names: Vec<String> = Vec::new();
        let mut i: usize = 0;
        assert(names.deep_view() =~= without_text(all.take(0), self.generating_task@));
        while i < listed.len()
            invariant
                i <= listed@.len(),
                all == listed.deep_view(),
                names.deep_view() == without_text(all.take(i as int), self.generating_task@),
            decreases listed@.len() - i,
        {
            assert(all.take(i + 1).drop_last() =~= all.take(i as int));
            assert(all.take(i + 1).last() == listed[i as int]@);
            if !str_eq(listed[i].as_str(), self.generating_task.as_str()) {
                let ghost before = names.deep_view();
                names.push(listed[i].clone());
                assert(names.deep_view() =~= before.push(all[i as int]));
            }
            i += 1;
        }
        assert(all.take(i as int) =~= all);
        names
    }

    /// Get the number of files that a fuzzer should generate on a build variant.
    ///
    /// # Arguments
    ///
    /// * `task_def` - Task definition of fuzzer to generate.
    /// * `build_variant` - Build variant task is being generated based off.
    ///
    /// # Returns
    ///
    /// Number of files, if the task names one that has a value on the build variant.
    pub fn find_num_files(&self, task_def: &EvgTask, build_variant: &BuildVariant) -> (num_files:
        Option<String>)
        ensures
            num_files.deep_view() == num_files_of(task_def.deep_view(), build_variant.deep_view()),
    {
        match self.evg_config_utils.get_gen_task_var(task_def, NUM_FUZZER_FILES) {
            Some(var) => self.evg_config_utils.translate_run_var(var, build_variant),
            None => None,
        }
    }

    /// Build the configuration for generated a fuzzer based on the evergreen task definition.
    ///
    /// # Arguments
    ///
    /// * `task_def` - Task definition of fuzzer to generate.
    /// * `build_variant` - Build variant task is being generated based off.
    ///
    /// # Returns
    ///
    /// Parameters to configure how fuzzer task should be generated.
    pub fn task_def_to_fuzzer_params(&self, task_def: &EvgTask, build_variant: &BuildVariant) -> (params:
        Result<FuzzerGenTaskParams, ConfigError>)
        requires
            valid_suites(*task_def),
            num_files_of(task_def.deep_view(), build_variant.deep_view()) is Some,
        ensures
            outcome(params) == fuzzer_params_of(
                self.generating_task@,
                self.config_location@,
                *task_def,
                build_variant.deep_view(),
                num_files_of(task_def.deep_view(), build_variant.deep_view()).unwrap(),
            ),
    {
        let num_files: String = self.find_num_files(task_def, build_variant).unwrap();
        self.fuzzer_params_with(task_def, build_variant, num_files)
    }

    /// Build the configuration for a fuzzer, if the number of files that it should generate is
    /// there.
    ///
    /// # Arguments
    ///
    /// * `task_def` - Task definition of fuzzer to generate.
    /// * `build_variant` - Build variant task is being generated based off.
    ///
    /// # Returns
    ///
    /// Parameters to configure how fuzzer task should be generated, nothing if there is no number of
    /// files.
    pub fn find_fuzzer_params(&self, task_def: &EvgTask, build_variant: &BuildVariant) -> (params:
        Option<Result<FuzzerGenTaskParams, ConfigError>>)
        requires
            valid_suites(*task_def),
        ensures
            match num_files_of(task_def.deep_view(), build_variant.deep_view()) {
                Some(num_files) => params matches Some(params) && outcome(params)
                    == fuzzer_params_of(
                    self.generating_task@,
                    self.config_location@,
                    *task_def,
                    build_variant.deep_view(),
                    num_files,
                ),
                None => params is None,
            },
    {
        match self.find_num_files(task_def, build_variant) {
            Some(_) => Some(self.task_def_to_fuzzer_params(task_def, build_variant)),
            None => None,
        }
    }

    /// Build the configuration for a fuzzer that should generate the given number of files.
    ///
    /// # Arguments
    ///
    /// * `task_def` - Task definition of fuzzer to generate.
    /// * `build_variant` - Build variant task is being generated based off.
    /// * `num_files` - Number of files to generate.
    ///
    /// # Returns
    ///
    /// Parameters to configure how fuzzer task should be generated.
    pub fn fuzzer_params_with(
        &self,
        task_def: &EvgTask,
        build_variant: &BuildVariant,
        num_files: String,
    ) -> (params: Result<FuzzerGenTaskParams, ConfigError>)
        requires
            valid_suites(*task_def),
        ensures
            outcome(params) == fuzzer_params_of(
                self.generating_task@,
                self.config_location@,
                *task_def,
                build_variant.deep_view(),
                num_files@,
            ),
    {
        let utils: &EvgConfigUtilsImpl = &self.evg_config_utils;
        let num_tasks: u64 = match utils.lookup_required_param_u64(task_def, NUM_FUZZER_TASKS) {
            Ok(value) => value,
            Err(error) => {
                return Err(error);
            },
        };
        let resmoke_args: String = match utils.lookup_required_param_str(task_def, RESMOKE_ARGS) {
            Ok(value) => value,
            Err(error) => {
                return Err(error);
            },
        };
        let continue_on_failure: bool = match utils.lookup_required_param_bool(
            task_def,
            CONTINUE_ON_FAILURE,
        ) {
            Ok(value) => value,
            Err(error) => {
                return Err(error);
            },
        };
        let resmoke_jobs_max: u64 = match utils.lookup_required_param_u64(
            task_def,
            RESMOKE_JOBS_MAX,
        ) {
            Ok(value) => value,
            Err(error) => {
                return Err(error);
            },
        };
        let should_shuffle: bool = match utils.lookup_required_param_bool(
            task_def,
            SHOULD_SHUFFLE_TESTS,
        ) {
            Ok(value) => value,
            Err(error) => {
                return Err(error);
            },
        };
        let timeout_secs: u64 = match utils.lookup_required_param_u64(task_def, IDLE_TIMEOUT) {
            Ok(value) => value,
            Err(error) => {
                return Err(error);
            },
        };
        let jstestfuzz_vars: Option<String> = match utils.get_gen_task_var(
            task_def,
            FUZZER_PARAMETERS,
        ) {
            Some(vars) => Some(vars.to_owned()),
            None => None,
        };
        Ok(
            FuzzerGenTaskParams {
                task_name: remove_gen_suffix(task_def.name.as_str()).to_owned(),
                multiversion_generate_tasks: utils.get_multiversion_generate_tasks(task_def),
                variant: build_variant.name.clone(),
                suite: utils.find_suite_name(task_def).to_owned(),
                num_files,
                num_tasks,
                resmoke_args,
                npm_command: utils.lookup_default_param_str(
                    task_def,
                    NPM_COMMAND,
                    DEFAULT_NPM_COMMAND,
                ),
                jstestfuzz_vars,
                continue_on_failure,
                resmoke_jobs_max,
                should_shuffle,
                timeout_secs,
                require_multiversion_setup: utils.get_task_tags(task_def).contains(MULTIVERSION),
                config_location: self.config_location.clone(),
                dependencies: self.determine_task_dependencies(task_def),
                is_enterprise: utils.is_enterprise_build_variant(build_variant),
                platform: Some(utils.infer_build_variant_platform(build_variant)),
            },
        )
    }

    /// Build the configuration for generated a resmoke based on the evergreen task definition.
    ///
    /// # Arguments
    ///
    /// * `task_def` - Task definition of task to generate.
    /// * `is_enterprise` - Is this being generated for an enterprise build variant.
    /// * `build_variant` - Build variant task is being generated based off.
    /// * `platform` - Platform that task will run on.
    ///
    /// # Returns
    ///
    /// Parameters to configure how resmoke task should be generated.
    pub fn task_def_to_resmoke_params(
        &self,
        task_def: &EvgTask,
        is_enterprise: bool,
        build_variant: Option<&BuildVariant>,
        platform: Option<String>,
    ) -> (params: Result<ResmokeGenParams, ConfigError>)
        requires
            valid_suites(*task_def),
        ensures
            outcome(params) == resmoke_params_of(
                self.generating_task@,
                self.config_location@,
                *task_def,
                is_enterprise,
                build_variant.deep_view(),
                platform.deep_view(),
            ),
    {
        let utils: &EvgConfigUtilsImpl = &self.evg_config_utils;
        let use_large_distro: bool = match utils.lookup_default_param_bool(
            task_def,
            USE_LARGE_DISTRO,
            false,
        ) {
            Ok(value) => value,
            Err(error) => {
                return Err(error);
            },
        };
        let use_xlarge_distro: bool = match utils.lookup_default_param_bool(
            task_def,
            USE_XLARGE_DISTRO,
            false,
        ) {
            Ok(value) => value,
            Err(error) => {
                return Err(error);
            },
        };
        let repeat_suites: Option<u64> = match utils.lookup_optional_param_u64(
            task_def,
            REPEAT_SUITES,
        ) {
            Ok(value) => value,
            Err(error) => {
                return Err(error);
            },
        };
        let resmoke_jobs_max: Option<u64> = match utils.lookup_optional_param_u64(
            task_def,
            RESMOKE_JOBS_MAX,
        ) {
            Ok(value) => value,
            Err(error) => {
                return Err(error);
            },
        };
        let num_tasks: Option<usize> = match utils.lookup_optional_param_u64(
            task_def,
            NUM_FUZZER_TASKS,
        ) {
            Ok(Some(value)) => Some(value as usize),
            Ok(None) => None,
            Err(error) => {
                return Err(error);
            },
        };
        let gen_task_suffix: Option<String> = match build_variant {
            Some(build_variant) => utils.lookup_build_variant_expansion(
                UNIQUE_GEN_SUFFIX_EXPANSION,
                build_variant,
            ),
            None => None,
        };
        let tags = utils.get_task_tags(task_def);
        let require_multiversion_setup: bool = tags.contains(MULTIVERSION);
        Ok(
            ResmokeGenParams {
                task_name: remove_gen_suffix(task_def.name.as_str()).to_owned(),
                multiversion_generate_tasks: utils.get_multiversion_generate_tasks(task_def),
                suite_name: utils.find_suite_name(task_def).to_owned(),
                use_large_distro,
                use_xlarge_distro,
                require_multiversion_setup,
                require_multiversion_generate_tasks: require_multiversion_setup && !tags.contains(
                    NO_MULTIVERSION_GENERATE_TASKS,
                ),
                repeat_suites,
                resmoke_args: utils.lookup_default_param_str(task_def, RESMOKE_ARGS, ""),
                resmoke_jobs_max,
                config_location: self.config_location.clone(),
                dependencies: self.determine_task_dependencies(task_def),
                is_enterprise,
                pass_through_vars: utils.get_gen_task_vars(task_def),
                platform,
                gen_task_suffix,
                num_tasks,
            },
        )
    }

    /// Determine large distro name if the given sub-tasks should run on it.
    ///
    /// By default, we won't specify a distro and they will just use the default for the build
    /// variant. If they specify `use_xlarge_distro` then we should use the xlarge distro configured
    /// for the build variant, or its large distro if it has no xlarge one. If they specify
    /// `use_large_distro` then we should instead use the large distro configured for the build
    /// variant. If that is not defined, then throw an error unless the build variant is configured
    /// to be ignored.
    ///
    /// # Arguments
    ///
    /// * `generated_task` - Generated task.
    /// * `build_variant` - Build Variant to run generated task on.
    ///
    /// # Returns
    ///
    /// Large distro name if needed.
    pub fn determine_large_distro<G: GeneratedSuite>(
        &self,
        generated_task: &G,
        build_variant: &BuildVariant,
    ) -> (distro: Result<Option<String>, ConfigError>)
        ensures
            outcome(distro) == large_distro_of(
                self.exceptions(),
                generated_task.suite(),
                build_variant.deep_view(),
            ),
    {
        let large: Option<String> = self.evg_config_utils.lookup_build_variant_expansion(
            LARGE_DISTRO_EXPANSION,
            build_variant,
        );
        let use_xlarge: bool = generated_task.use_xlarge_distro();
        let use_large: bool = generated_task.use_large_distro();
        if use_xlarge {
            let xlarge: Option<String> = self.evg_config_utils.lookup_build_variant_expansion(
                XLARGE_DISTRO_EXPANSION,
                build_variant,
            );
            if xlarge.is_some() {
                return Ok(xlarge);
            }
        }
        if (use_xlarge || use_large) && large.is_some() {
            return Ok(large);
        }
        if use_large {
            let ignored: bool = match &self.gen_sub_tasks_config {
                Some(config) => config.ignore_missing_large_distro(build_variant.name.as_str()),
                None => false,
            };
            if !ignored {
                return Err(
                    ConfigError::MissingLargeDistro { build_variant: build_variant.name.clone() },
                );
            }
        }
        Ok(None)
    }
}

/// Generated tasks depend on all tasks listed in the dependencies of their generating task except for
/// the task that runs the generation.
pub proof fn law_dependencies_without_generating_task(
    listed: Seq<Seq<char>>,
    generating_task: Seq<char>,
    name: Seq<char>,
)
    ensures
        without_text(listed, generating_task).contains(name) <==> listed.contains(name) && name
            != generating_task,
    decreases listed.len(),
{
    if listed.len() > 0 {
        let rest = listed.drop_last();
        let last = listed.last();
        law_dependencies_without_generating_task(rest, generating_task, name);
        assert(rest.push(last) =~= listed);
        let kept = without_text(rest, generating_task);
        assert forall|list: Seq<Seq<char>>| #[trigger] list.push(last).contains(name) <==> (
        list.contains(name) || name == last) by {
            if list.contains(name) {
                let i = list.index_of(name);
                assert(list.push(last)[i] == name);
            }
            assert(list.push(last)[list.len() as int] == last);
        }
        assert(rest.push(last).contains(name) <==> (rest.contains(name) || name == last));
        assert(kept.push(last).contains(name) <==> (kept.contains(name) || name == last));
    }
}

} // verus!
