//! Service for generating burn_in tasks.
//!
//! Newly added or modified tests are run multiple times in a row to see if the results are
//! consistent.

use vstd::prelude::*;

use crate::errors::{outcome, ConfigError, ConfigErrorView};
use crate::evergreen::evg_config_utils::{expansion, EvgConfigUtilsImpl};
use crate::evergreen::model::{
    clone_strings_map, empty_build_variant, BuildVariant, BuildVariantView, DisplayTask, EvgTask,
    TaskDependency, TaskDependencyView,
};
use crate::evergreen_names::{
    BURN_IN_BYPASS, BURN_IN_TASK_NAME, COMPILE_VARIANT, VERSION_BURN_IN_GEN_TASK,
    VERSION_GEN_VARIANT,
};
use crate::resmoke::burn_in_proxy::{DiscoveredTask, DiscoveredTaskView};
use crate::services::config_extraction::{
    has_valid_suites, large_distro_of, resmoke_params_of, valid_suites, ConfigExtractionServiceImpl,
};
use crate::task_types::generated_suite::{
    display_task_of, task_refs_of, GeneratedSubTask, GeneratedSubTaskView, GeneratedSuite,
    SuiteView,
};
use crate::task_types::multiversion::MultiversionService;
use crate::task_types::resmoke_tasks::{
    resmoke_sub_task_of, GenResmokeTaskServiceImpl, GeneratedResmokeSuite, ResmokeGenParams,
    ResmokeGenParamsView, SubSuite, SubSuiteView,
};
use crate::utils::string_map::StringMap;

verus! {

/// Options to pass to resmoke to enable burn_in repetition.
pub const BURN_IN_REPEAT_CONFIG: &'static str =
    "--repeatTestsSecs=600 --repeatTestsMin=2 --repeatTestsMax=1000";

/// How to label burn_in generated sub_tasks.
pub const BURN_IN_LABEL: &'static str = "burn_in";

/// How to label burn_in_tasks generated sub_tasks.
pub const BURN_IN_TASK_LABEL: &'static str = "burn_in_task";

/// Number of tasks to generate for burn_in_tasks.
pub const BURN_IN_REPEAT_TASK_NUM: usize = 10;

/// Burn in display name prefix
pub const BURN_IN_DISPLAY_NAME_PREFIX: &'static str = "[jstests_affected]";

/// Name of the display task of burn_in_tests.
pub const BURN_IN_TESTS_DISPLAY_NAME: &'static str = "burn_in_tests";

/// Name of the display task of burn_in_tasks.
pub const BURN_IN_TASKS_DISPLAY_NAME: &'static str = "burn_in_tasks";

/// Information about a suite being generated in burn_in.
#[derive(Debug, Default)]
pub struct BurnInSuiteInfo<'a> {
    /// Name of build variant being generated for.
    pub build_variant: &'a str,
    /// Total number of tests being generated for suite.
    pub total_tests: usize,
    /// Name of the task being generated.
    pub task_name: &'a str,
    /// How to label burn_in generated sub_tasks.
    pub burn_in_label: &'a str,
    /// The multiversion name being generated.
    pub multiversion_name: Option<&'a str>,
    /// Any multiversion tags that should be used.
    pub multiversion_tags: Option<String>,
}

/// What a [`BurnInSuiteInfo`] holds.
pub struct BurnInSuiteInfoView {
    pub build_variant: Seq<char>,
    pub total_tests: usize,
    pub task_name: Seq<char>,
    pub burn_in_label: Seq<char>,
    pub multiversion_name: Option<Seq<char>>,
    pub multiversion_tags: Option<Seq<char>>,
}

impl<'a> DeepView for BurnInSuiteInfo<'a> {
    type V = BurnInSuiteInfoView;

    open spec fn deep_view(&self) -> BurnInSuiteInfoView {
        BurnInSuiteInfoView {
            build_variant: self.build_variant@,
            total_tests: self.total_tests,
            task_name: self.task_name@,
            burn_in_label: self.burn_in_label@,
            multiversion_name: self.multiversion_name.deep_view(),
            multiversion_tags: self.multiversion_tags.deep_view(),
        }
    }
}

/// The suite that a burn_in suite is based on.
pub open spec fn burn_in_origin(info: BurnInSuiteInfoView, suite_name: Seq<char>) -> Seq<char> {
    match info.multiversion_name {
        Some(name) => name,
        None => suite_name,
    }
}

/// The name that shows of a burn_in suite.
pub open spec fn burn_in_display_name(info: BurnInSuiteInfoView) -> Seq<char> {
    info.burn_in_label + ":"@ + (match info.multiversion_name {
        Some(name) => name,
        None => info.task_name,
    }) + "-"@ + info.build_variant
}

impl<'a> BurnInSuiteInfo<'a> {
    /// Create the origin suite that should be used.
    ///
    /// # Arguments
    ///
    /// * `suite_name` - Name of suite being used.
    pub fn build_origin_suite(&self, suite_name: &str) -> (suite: String)
        ensures
            suite@ == burn_in_origin(self.deep_view(), suite_name@),
    {
        match self.multiversion_name {
            Some(name) => name.to_owned(),
            None => suite_name.to_owned(),
        }
    }

    /// Create the task_name to use for this suite.
    pub fn build_task_name(&self) -> (name: &'a str)
        ensures
            name@ == (match self.multiversion_name {
                Some(name) => name@,
                None => self.task_name@,
            }),
    {
        match self.multiversion_name {
            Some(name) => name,
            None => self.task_name,
        }
    }

    /// Create the display name to use for this suite.
    pub fn build_display_name(&self) -> (name: String)
        ensures
            name@ == burn_in_display_name(self.deep_view()),
    {
        let mut name: String = self.burn_in_label.to_owned();
        name.append(":");
        name.append(self.build_task_name());
        name.append("-");
        name.append(self.build_variant);
        assert(name@ =~= burn_in_display_name(self.deep_view()));
        name
    }
}

/// The execution task for a burn_in suite.
pub open spec fn burn_in_sub_task<M: MultiversionService>(
    service: M,
    params: ResmokeGenParamsView,
    index: usize,
    info: BurnInSuiteInfoView,
) -> GeneratedSubTaskView {
    let origin_suite = burn_in_origin(info, params.suite_name);
    resmoke_sub_task_of(
        params,
        SubSuiteView {
            index: Some(index),
            name: burn_in_display_name(info),
            test_list: Seq::empty(),
            origin_suite,
            exclude_test_list: None,
            mv_exclude_tags: info.multiversion_tags,
            is_enterprise: false,
            platform: None,
        },
        info.total_tests as nat,
        service.exclude_tags(params.task_name, info.multiversion_tags),
        Some(origin_suite),
    )
}

/// The burn_in suite of a multiversion task.
pub open spec fn with_multiversion(
    info: BurnInSuiteInfoView,
    suite_name: Seq<char>,
    old_version: Seq<char>,
) -> BurnInSuiteInfoView {
    BurnInSuiteInfoView {
        multiversion_name: Some(suite_name),
        multiversion_tags: Some(old_version),
        ..info
    }
}

/// The execution tasks of one round of burn_in: one for each of the multiversion tasks if there are
/// any, else a single one.
pub open spec fn burn_in_round<M: MultiversionService>(
    service: M,
    params: ResmokeGenParamsView,
    index: usize,
    info: BurnInSuiteInfoView,
) -> Seq<GeneratedSubTaskView> {
    if params.require_multiversion_generate_tasks {
        let tasks = params.multiversion_generate_tasks.unwrap();
        Seq::new(
            tasks.len(),
            |i: int|
                burn_in_sub_task(
                    service,
                    params,
                    index,
                    with_multiversion(info, tasks[i].suite_name, tasks[i].old_version),
                ),
        )
    } else {
        seq![burn_in_sub_task(service, params, index, info)]
    }
}

/// The parameters of a burn_in task for a single test.
pub open spec fn burn_in_params(params: ResmokeGenParamsView, test: Seq<char>) -> ResmokeGenParamsView {
    ResmokeGenParamsView {
        resmoke_args: params.resmoke_args + " "@ + BURN_IN_REPEAT_CONFIG@ + " "@ + test,
        ..params
    }
}

/// The execution tasks for the first `n` tests of a task.
pub open spec fn burn_in_tests_for<M: MultiversionService>(
    service: M,
    params: ResmokeGenParamsView,
    tests: Seq<Seq<char>>,
    info: BurnInSuiteInfoView,
    n: int,
) -> Seq<GeneratedSubTaskView>
    decreases n,
{
    if n <= 0 {
        Seq::empty()
    } else {
        burn_in_tests_for(service, params, tests, info, n - 1) + burn_in_round(
            service,
            burn_in_params(params, tests[n - 1]),
            (n - 1) as usize,
            info,
        )
    }
}

/// The execution tasks for the first `n` copies of a task.
pub open spec fn burn_in_copies<M: MultiversionService>(
    service: M,
    params: ResmokeGenParamsView,
    info: BurnInSuiteInfoView,
    n: int,
) -> Seq<GeneratedSubTaskView>
    decreases n,
{
    if n <= 0 {
        Seq::empty()
    } else {
        burn_in_copies(service, params, info, n - 1) + burn_in_round(
            service,
            params,
            (n - 1) as usize,
            info,
        )
    }
}

/// Burn_in tasks can be generated from the parameters: there are multiversion tasks if they are
/// required, of types that are known.
pub open spec fn can_burn_in<M: MultiversionService>(service: M, params: ResmokeGenParamsView) -> bool {
    if params.require_multiversion_generate_tasks {
        params.multiversion_generate_tasks matches Some(tasks) && forall|i: int|
            0 <= i < tasks.len() ==> service.knows_mode(Some((#[trigger] tasks[i]).old_version))
    } else {
        service.knows_mode(None)
    }
}

/// Update the given resmoke parameters with burn_in configuration for the given test.
///
/// # Arguments
///
/// * `params` - resmoke parameters to update.
/// * `test_name` - Name of test to run.
pub fn update_resmoke_params_for_burn_in(params: &mut ResmokeGenParams, test_name: &str)
    ensures
        final(params).deep_view() == burn_in_params(old(params).deep_view(), test_name@),
{
    let ghost before = params.deep_view();
    let mut args: String = params.resmoke_args.clone();
    args.append(" ");
    args.append(BURN_IN_REPEAT_CONFIG);
    args.append(" ");
    args.append(test_name);
    params.resmoke_args = args;
    assert(params.deep_view() == burn_in_params(before, test_name@));
}

/// Implementation of the service for generating burn_in tasks.
pub struct BurnInServiceImpl<M> {
    /// Service to generate resmoke tasks.
    pub gen_resmoke_task_service: GenResmokeTaskServiceImpl<M>,
    /// Service to extraction configuration from evergreen project data.
    pub config_extraction_service: ConfigExtractionServiceImpl,
    /// Utilities to work with evergreen project configuration.
    pub evg_config_utils: EvgConfigUtilsImpl,
}

impl<M: MultiversionService> BurnInServiceImpl<M> {
    /// Create a new instance of the burn_in_service.
    ///
    /// # Arguments
    ///
    /// * `gen_resmoke_task_service` - Service to generate resmoke tasks. *
    /// `config_extraction_service` - Service to extraction configuration from evergreen project
    /// data. * `evg_config_utils` - Utilities to work with evergreen project configuration.
    pub fn new(
        gen_resmoke_task_service: GenResmokeTaskServiceImpl<M>,
        config_extraction_service: ConfigExtractionServiceImpl,
        evg_config_utils: EvgConfigUtilsImpl,
    ) -> (service: Self)
        ensures
            service.gen_resmoke_task_service == gen_resmoke_task_service,
            service.config_extraction_service == config_extraction_service,
            service.evg_config_utils == evg_config_utils,
    {
        BurnInServiceImpl { gen_resmoke_task_service, config_extraction_service, evg_config_utils }
    }

    /// The parameters of a task for burn_in, or the first problem with its variables.
    pub open spec fn params_of(&self, task_def: EvgTask) -> Result<
        ResmokeGenParamsView,
        ConfigErrorView,
    > {
        resmoke_params_of(
            self.config_extraction_service.generating_task@,
            self.config_extraction_service.config_location@,
            task_def,
            false,
            None,
            None,
        )
    }

    /// Burn_in tasks can be generated from the task definition.
    pub open spec fn accepts(&self, task_def: EvgTask) -> bool {
        &&& valid_suites(task_def)
        &&& self.params_of(task_def) matches Ok(params) ==> can_burn_in(
            self.gen_resmoke_task_service.multiversion_service,
            params,
        )
    }

    /// The burn_in_tests for a discovered task.
    pub open spec fn tests_for_task(
        &self,
        discovered: DiscoveredTaskView,
        task_def: EvgTask,
        run_build_variant: Seq<char>,
    ) -> Result<Seq<GeneratedSubTaskView>, ConfigErrorView> {
        if discovered.test_list.len() == 0 {
            Ok(Seq::empty())
        } else {
            match self.params_of(task_def) {
                Ok(params) => Ok(
                    burn_in_tests_for(
                        self.gen_resmoke_task_service.multiversion_service,
                        params,
                        discovered.test_list,
                        BurnInSuiteInfoView {
                            build_variant: run_build_variant,
                            total_tests: discovered.test_list.len() as usize,
                            task_name: discovered.task_name,
                            burn_in_label: BURN_IN_LABEL@,
                            multiversion_name: None,
                            multiversion_tags: None,
                        },
                        discovered.test_list.len() as int,
                    ),
                ),
                Err(error) => Err(error),
            }
        }
    }

    /// The burn_in_tasks for a task.
    pub open spec fn copies_of_task(&self, task_def: EvgTask, variant: Seq<char>) -> Result<
        Seq<GeneratedSubTaskView>,
        ConfigErrorView,
    > {
        match self.params_of(task_def) {
            Ok(params) => Ok(
                burn_in_copies(
                    self.gen_resmoke_task_service.multiversion_service,
                    params,
                    BurnInSuiteInfoView {
                        build_variant: variant,
                        total_tests: BURN_IN_REPEAT_TASK_NUM,
                        task_name: task_def.name@,
                        burn_in_label: BURN_IN_TASK_LABEL@,
                        multiversion_name: None,
                        multiversion_tags: None,
                    },
                    BURN_IN_REPEAT_TASK_NUM as int,
                ),
            ),
            Err(error) => Err(error),
        }
    }

    /// Create an individual execution task for burn_in.
    ///
    /// # Arguments
    ///
    /// * `params` - Configuration for how suite should be configured.
    /// * `index` - Index of sub-task in list of sub-tasks being created for the task.
    /// * `suite_info` - Information about the suite being generated.
    ///
    /// # Returns
    ///
    /// Shrub task representing the given sub-task.
    pub fn create_task(&self, params: &ResmokeGenParams, index: usize, suite_info: &BurnInSuiteInfo) -> (sub_task:
        GeneratedSubTask)
        requires
            self.gen_resmoke_task_service.multiversion_service.knows_mode(
                suite_info.deep_view().multiversion_tags,
            ),
        ensures
            sub_task.deep_view() == burn_in_sub_task(
                self.gen_resmoke_task_service.multiversion_service,
                params.deep_view(),
                index,
                suite_info.deep_view(),
            ),
    {
        let origin_suite: String = suite_info.build_origin_suite(params.suite_name.as_str());
        let test_list: Vec<String> = Vec::new();
        assert(test_list.deep_view() =~= Seq::<Seq<char>>::empty());
        let sub_suite = SubSuite {
            index: Some(index),
            name: suite_info.build_display_name(),
            test_list,
            origin_suite: origin_suite.clone(),
            exclude_test_list: None,
            mv_exclude_tags: suite_info.multiversion_tags.clone(),
            is_enterprise: false,
            platform: None,
        };
        self.gen_resmoke_task_service.build_resmoke_sub_task(
            &sub_suite,
            suite_info.total_tests,
            params,
            Some(origin_suite),
        )
    }

    /// Create the execution tasks of one round of burn_in.
    ///
    /// # Arguments
    ///
    /// * `params` - Configuration for how suites should be configured.
    /// * `index` - Index of the round.
    /// * `build_variant` - Name of build variant being generated for.
    /// * `total_tests` - Number of rounds.
    /// * `task_name` - Name of the task being generated.
    /// * `burn_in_label` - How to label the execution tasks.
    fn create_round(
        &self,
        params: &ResmokeGenParams,
        index: usize,
        build_variant: &str,
        total_tests: usize,
        task_name: &str,
        burn_in_label: &str,
    ) -> (sub_tasks: Vec<GeneratedSubTask>)
        requires
            can_burn_in(
                self.gen_resmoke_task_service.multiversion_service,
                params.deep_view(),
            ),
        ensures
            sub_tasks.deep_view() == burn_in_round(
                self.gen_resmoke_task_service.multiversion_service,
                params.deep_view(),
                index,
                BurnInSuiteInfoView {
                    build_variant: build_variant@,
                    total_tests,
                    task_name: task_name@,
                    burn_in_label: burn_in_label@,
                    multiversion_name: None,
                    multiversion_tags: None,
                },
            ),
    {
        let ghost service = self.gen_resmoke_task_service.multiversion_service;
        let ghost info = BurnInSuiteInfoView {
            build_variant: build_variant@,
            total_tests,
            task_name: task_name@,
            burn_in_label: burn_in_label@,
            multiversion_name: None,
            multiversion_tags: None,
        };
        let ghost expected = burn_in_round(service, params.deep_view(), index, info);
        let mut sub_tasks: Vec<GeneratedSubTask> = Vec::new();
        if params.require_multiversion_generate_tasks {
            if let Some(tasks) = &params.multiversion_generate_tasks {
                let ghost all = tasks.deep_view();
                let mut i: usize = 0;
                while i < tasks.len()
                    invariant
                        i <= tasks@.len(),
                        service == self.gen_resmoke_task_service.multiversion_service,
                        all == tasks.deep_view(),
                        params.require_multiversion_generate_tasks,
                        params.deep_view().multiversion_generate_tasks == Some(all),
                        forall|j: int|
                            0 <= j < all.len() ==> service.knows_mode(
                                Some((#[trigger] all[j]).old_version),
                            ),
                        info == (BurnInSuiteInfoView {
                            build_variant: build_variant@,
                            total_tests,
                            task_name: task_name@,
                            burn_in_label: burn_in_label@,
                            multiversion_name: None,
                            multiversion_tags: None,
                        }),
                        expected == burn_in_round(service, params.deep_view(), index, info),
                        sub_tasks@.len() == i,
                        forall|j: int|
                            0 <= j < i ==> (#[trigger] sub_tasks@[j]).deep_view() == expected[j],
                    decreases tasks@.len() - i,
                {
                    assert(all[i as int] == tasks[i as int].deep_view());
                    let suite_info = BurnInSuiteInfo {
                        build_variant,
                        total_tests,
                        task_name,
                        burn_in_label,
                        multiversion_name: Some(tasks[i].suite_name.as_str()),
                        multiversion_tags: Some(tasks[i].old_version.clone()),
                    };
                    assert(suite_info.deep_view() == with_multiversion(
                        info,
                        all[i as int].suite_name,
                        all[i as int].old_version,
                    ));
                    sub_tasks.push(self.create_task(params, index, &suite_info));
                    i += 1;
                }
                assert(sub_tasks.deep_view() =~= expected);
            }
        } else {
            let suite_info = BurnInSuiteInfo {
                build_variant,
                total_tests,
                task_name,
                burn_in_label,
                multiversion_name: None,
                multiversion_tags: None,
            };
            assert(suite_info.deep_view() == info);
            sub_tasks.push(self.create_task(params, index, &suite_info));
            assert(sub_tasks.deep_view() =~= expected);
        }
        sub_tasks
    }

    /// Build the burn_in_tests for the given task.
    ///
    /// # Arguments
    ///
    /// * `discovered_task` - Task discovered to pull into resmoke.
    /// * `task_def` - Evergreen project definition of task.
    /// * `run_build_variant` - Name of build variant to run burn_in_tests task on.
    ///
    /// # Returns
    ///
    /// List of sub_tasks to run as part of burn_in_tests.
    pub fn build_tests_for_task(
        &self,
        discovered_task: &DiscoveredTask,
        task_def: &EvgTask,
        run_build_variant: &str,
    ) -> (sub_tasks: Result<Vec<GeneratedSubTask>, ConfigError>)
        requires
            discovered_task.test_list@.len() > 0 ==> self.accepts(*task_def),
        ensures
            outcome(sub_tasks) == self.tests_for_task(
                discovered_task.deep_view(),
                *task_def,
                run_build_variant@,
            ),
    {
        let ghost service = self.gen_resmoke_task_service.multiversion_service;
        let ghost tests = discovered_task.test_list.deep_view();
        let ghost info = BurnInSuiteInfoView {
            build_variant: run_build_variant@,
            total_tests: tests.len() as usize,
            task_name: discovered_task.task_name@,
            burn_in_label: BURN_IN_LABEL@,
            multiversion_name: None,
            multiversion_tags: None,
        };
        let mut sub_tasks: Vec<GeneratedSubTask> = Vec::new();
        assert(sub_tasks.deep_view() =~= Seq::<GeneratedSubTaskView>::empty());
        if discovered_task.test_list.len() == 0 {
            return Ok(sub_tasks);
        }
        let base: ResmokeGenParams =
            match self.config_extraction_service.task_def_to_resmoke_params(
            task_def,
            false,
            None,
            None,
        ) {
            Ok(params) => params,
            Err(error) => {
                return Err(error);
            },
        };
        let mut i: usize = 0;
        while i < discovered_task.test_list.len()
            invariant
                i <= discovered_task.test_list@.len(),
                service == self.gen_resmoke_task_service.multiversion_service,
                tests == discovered_task.test_list.deep_view(),
                can_burn_in(service, base.deep_view()),
                info == (BurnInSuiteInfoView {
                    build_variant: run_build_variant@,
                    total_tests: tests.len() as usize,
                    task_name: discovered_task.task_name@,
                    burn_in_label: BURN_IN_LABEL@,
                    multiversion_name: None,
                    multiversion_tags: None,
                }),
                sub_tasks.deep_view() == burn_in_tests_for(
                    service,
                    base.deep_view(),
                    tests,
                    info,
                    i as int,
                ),
            decreases discovered_task.test_list@.len() - i,
        {
            let mut params: ResmokeGenParams = base.clone();
            update_resmoke_params_for_burn_in(&mut params, discovered_task.test_list[i].as_str());
            assert(params.deep_view() == burn_in_params(base.deep_view(), tests[i as int]));
            let mut round: Vec<GeneratedSubTask> = self.create_round(
                &params,
                i,
                run_build_variant,
                discovered_task.test_list.len(),
                discovered_task.task_name.as_str(),
                BURN_IN_LABEL,
            );
            let ghost before = sub_tasks.deep_view();
            let ghost added = round.deep_view();
            sub_tasks.append(&mut round);
            assert(sub_tasks.deep_view() =~= before + added);
            i += 1;
        }
        Ok(sub_tasks)
    }

    /// Build the burn_in_tasks for the given task.
    ///
    /// # Arguments
    ///
    /// * `task_def` - Evergreen project definition of task.
    /// * `build_variant` - Name of build variant being generated for.
    ///
    /// # Returns
    ///
    /// List of sub_tasks to run as part of burn_in_tasks.
    pub fn build_burn_in_tasks_for_task(&self, task_def: &EvgTask, build_variant: &BuildVariant) -> (sub_tasks:
        Result<Vec<GeneratedSubTask>, ConfigError>)
        requires
            self.accepts(*task_def),
        ensures
            outcome(sub_tasks) == self.copies_of_task(*task_def, build_variant.name@),
    {
        let ghost service = self.gen_resmoke_task_service.multiversion_service;
        let ghost info = BurnInSuiteInfoView {
            build_variant: build_variant.name@,
            total_tests: BURN_IN_REPEAT_TASK_NUM,
            task_name: task_def.name@,
            burn_in_label: BURN_IN_TASK_LABEL@,
            multiversion_name: None,
            multiversion_tags: None,
        };
        let mut sub_tasks: Vec<GeneratedSubTask> = Vec::new();
        assert(sub_tasks.deep_view() =~= Seq::<GeneratedSubTaskView>::empty());
        let params: ResmokeGenParams =
            match self.config_extraction_service.task_def_to_resmoke_params(
            task_def,
            false,
            None,
            None,
        ) {
            Ok(params) => params,
            Err(error) => {
                return Err(error);
            },
        };
        let mut i: usize = 0;
        while i < BURN_IN_REPEAT_TASK_NUM
            invariant
                i <= BURN_IN_REPEAT_TASK_NUM,
                service == self.gen_resmoke_task_service.multiversion_service,
                can_burn_in(service, params.deep_view()),
                info == (BurnInSuiteInfoView {
                    build_variant: build_variant.name@,
                    total_tests: BURN_IN_REPEAT_TASK_NUM,
                    task_name: task_def.name@,
                    burn_in_label: BURN_IN_TASK_LABEL@,
                    multiversion_name: None,
                    multiversion_tags: None,
                }),
                sub_tasks.deep_view() == burn_in_copies(
                    service,
                    params.deep_view(),
                    info,
                    i as int,
                ),
            decreases BURN_IN_REPEAT_TASK_NUM - i,
        {
            let mut round: Vec<GeneratedSubTask> = self.create_round(
                &params,
                i,
                build_variant.name.as_str(),
                BURN_IN_REPEAT_TASK_NUM,
                task_def.name.as_str(),
                BURN_IN_TASK_LABEL,
            );
            let ghost before = sub_tasks.deep_view();
            let ghost added = round.deep_view();
            sub_tasks.append(&mut round);
            assert(sub_tasks.deep_view() =~= before + added);
            i += 1;
        }
        Ok(sub_tasks)
    }

    /// Can burn_in tasks be generated from the parameters?
    fn can_burn_in_with(&self, params: &ResmokeGenParams) -> (can: bool)
        ensures
            can == can_burn_in(
                self.gen_resmoke_task_service.multiversion_service,
                params.deep_view(),
            ),
    {
        let service: &M = &self.gen_resmoke_task_service.multiversion_service;
        if !params.require_multiversion_generate_tasks {
            return service.is_mode_known(&None);
        }
        match &params.multiversion_generate_tasks {
            Some(tasks) => {
                let ghost all = tasks.deep_view();
                let mut i: usize = 0;
                while i < tasks.len()
                    invariant
                        i <= tasks@.len(),
                        all == tasks.deep_view(),
                        params.require_multiversion_generate_tasks,
                        params.deep_view().multiversion_generate_tasks == Some(all),
                        *service == self.gen_resmoke_task_service.multiversion_service,
                        forall|j: int|
                            0 <= j < i ==> service.knows_mode(
                                Some((#[trigger] all[j]).old_version),
                            ),
                    decreases tasks@.len() - i,
                {
                    assert(all[i as int] == tasks[i as int].deep_view());
                    let mode: Option<String> = Some(tasks[i].old_version.clone());
                    if !service.is_mode_known(&mode) {
                        assert(!service.knows_mode(Some(all[i as int].old_version)));
                        return false;
                    }
                    i += 1;
                }
                true
            },
            None => false,
        }
    }

    /// Can burn_in tasks be generated from the task definition?
    ///
    /// # Arguments
    ///
    /// * `task_def` - Evergreen project definition of task.
    pub fn can_burn_in_task(&self, task_def: &EvgTask) -> (can: bool)
        ensures
            can == self.accepts(*task_def),
    {
        if !has_valid_suites(task_def) {
            return false;
        }
        match self.config_extraction_service.task_def_to_resmoke_params(
            task_def,
            false,
            None,
            None,
        ) {
            Ok(params) => self.can_burn_in_with(&params),
            Err(_) => true,
        }
    }

    /// Burn_in tests can be generated for a discovered task, if its definition is known and it has
    /// tests.
    pub open spec fn accepts_discovered(
        &self,
        discovered: DiscoveredTaskView,
        task_map: Map<Seq<char>, EvgTask>,
    ) -> bool {
        task_map.contains_key(discovered.task_name) && discovered.test_list.len() > 0
            ==> self.accepts(task_map[discovered.task_name])
    }

    /// The burn_in_tests for all the discovered tasks that are defined, or the first problem.
    pub open spec fn tests_for_tasks(
        &self,
        discovered: Seq<DiscoveredTaskView>,
        task_map: Map<Seq<char>, EvgTask>,
        run_build_variant: Seq<char>,
    ) -> Result<Seq<GeneratedSubTaskView>, ConfigErrorView>
        decreases discovered.len(),
    {
        if discovered.len() == 0 {
            Ok(Seq::empty())
        } else {
            let last = discovered.last();
            match self.tests_for_tasks(discovered.drop_last(), task_map, run_build_variant) {
                Ok(before) => if task_map.contains_key(last.task_name) {
                    match self.tests_for_task(last, task_map[last.task_name], run_build_variant) {
                        Ok(tests) => Ok(before + tests),
                        Err(error) => Err(error),
                    }
                } else {
                    Ok(before)
                },
                Err(error) => Err(error),
            }
        }
    }

    /// A problem with one of the first discovered tasks is the problem with all of them.
    proof fn lemma_first_problem(
        &self,
        discovered: Seq<DiscoveredTaskView>,
        task_map: Map<Seq<char>, EvgTask>,
        run_build_variant: Seq<char>,
        n: int,
    )
        requires
            0 <= n <= discovered.len(),
            self.tests_for_tasks(discovered.take(n), task_map, run_build_variant) is Err,
        ensures
            self.tests_for_tasks(discovered, task_map, run_build_variant) == self.tests_for_tasks(
                discovered.take(n),
                task_map,
                run_build_variant,
            ),
        decreases discovered.len() - n,
    {
        if n < discovered.len() {
            assert(discovered.take(n + 1).drop_last() =~= discovered.take(n));
            self.lemma_first_problem(discovered, task_map, run_build_variant, n + 1);
        } else {
            assert(discovered.take(n) =~= discovered);
        }
    }

    /// Can the burn_in_tests task be generated from the discovered tasks?
    ///
    /// # Arguments
    ///
    /// * `discovered_tasks` - Tasks discovered for burn_in_tests.
    /// * `task_map` - Map of task definitions in evergreen project configuration.
    pub fn can_generate_burn_in_suite(
        &self,
        discovered_tasks: &Vec<DiscoveredTask>,
        task_map: &StringMap<EvgTask>,
    ) -> (can: bool)
        ensures
            can == forall|i: int|
                0 <= i < discovered_tasks@.len() ==> self.accepts_discovered(
                    (#[trigger] discovered_tasks@[i]).deep_view(),
                    task_map@,
                ),
    {
        let mut i: usize = 0;
        while i < discovered_tasks.len()
            invariant
                i <= discovered_tasks@.len(),
                forall|j: int|
                    0 <= j < i ==> self.accepts_discovered(
                        (#[trigger] discovered_tasks@[j]).deep_view(),
                        task_map@,
                    ),
            decreases discovered_tasks@.len() - i,
        {
            let discovered: &DiscoveredTask = &discovered_tasks[i];
            if let Some(task_def) = task_map.get(discovered.task_name.as_str()) {
                if discovered.test_list.len() > 0 && !self.can_burn_in_task(task_def) {
                    assert(!self.accepts_discovered(
                        discovered_tasks@[i as int].deep_view(),
                        task_map@,
                    ));
                    return false;
                }
            }
            i += 1;
        }
        true
    }

    /// Generate the burn_in_tests task from the tasks discovered for a build variant.
    ///
    /// # Arguments
    ///
    /// * `discovered_tasks` - Tasks discovered for burn_in_tests.
    /// * `run_build_variant_name` - Name of build variant to generate burn_in_tests for.
    /// * `task_map` - Map of task definitions in evergreen project configuration.
    ///
    /// # Returns
    ///
    /// A generated suite to use for generating burn_in_tests.
    pub fn generate_burn_in_suite(
        &self,
        discovered_tasks: &Vec<DiscoveredTask>,
        run_build_variant_name: &str,
        task_map: &StringMap<EvgTask>,
    ) -> (suite: Result<GeneratedResmokeSuite, ConfigError>)
        requires
            forall|i: int|
                0 <= i < discovered_tasks@.len() ==> self.accepts_discovered(
                    (#[trigger] discovered_tasks@[i]).deep_view(),
                    task_map@,
                ),
        ensures
            match self.tests_for_tasks(
                discovered_tasks.deep_view(),
                task_map@,
                run_build_variant_name@,
            ) {
                Ok(sub_tasks) => suite matches Ok(suite) && suite.suite() == tests_suite_of(
                    sub_tasks,
                ),
                Err(error) => suite matches Err(e) && e.deep_view() == error,
            },
    {
        let ghost all = discovered_tasks.deep_view();
        let mut sub_suites: Vec<GeneratedSubTask> = Vec::new();
        assert(sub_suites.deep_view() =~= Seq::<GeneratedSubTaskView>::empty());
        let mut i: usize = 0;
        while i < discovered_tasks.len()
            invariant
                i <= discovered_tasks@.len(),
                all == discovered_tasks.deep_view(),
                forall|j: int|
                    0 <= j < discovered_tasks@.len() ==> self.accepts_discovered(
                        (#[trigger] discovered_tasks@[j]).deep_view(),
                        task_map@,
                    ),
                self.tests_for_tasks(all.take(i as int), task_map@, run_build_variant_name@) == Ok::<
                    Seq<GeneratedSubTaskView>,
                    ConfigErrorView,
                >(sub_suites.deep_view()),
            decreases discovered_tasks@.len() - i,
        {
            assert(all.take(i + 1).drop_last() =~= all.take(i as int));
            assert(all[i as int] == discovered_tasks@[i as int].deep_view());
            let discovered_task: &DiscoveredTask = &discovered_tasks[i];
            if let Some(task_def) = task_map.get(discovered_task.task_name.as_str()) {
                match self.build_tests_for_task(discovered_task, task_def, run_build_variant_name) {
                    Ok(mut tests) => {
                        let ghost before = sub_suites.deep_view();
                        let ghost added = tests.deep_view();
                        sub_suites.append(&mut tests);
                        assert(sub_suites.deep_view() =~= before + added);
                    },
                    Err(error) => {
                        proof {
                            self.lemma_first_problem(
                                all,
                                task_map@,
                                run_build_variant_name@,
                                i + 1,
                            );
                        }
                        return Err(error);
                    },
                }
            }
            i += 1;
        }
        assert(all.take(i as int) =~= all);
        Ok(
            GeneratedResmokeSuite {
                task_name: BURN_IN_TESTS_DISPLAY_NAME.to_owned(),
                sub_suites,
            },
        )
    }

    /// Generate a burn_in_tags build variant for the given base build variant.
    ///
    /// # Arguments
    ///
    /// * `base_build_variant` - Build variant to generate burn_in_tags build variant based on.
    /// * `run_build_variant_name` - Build variant name to run burn_in_tests task on.
    /// * `generated_task` - Generated burn_in_tests task.
    /// * `compile_task_dependency` - Compile task name generated build variant should depend on.
    ///
    /// # Returns
    ///
    /// A generated burn_in_tags build variant based on another build variant.
    pub fn generate_burn_in_tags_build_variant<G: GeneratedSuite>(
        &self,
        base_build_variant: &BuildVariant,
        run_build_variant_name: String,
        generated_task: &G,
        compile_task_dependency: String,
    ) -> (variant: Result<BuildVariant, ConfigError>)
        ensures
            outcome(variant) == burn_in_tag_variant_of(
                self.config_extraction_service.exceptions(),
                base_build_variant.deep_view(),
                run_build_variant_name@,
                generated_task.suite(),
                compile_task_dependency@,
            ),
    {
        let large_distro: Option<String> =
            match self.config_extraction_service.determine_large_distro(
            generated_task,
            base_build_variant,
        ) {
            Ok(distro) => distro,
            Err(error) => {
                return Err(error);
            },
        };
        let display_name: Option<String> = match &base_build_variant.display_name {
            Some(name) => {
                let mut display_name: String = BURN_IN_DISPLAY_NAME_PREFIX.to_owned();
                display_name.append(" ");
                display_name.append(name.as_str());
                Some(display_name)
            },
            None => None,
        };
        let mut expansions: StringMap<String> = match &base_build_variant.expansions {
            Some(expansions) => clone_strings_map(expansions),
            None => StringMap::new(),
        };
        let ghost base_expansions = expansions.deep_view();
        assert(base_expansions =~= match base_build_variant.deep_view().expansions {
            Some(expansions) => expansions,
            None => Map::empty(),
        });
        expansions.insert(BURN_IN_BYPASS.to_owned(), base_build_variant.name.clone());
        assert(expansions.deep_view() =~= base_expansions.insert(
            BURN_IN_BYPASS@,
            base_build_variant.name@,
        ));
        let compile_variant: String = match self.evg_config_utils.lookup_build_variant_expansion(
            COMPILE_VARIANT,
            base_build_variant,
        ) {
            Some(variant) => variant,
            None => base_build_variant.name.clone(),
        };
        let mut display_tasks: Vec<DisplayTask> = Vec::new();
        display_tasks.push(generated_task.build_display_task());
        assert(display_tasks.deep_view() =~= seq![display_task_of(generated_task.suite())]);
        let mut depends_on: Vec<TaskDependency> = Vec::new();
        depends_on.push(
            TaskDependency { name: compile_task_dependency, variant: Some(compile_variant) },
        );
        depends_on.push(
            TaskDependency {
                name: VERSION_BURN_IN_GEN_TASK.to_owned(),
                variant: Some(VERSION_GEN_VARIANT.to_owned()),
            },
        );
        assert(depends_on.deep_view() =~= burn_in_tag_dependencies(
            base_build_variant.deep_view(),
            compile_task_dependency@,
        ));
        let run_on = base_build_variant.run_on.clone();
        assert(run_on.deep_view() =~~= base_build_variant.run_on.deep_view());
        let modules = base_build_variant.modules.clone();
        assert(modules.deep_view() =~~= base_build_variant.modules.deep_view());
        Ok(
            BuildVariant {
                name: run_build_variant_name,
                tasks: generated_task.build_task_ref(large_distro, None),
                display_name,
                run_on,
                display_tasks: Some(display_tasks),
                batchtime: None,
                expansions: Some(expansions),
                stepback: None,
                modules,
                depends_on: Some(depends_on),
                activate: Some(false),
            },
        )
    }

    /// Can the burn_in_tasks task be generated for the given build variant, if it names the task
    /// to run?
    ///
    /// # Arguments
    ///
    /// * `build_variant` - Build variant to generate burn_in_tasks for.
    /// * `task_map` - Map of task definitions found in the evergreen project configuration.
    pub fn can_generate_burn_in_tasks_suite(
        &self,
        build_variant: &BuildVariant,
        task_map: &StringMap<EvgTask>,
    ) -> (can: bool)
        ensures
            can == (expansion(build_variant.deep_view(), BURN_IN_TASK_NAME@) matches Some(name)
                && (task_map@.contains_key(name) ==> self.accepts(task_map@[name]))),
    {
        match self.evg_config_utils.lookup_build_variant_expansion(
            BURN_IN_TASK_NAME,
            build_variant,
        ) {
            Some(name) => match task_map.get(name.as_str()) {
                Some(task_def) => self.can_burn_in_task(task_def),
                None => true,
            },
            None => false,
        }
    }

    /// Generate a burn_in_tasks task for the given build variant.
    ///
    /// # Arguments
    ///
    /// * `build_variant` - Build variant to generate burn_in_tasks for.
    /// * `task_map` - Map of task definitions found in the evergreen project configuration.
    ///
    /// # Returns
    ///
    /// A generated task for burn_in_tasks on the given build variant.
    pub fn generate_burn_in_tasks_suite(
        &self,
        build_variant: &BuildVariant,
        task_map: &StringMap<EvgTask>,
    ) -> (suite: Result<GeneratedResmokeSuite, ConfigError>)
        requires
            expansion(build_variant.deep_view(), BURN_IN_TASK_NAME@) matches Some(name) && (
            task_map@.contains_key(name) ==> self.accepts(task_map@[name])),
        ensures
            match self.copies_for_variant(build_variant.deep_view(), task_map@) {
                Ok(sub_tasks) => suite matches Ok(suite) && suite.suite() == copies_suite_of(
                    sub_tasks,
                ),
                Err(error) => suite matches Err(e) && e.deep_view() == error,
            },
    {
        let name: String = self.evg_config_utils.lookup_build_variant_expansion(
            BURN_IN_TASK_NAME,
            build_variant,
        ).unwrap();
        let mut sub_suites: Vec<GeneratedSubTask> = Vec::new();
        assert(sub_suites.deep_view() =~= Seq::<GeneratedSubTaskView>::empty());
        if let Some(task_def) = task_map.get(name.as_str()) {
            match self.build_burn_in_tasks_for_task(task_def, build_variant) {
                Ok(tasks) => {
                    sub_suites = tasks;
                },
                Err(error) => {
                    return Err(error);
                },
            }
        }
        Ok(
            GeneratedResmokeSuite {
                task_name: BURN_IN_TASKS_DISPLAY_NAME.to_owned(),
                sub_suites,
            },
        )
    }

    /// The burn_in_tasks for the task that a build variant names; none if it is not defined.
    pub open spec fn copies_for_variant(
        &self,
        variant: BuildVariantView,
        task_map: Map<Seq<char>, EvgTask>,
    ) -> Result<Seq<GeneratedSubTaskView>, ConfigErrorView> {
        let name = expansion(variant, BURN_IN_TASK_NAME@).unwrap();
        if task_map.contains_key(name) {
            self.copies_of_task(task_map[name], variant.name)
        } else {
            Ok(Seq::empty())
        }
    }
}

/// The suite that shows the tests that burn_in runs.
pub open spec fn tests_suite_of(sub_tasks: Seq<GeneratedSubTaskView>) -> SuiteView {
    SuiteView { display_name: BURN_IN_TESTS_DISPLAY_NAME@, sub_tasks }
}

/// The suite that shows the copies of a task that burn_in runs.
pub open spec fn copies_suite_of(sub_tasks: Seq<GeneratedSubTaskView>) -> SuiteView {
    SuiteView { display_name: BURN_IN_TASKS_DISPLAY_NAME@, sub_tasks }
}

/// The dependencies of a burn_in_tags build variant: the compile task of the base build variant,
/// and the task that generates burn_in for the version.
pub open spec fn burn_in_tag_dependencies(base: BuildVariantView, compile_task: Seq<char>) -> Seq<
    TaskDependencyView,
> {
    seq![
        TaskDependencyView {
            name: compile_task,
            variant: Some(
                match expansion(base, COMPILE_VARIANT@) {
                    Some(variant) => variant,
                    None => base.name,
                },
            ),
        },
        TaskDependencyView {
            name: VERSION_BURN_IN_GEN_TASK@,
            variant: Some(VERSION_GEN_VARIANT@),
        },
    ]
}

/// The burn_in_tags build variant based on another build variant, or the problem that a large
/// distro is missing.
pub open spec fn burn_in_tag_variant_of(
    exceptions: Option<Set<Seq<char>>>,
    base: BuildVariantView,
    name: Seq<char>,
    suite: SuiteView,
    compile_task: Seq<char>,
) -> Result<BuildVariantView, ConfigErrorView> {
    match large_distro_of(exceptions, suite, base) {
        Ok(distro) => Ok(
            BuildVariantView {
                name,
                tasks: task_refs_of(suite, distro, None),
                display_name: match base.display_name {
                    Some(display_name) => Some(
                        BURN_IN_DISPLAY_NAME_PREFIX@ + " "@ + display_name,
                    ),
                    None => None,
                },
                run_on: base.run_on,
                display_tasks: Some(seq![display_task_of(suite)]),
                modules: base.modules,
                expansions: Some(
                    (match base.expansions {
                        Some(expansions) => expansions,
                        None => Map::empty(),
                    }).insert(BURN_IN_BYPASS@, base.name),
                ),
                depends_on: Some(burn_in_tag_dependencies(base, compile_task)),
                activate: Some(false),
                ..empty_build_variant()
            },
        ),
        Err(error) => Err(error),
    }
}

} // verus!
