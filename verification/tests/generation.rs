use mongo_task_generator::errors::ConfigError;
use mongo_task_generator::evergreen::evg_config::{EvgProject, EvgProjectConfig};
use mongo_task_generator::evergreen::evg_config_utils::{
    EvgConfigUtilsImpl, MultiversionGenerateTaskConfig,
};
use mongo_task_generator::evergreen::model::{
    fn_call, fn_call_with_params, text_param, BuildVariant, EvgModule, EvgTask, Expansions,
    TaskDependency, TaskRef,
};
use mongo_task_generator::evergreen_names::{
    BURN_IN_TAGS, BURN_IN_TASKS, BURN_IN_TESTS, GENERATE_RESMOKE_TASKS,
    MULTIVERSION_BINARY_SELECTION,
};
use mongo_task_generator::evg_expansions::{bool_from_text, EvgExpansions};
use mongo_task_generator::generation::burn_in_tags::{
    check_burn_in_tags, find_burn_in_tag_problem, generate_burn_in_build_variant_info,
    BurnInTagProblem,
};
use mongo_task_generator::generation::collection::{
    add_burn_in_suite, add_generated_task, burn_in_tags_variant_name, burn_in_tasks_name,
    burn_in_tests_name, lookup_task_name, task_definitions, GenTaskCollection, GeneratedTask,
    BURN_IN_TASKS_PREFIX, BURN_IN_TESTS_PREFIX,
};
use mongo_task_generator::generation::limits::{TaskBudget, TaskTargets};
use mongo_task_generator::generation::plan::{GenerateTasksServiceImpl, GenerationStep};
use mongo_task_generator::generation::project_info::ProjectInfo;
use mongo_task_generator::generation::tasks::{find_suites, TaskPlan};
use mongo_task_generator::resmoke::resmoke_proxy::MultiversionConfig;
use mongo_task_generator::services::config_extraction::ConfigExtractionServiceImpl;
use mongo_task_generator::task_types::burn_in_tests::BurnInServiceImpl;
use mongo_task_generator::task_types::fuzzer_tasks::{
    FuzzerGenTaskParams, FuzzerTask, GenFuzzerServiceImpl,
};
use mongo_task_generator::task_types::generated_suite::{GeneratedSubTask, GeneratedSuite};
use mongo_task_generator::task_types::multiversion::MultiversionServiceImpl;
use mongo_task_generator::task_types::resmoke_tasks::{
    GenResmokeConfig, GenResmokeTaskServiceImpl, GeneratedResmokeSuite, ResmokeGenParams,
    SubtaskLimits,
};
use mongo_task_generator::utils::string_map::StringMap;

#[test]
fn test_lookup_task_name_should_use_enterprise_when_specified() {
    let cases = [
        (false, "my_task", "my_platform", "my_task-my_platform"),
        (true, "my_task", "my_platform", "my_task-my_platform-enterprise"),
    ];
    for (is_enterprise, task_name, platform, expected_task_name) in cases {
        assert_eq!(
            lookup_task_name(is_enterprise, task_name, platform, None),
            expected_task_name.to_string()
        );
    }
}

#[test]
fn the_unique_suffix_ends_a_name() {
    assert_eq!(
        lookup_task_name(true, "task", "linux", Some("_asan")),
        "task-linux-enterprise_asan"
    );
}

fn burn_in_suite(sub_suites: Vec<GeneratedSubTask>) -> GeneratedResmokeSuite {
    GeneratedResmokeSuite {
        task_name: "burn_in_tests".to_string(),
        sub_suites,
    }
}

// tests for create_burn_in_worker.
#[test]
fn test_create_burn_in_worker_should_add_task_when_burn_in_suites_are_present() {
    let mut generated_tasks: GenTaskCollection = StringMap::new();

    add_burn_in_suite(
        &mut generated_tasks,
        burn_in_tests_name("run_bv_name"),
        burn_in_suite(vec![GeneratedSubTask::default()]),
    );

    assert_eq!(
        generated_tasks.contains_key(&format!("{}-{}", BURN_IN_TESTS_PREFIX, "run_bv_name")),
        true
    );
}

#[test]
fn test_create_burn_in_worker_should_not_add_task_when_burn_in_suites_are_absent() {
    let mut generated_tasks: GenTaskCollection = StringMap::new();

    add_burn_in_suite(
        &mut generated_tasks,
        burn_in_tests_name("run_bv_name"),
        burn_in_suite(vec![]),
    );

    assert_eq!(
        generated_tasks.contains_key(&format!("{}-{}", BURN_IN_TESTS_PREFIX, "run_bv_name")),
        false
    );
}

// tests for create_burn_in_tasks_worker.
#[test]
fn test_create_burn_in_tasks_worker_should_add_task_when_burn_in_tasks_are_present() {
    let mut generated_tasks: GenTaskCollection = StringMap::new();

    add_burn_in_suite(
        &mut generated_tasks,
        burn_in_tasks_name("bv_name"),
        burn_in_suite(vec![GeneratedSubTask::default()]),
    );

    assert_eq!(
        generated_tasks.contains_key(&format!("{}-{}", BURN_IN_TASKS_PREFIX, "bv_name")),
        true
    );
}

#[test]
fn test_create_burn_in_tasks_worker_should_not_add_task_when_burn_in_tasks_are_absent() {
    let mut generated_tasks: GenTaskCollection = StringMap::new();

    add_burn_in_suite(
        &mut generated_tasks,
        burn_in_tasks_name("bv_name"),
        burn_in_suite(vec![]),
    );

    assert_eq!(
        generated_tasks.contains_key(&format!("{}-{}", BURN_IN_TASKS_PREFIX, "bv_name")),
        false
    );
}

fn sub_task(name: &str) -> GeneratedSubTask {
    GeneratedSubTask {
        evg_task: EvgTask {
            name: name.to_string(),
            ..Default::default()
        },
        ..Default::default()
    }
}

#[test]
fn the_definitions_are_those_of_all_sub_tasks() {
    let mut generated: GenTaskCollection = StringMap::new();
    add_generated_task(
        &mut generated,
        "fuzzer".to_string(),
        GeneratedTask::Fuzzer(FuzzerTask {
            task_name: "fuzzer".to_string(),
            sub_tasks: vec![sub_task("fuzzer_0").evg_task],
        }),
    );
    add_generated_task(
        &mut generated,
        "suite".to_string(),
        GeneratedTask::Resmoke(burn_in_suite(vec![sub_task("suite_0"), sub_task("suite_1")])),
    );
    let names: Vec<String> = task_definitions(&generated).into_iter().map(|t| t.name).collect();
    assert_eq!(names, vec!["fuzzer_0", "suite_0", "suite_1"]);
}

// Build variants and their tasks.
fn expansions(entries: &[(&str, &str)]) -> Expansions {
    let mut map = StringMap::new();
    for (name, value) in entries {
        map.insert(name.to_string(), value.to_string());
    }
    map
}

fn task_ref(name: &str) -> TaskRef {
    TaskRef {
        name: name.to_string(),
        depends_on: None,
        distros: None,
        activate: None,
    }
}

fn variant(name: &str, tasks: &[&str], entries: &[(&str, &str)]) -> BuildVariant {
    BuildVariant {
        name: name.to_string(),
        tasks: tasks.iter().map(|t| task_ref(t)).collect(),
        run_on: Some(vec!["rhel-small".to_string()]),
        expansions: Some(expansions(entries)),
        ..Default::default()
    }
}

fn generated_task(name: &str) -> EvgTask {
    EvgTask {
        name: name.to_string(),
        commands: Some(vec![fn_call(GENERATE_RESMOKE_TASKS)]),
        ..Default::default()
    }
}

fn plain_task(name: &str) -> EvgTask {
    EvgTask {
        name: name.to_string(),
        commands: Some(vec![fn_call("run tests")]),
        ..Default::default()
    }
}

fn new_service(
    buildvariants: Vec<BuildVariant>,
    tasks: Vec<EvgTask>,
    gen_burn_in: bool,
    targets: TaskTargets,
) -> GenerateTasksServiceImpl {
    GenerateTasksServiceImpl::new(
        EvgProjectConfig::new(EvgProject {
            buildvariants,
            tasks,
            modules: None,
        }),
        EvgConfigUtilsImpl::new(),
        GenFuzzerServiceImpl::new(),
        ConfigExtractionServiceImpl::new(
            EvgConfigUtilsImpl::new(),
            "generating_task".to_string(),
            "config_location".to_string(),
            None,
        ),
        gen_burn_in,
        targets,
    )
}

fn limits() -> SubtaskLimits {
    SubtaskLimits {
        test_runtime_per_required_subtask: 0,
        large_required_task_runtime_threshold: 0,
        default_subtasks_per_task: 5,
        max_subtasks_per_task: 10,
    }
}

fn new_burn_in_service() -> BurnInServiceImpl<MultiversionServiceImpl> {
    BurnInServiceImpl::new(
        GenResmokeTaskServiceImpl::new(
            MultiversionServiceImpl::new(MultiversionConfig {
                last_versions: vec![],
                requires_fcv_tag: "fcv".to_string(),
                requires_fcv_tag_lts: None,
                requires_fcv_tag_continuous: None,
            }),
            GenResmokeConfig::new(false, None),
            limits(),
        ),
        ConfigExtractionServiceImpl::new(
            EvgConfigUtilsImpl::new(),
            "generating_task".to_string(),
            "config_location".to_string(),
            None,
        ),
        EvgConfigUtilsImpl::new(),
    )
}

fn step(name: &str, build_variant: &str, task_name: &str) -> GenerationStep {
    GenerationStep::Task {
        name: name.to_string(),
        build_variant: build_variant.to_string(),
        task_name: task_name.to_string(),
    }
}

#[test]
fn a_name_is_planned_once_and_for_a_required_variant_first() {
    let mut service = new_service(
        vec![
            variant("linux", &["suite_gen", "compile"], &[]),
            variant("linux-required", &["suite_gen"], &[]),
            variant("windows-required", &["suite_gen", "unknown"], &[]),
        ],
        vec![generated_task("suite_gen"), plain_task("compile")],
        false,
        TaskTargets::default(),
    );
    service.evg_config_service.evg_project.buildvariants[2].run_on =
        Some(vec!["windows-small".to_string()]);
    let steps = service.plan_generated_tasks();
    assert_eq!(steps.len(), 2);
    assert!(steps.contains(&step("suite_gen-linux-enterprise", "linux-required", "suite_gen")));
    assert!(steps.contains(&step(
        "suite_gen-windows-enterprise",
        "windows-required",
        "suite_gen"
    )));
}

#[test]
fn only_the_targets_are_planned() {
    let variants = || {
        vec![
            variant("a", &["one_gen", "two_gen"], &[("unique_gen_suffix", "_a")]),
            variant("b", &["one_gen", "two_gen"], &[("unique_gen_suffix", "_b")]),
        ]
    };
    let tasks = || vec![generated_task("one_gen"), generated_task("two_gen")];
    for task in ["two_gen", "two"] {
        let targets = TaskTargets {
            variant: Some("b".to_string()),
            task: Some(task.to_string()),
        };
        let steps = new_service(variants(), tasks(), false, targets).plan_generated_tasks();
        assert_eq!(steps, vec![step("two_gen-linux-enterprise_b", "b", "two_gen")]);
    }
    let all = new_service(variants(), tasks(), false, TaskTargets::default());
    assert_eq!(all.plan_generated_tasks().len(), 4);
    let targets = TaskTargets {
        variant: None,
        task: Some("tw".to_string()),
    };
    assert!(new_service(variants(), tasks(), false, targets).plan_generated_tasks().is_empty());
}

#[test]
fn burn_in_plans_nothing_but_burn_in() {
    let service = new_service(
        vec![
            variant("a", &["one_gen", BURN_IN_TESTS, BURN_IN_TASKS], &[]),
            variant(
                "tags",
                &[BURN_IN_TAGS],
                &[("burn_in_tag_include_build_variants", "a")],
            ),
        ],
        vec![generated_task("one_gen")],
        true,
        TaskTargets::default(),
    );
    let map = service.evg_config_service.get_build_variant_map();
    assert!(service.knows_all_tags(&map));
    let steps = service.plan_generated_tasks();
    assert_eq!(steps.len(), 3);
    assert!(steps.contains(&GenerationStep::BurnInTests {
        name: "burn_in_tests-a".to_string(),
        build_variant: "a".to_string(),
        run_build_variant_name: "a".to_string(),
    }));
    assert!(steps.contains(&GenerationStep::BurnInTasks {
        name: "burn_in_tasks-a".to_string(),
        build_variant: "a".to_string(),
    }));
    assert!(steps.contains(&GenerationStep::BurnInTests {
        name: "burn_in_tests-a-generated-by-burn-in-tags".to_string(),
        build_variant: "a".to_string(),
        run_build_variant_name: burn_in_tags_variant_name("a"),
    }));
}

#[test]
fn no_burn_in_is_planned_unless_asked_for() {
    let service = new_service(
        vec![variant("a", &["one_gen", BURN_IN_TESTS, BURN_IN_TAGS, BURN_IN_TASKS], &[])],
        vec![
            generated_task("one_gen"),
            generated_task(BURN_IN_TESTS),
            generated_task(BURN_IN_TAGS),
            generated_task(BURN_IN_TASKS),
        ],
        false,
        TaskTargets::default(),
    );
    assert_eq!(
        service.plan_generated_tasks(),
        vec![step("one_gen-linux-enterprise", "a", "one_gen")]
    );
}

#[test]
fn enterprise_can_be_switched_off() {
    let service = new_service(vec![], vec![], false, TaskTargets::default());
    let community = variant(
        "community",
        &[],
        &[("resmoke_args", "--a --enableEnterpriseTests=off")],
    );
    let context = service.find_context(&community);
    assert!(!context.is_enterprise);
    assert_eq!(context.platform, "linux");
    let mut mac = variant("mac", &[], &[]);
    mac.run_on = Some(vec!["MacOS-1100".to_string()]);
    let context = service.find_context(&mac);
    assert!(context.is_enterprise);
    assert_eq!(context.platform, "macos");
}

// Plans of single tasks.
#[test]
fn a_task_is_planned_as_what_it_is() {
    let build_variant = variant("a", &[], &[]);
    let service = new_service(vec![], vec![], false, TaskTargets::default());
    let suite = generated_task("suite_gen");
    assert!(service.can_generate_task(&suite));
    match service.find_generated_task(&suite, &build_variant) {
        Some(Ok(TaskPlan::Resmoke(params))) => {
            assert_eq!(params.task_name, "suite");
            assert!(params.is_enterprise);
            assert_eq!(params.platform, Some("linux".to_string()));
        }
        _ => panic!("a resmoke task was expected"),
    }

    let mut vars = StringMap::new();
    for (name, value) in [
        ("is_jstestfuzz", "true"),
        ("num_tasks", "2"),
        ("num_files", "${files}"),
        ("resmoke_args", ""),
        ("resmoke_jobs_max", "1"),
        ("continue_on_failure", "false"),
        ("should_shuffle", "false"),
        ("timeout_secs", "1800"),
    ] {
        vars.insert(name.to_string(), text_param(value));
    }
    let fuzzer = EvgTask {
        name: "fuzzer_gen".to_string(),
        commands: Some(vec![fn_call_with_params(GENERATE_RESMOKE_TASKS, vars)]),
        ..Default::default()
    };
    assert!(service.can_generate_task(&fuzzer));
    assert!(service.find_generated_task(&fuzzer, &build_variant).is_none());
    match service.find_generated_task(&fuzzer, &variant("a", &[], &[("files", "15")])) {
        Some(Ok(TaskPlan::Fuzzer(task))) => {
            assert_eq!(task.task_name, "fuzzer");
            assert_eq!(task.sub_tasks.len(), 2);
        }
        _ => panic!("a fuzzer task was expected"),
    }
    let with_files = variant("a", &[], &[("files", "15")]);
    for (budget, expected) in [(Some(1), 1), (Some(5), 2), (None, 2)] {
        match service.find_task_within(&fuzzer, &with_files, &TaskBudget::new(budget)) {
            Some(Ok(TaskPlan::Fuzzer(task))) => assert_eq!(task.sub_tasks.len(), expected),
            _ => panic!("a fuzzer task was expected"),
        }
    }
    assert!(service
        .find_task_within(&fuzzer, &build_variant, &TaskBudget::new(Some(1)))
        .is_none());
}

#[test]
fn a_multiversion_fuzzer_needs_its_suites() {
    let mut vars = StringMap::new();
    vars.insert("is_jstestfuzz".to_string(), text_param("true"));
    let fuzzer = EvgTask {
        name: "fuzzer_gen".to_string(),
        commands: Some(vec![fn_call_with_params(GENERATE_RESMOKE_TASKS, vars)]),
        tags: Some(vec!["multiversion".to_string()]),
        ..Default::default()
    };
    let service = new_service(vec![], vec![], false, TaskTargets::default());
    assert!(!service.can_generate_task(&fuzzer));
}

// Generated build variants.
#[test]
fn generated_tasks_are_grouped_on_their_variant() {
    let build_variant = variant("a", &["suite_gen", "compile"], &[]);
    let service = new_service(
        vec![build_variant],
        vec![generated_task("suite_gen")],
        false,
        TaskTargets::default(),
    );
    let mut generated: GenTaskCollection = StringMap::new();
    add_generated_task(
        &mut generated,
        "suite_gen-linux-enterprise".to_string(),
        GeneratedTask::Resmoke(GeneratedResmokeSuite {
            task_name: "suite".to_string(),
            sub_suites: vec![sub_task("suite_0"), sub_task("suite_1")],
        }),
    );
    let variants = service.generate_build_variants(&new_burn_in_service(), &generated).unwrap();
    assert_eq!(variants.len(), 1);
    assert_eq!(variants[0].name, "a");
    assert_eq!(variants[0].activate, Some(false));
    assert_eq!(variants[0].display_name, None);
    let refs: Vec<&str> = variants[0].tasks.iter().map(|t| t.name.as_str()).collect();
    assert_eq!(refs, vec!["suite_0", "suite_1"]);
    let display_tasks = variants[0].display_tasks.as_ref().unwrap();
    assert_eq!(display_tasks.len(), 2);
    assert_eq!(display_tasks[0].name, "suite");
    assert_eq!(display_tasks[0].execution_tasks, vec!["suite_0", "suite_1"]);
    assert_eq!(display_tasks[1].name, "generator_tasks");
    assert_eq!(display_tasks[1].execution_tasks, vec!["suite_gen"]);
}

#[test]
fn multiversion_tasks_wait_for_their_binaries() {
    let mut build_variant = variant("a", &["suite_gen"], &[]);
    build_variant.tasks[0].depends_on = Some(vec![TaskDependency {
        name: "compile".to_string(),
        variant: Some("other".to_string()),
    }]);
    let service = new_service(vec![build_variant], vec![], false, TaskTargets::default());
    let mut multiversion = sub_task("suite_0");
    multiversion.evg_task.depends_on = Some(vec![TaskDependency {
        name: MULTIVERSION_BINARY_SELECTION.to_string(),
        variant: None,
    }]);
    let mut generated: GenTaskCollection = StringMap::new();
    add_generated_task(
        &mut generated,
        "suite_gen-linux-enterprise".to_string(),
        GeneratedTask::Resmoke(burn_in_suite(vec![multiversion])),
    );
    let variants = service.generate_build_variants(&new_burn_in_service(), &generated).unwrap();
    let tasks = &variants[0].tasks;
    assert_eq!(tasks.len(), 2);
    let dependencies: Vec<&str> =
        tasks[0].depends_on.as_ref().unwrap().iter().map(|d| d.name.as_str()).collect();
    assert_eq!(dependencies, vec!["compile", "select_multiversion_binaries"]);
    assert_eq!(tasks[1].name, "select_multiversion_binaries");
    assert_eq!(tasks[1].activate, Some(false));
}

#[test]
fn a_variant_without_generated_tasks_is_left_out() {
    let service = new_service(
        vec![variant("a", &["compile"], &[])],
        vec![],
        false,
        TaskTargets::default(),
    );
    let generated: GenTaskCollection = StringMap::new();
    let variants = service.generate_build_variants(&new_burn_in_service(), &generated).unwrap();
    assert!(variants.is_empty());
}

#[test]
fn a_missing_large_distro_stops_the_build_variants() {
    let service = new_service(
        vec![variant("a", &["suite_gen"], &[])],
        vec![],
        false,
        TaskTargets::default(),
    );
    let mut large = sub_task("suite_0");
    large.use_large_distro = true;
    let mut generated: GenTaskCollection = StringMap::new();
    add_generated_task(
        &mut generated,
        "suite_gen-linux-enterprise".to_string(),
        GeneratedTask::Resmoke(burn_in_suite(vec![large])),
    );
    assert_eq!(
        service.generate_build_variants(&new_burn_in_service(), &generated),
        Err(ConfigError::MissingLargeDistro {
            build_variant: "a".to_string(),
        })
    );
}

#[test]
fn burn_in_tags_have_a_build_variant_of_their_own() {
    let base = variant("base", &["suite_gen"], &[]);
    let tags = variant(
        "tags",
        &[BURN_IN_TAGS],
        &[
            ("burn_in_tag_include_build_variants", "base"),
            ("burn_in_tag_compile_task_dependency", "compile"),
        ],
    );
    let mut service = new_service(vec![base, tags], vec![], true, TaskTargets::default());
    service.evg_config_service.evg_project.buildvariants[0].display_name = Some("Base".to_string());
    let map = service.evg_config_service.get_build_variant_map();
    assert_eq!(check_burn_in_tags(&EvgConfigUtilsImpl::new(), &map), None);
    let mut generated: GenTaskCollection = StringMap::new();
    add_burn_in_suite(
        &mut generated,
        burn_in_tests_name(&burn_in_tags_variant_name("base")),
        burn_in_suite(vec![sub_task("test_0")]),
    );
    let variants = service.generate_build_variants(&new_burn_in_service(), &generated).unwrap();
    let names: Vec<&str> = variants.iter().map(|v| v.name.as_str()).collect();
    assert_eq!(names.len(), 2);
    assert!(names.contains(&"tags"));
    assert!(names.contains(&"base-generated-by-burn-in-tags"));
}

// Burn in tags.
fn tag_problem(variants: Vec<BuildVariant>) -> Option<BurnInTagProblem> {
    let config = EvgProjectConfig::new(EvgProject {
        buildvariants: variants,
        tasks: vec![],
        modules: None,
    });
    check_burn_in_tags(&EvgConfigUtilsImpl::new(), &config.get_build_variant_map())
}

#[test]
fn tags_without_variants_are_a_problem() {
    let problem = tag_problem(vec![variant("tags", &[BURN_IN_TAGS], &[])]).unwrap();
    assert_eq!(
        problem.message(),
        "`tags` build variant is either missing or has an empty list for the \
         `burn_in_tag_include_build_variants` expansion. Set the expansion in your project's \
         config to run burn_in_tags_gen."
    );
}

#[test]
fn tags_without_a_compile_task_are_a_problem() {
    let problem = tag_problem(vec![
        variant("base", &[], &[]),
        variant("tags", &[BURN_IN_TAGS], &[("burn_in_tag_include_build_variants", "base")]),
    ])
    .unwrap();
    assert_eq!(
        problem.message(),
        "`tags` build variant is missing the `burn_in_tag_compile_task_dependency` expansion to \
         run `burn_in_tags_gen`. Set the expansion in your project's config to continue."
    );
}

#[test]
fn tags_for_an_unknown_variant_are_a_problem() {
    let problem = tag_problem(vec![variant(
        "tags",
        &[BURN_IN_TAGS],
        &[
            ("burn_in_tag_include_build_variants", "unknown"),
            ("burn_in_tag_compile_task_dependency", "compile"),
        ],
    )])
    .unwrap();
    assert_eq!(
        problem.message(),
        "`tags` is trying to create a build variant that does not exist: unknown. Check the \
         burn_in_tag_include_build_variants expansion in this variant."
    );
}

#[test]
fn tags_that_disagree_are_a_problem() {
    let tags = |name: &str, task: &str| {
        variant(
            name,
            &[BURN_IN_TAGS],
            &[
                ("burn_in_tag_include_build_variants", "base"),
                ("burn_in_tag_compile_task_dependency", task),
            ],
        )
    };
    let base = || variant("base", &[], &[]);
    assert_eq!(tag_problem(vec![base(), tags("one", "compile"), tags("two", "compile")]), None);
    let problem =
        tag_problem(vec![base(), tags("one", "compile"), tags("two", "other")]).unwrap();
    assert!(problem.message().contains(
        "` is trying to set a different compile task dependency than already exists for `base`. \
         Check the `burn_in_tag_compile_task_dependency` expansions in your config."
    ));
}

#[test]
fn tags_are_collected_by_variant() {
    let utils = EvgConfigUtilsImpl::new();
    let config = EvgProjectConfig::new(EvgProject {
        buildvariants: vec![
            variant("one", &[], &[]),
            variant("two", &[], &[]),
            variant(
                "tags",
                &[BURN_IN_TAGS],
                &[
                    ("burn_in_tag_include_build_variants", "one two"),
                    ("burn_in_tag_compile_task_dependency", "compile"),
                ],
            ),
        ],
        tasks: vec![],
        modules: None,
    });
    let map = config.get_build_variant_map();
    let mut infos = StringMap::new();
    let tags = map.get("tags").unwrap();
    assert_eq!(find_burn_in_tag_problem(&utils, &infos, tags, &map), None);
    generate_burn_in_build_variant_info(&utils, &mut infos, tags, &map);
    assert_eq!(infos.len(), 2);
    for name in ["one", "two"] {
        assert_eq!(infos.get(name).unwrap().compile_task_dependency, "compile");
    }
}

// Targets and budgets.
#[test]
fn a_budget_is_spent_task_by_task() {
    let mut budget = TaskBudget::new(Some(3));
    assert!(!budget.is_spent());
    budget.spend(2);
    assert_eq!(budget.remaining, Some(1));
    budget.spend(2);
    assert!(budget.is_spent());
    let mut unlimited = TaskBudget::new(None);
    unlimited.spend(1000);
    assert!(!unlimited.is_spent());
}

fn multiversion_configs(n: usize) -> Option<Vec<MultiversionGenerateTaskConfig>> {
    Some(
        (0..n)
            .map(|i| MultiversionGenerateTaskConfig {
                suite_name: format!("suite_{}", i),
                old_version: "last_lts".to_string(),
                bazel_target: None,
            })
            .collect(),
    )
}

#[test]
fn a_capped_fuzzer_fits_the_budget() {
    for remaining in 0..8 {
        for n_suites in 0..5 {
            let mut params = FuzzerGenTaskParams {
                num_tasks: 5,
                require_multiversion_setup: true,
                multiversion_generate_tasks: multiversion_configs(n_suites),
                ..Default::default()
            };
            TaskBudget::new(Some(remaining)).cap_fuzzer(&mut params);
            let task = GenFuzzerServiceImpl::new().generate_fuzzer_task(&params);
            assert!(task.sub_tasks.len() <= remaining);
        }
    }
    let mut params = FuzzerGenTaskParams {
        num_tasks: 5,
        ..Default::default()
    };
    TaskBudget::new(Some(3)).cap_fuzzer(&mut params);
    assert_eq!(params.num_tasks, 3);
}

#[test]
fn a_capped_task_has_fewer_sub_tasks() {
    let mut params = ResmokeGenParams {
        num_tasks: Some(4),
        require_multiversion_generate_tasks: true,
        multiversion_generate_tasks: multiversion_configs(3),
        ..Default::default()
    };
    let capped = TaskBudget::new(Some(7)).cap_resmoke(&mut params, limits());
    assert_eq!(params.num_tasks, Some(2));
    assert_eq!(params.multiversion_generate_tasks.as_ref().unwrap().len(), 3);
    assert_eq!(capped.default_subtasks_per_task, 2);
    assert_eq!(capped.max_subtasks_per_task, 2);
    let unlimited = TaskBudget::new(None).cap_resmoke(&mut params, limits());
    assert_eq!(unlimited, limits());
}

#[test]
fn capped_burn_in_keeps_its_first_sub_tasks() {
    let sub_task = |name: &str| GeneratedSubTask {
        evg_task: plain_task(name),
        ..Default::default()
    };
    let suite = GeneratedResmokeSuite {
        task_name: "burn_in_tests".to_string(),
        sub_suites: vec![sub_task("one"), sub_task("two"), sub_task("three")],
    };
    let mut capped = suite.clone();
    TaskBudget::new(Some(2)).cap_burn_in(&mut capped);
    assert_eq!(capped.task_name, suite.task_name);
    assert_eq!(capped.sub_suites[..], suite.sub_suites[..2]);
    let mut whole = suite.clone();
    TaskBudget::new(Some(3)).cap_burn_in(&mut whole);
    assert_eq!(whole, suite);
    TaskBudget::new(None).cap_burn_in(&mut whole);
    assert_eq!(whole, suite);
}

#[test]
fn suites_are_found_once() {
    let task = |suite: &str| ResmokeGenParams {
        suite_name: suite.to_string(),
        ..Default::default()
    };
    let multiversion = ResmokeGenParams {
        require_multiversion_generate_tasks: true,
        multiversion_generate_tasks: multiversion_configs(2),
        ..Default::default()
    };
    let unknown = ResmokeGenParams {
        require_multiversion_generate_tasks: true,
        ..task("unknown")
    };
    let tasks = vec![task("suite_1"), task("plain"), multiversion, unknown, task("plain")];
    assert_eq!(find_suites(&tasks), vec!["suite_1", "plain", "suite_0"]);
    assert!(find_suites(&vec![]).is_empty());
}

#[test]
fn the_suites_of_a_plan_are_those_of_its_resmoke_tasks() {
    let tasks = vec![generated_task("one_gen"), generated_task("two_gen")];
    let service = new_service(
        vec![variant("a", &["one_gen", "two_gen"], &[])],
        tasks,
        false,
        TaskTargets::default(),
    );
    let task_map = service.evg_config_service.get_task_def_map();
    let step = |build_variant: &str, task_name: &str| GenerationStep::Task {
        name: task_name.to_string(),
        build_variant: build_variant.to_string(),
        task_name: task_name.to_string(),
    };
    let steps = vec![
        step("a", "two_gen"),
        step("a", "one_gen"),
        step("a", "two_gen"),
        step("a", "unknown"),
        step("unknown", "one_gen"),
        GenerationStep::BurnInTasks {
            name: "burn_in".to_string(),
            build_variant: "a".to_string(),
        },
    ];
    assert_eq!(service.suites_of_plan(&steps, &task_map), vec!["two", "one"]);
    assert!(service.suites_of_plan(&vec![], &task_map).is_empty());
}

#[test]
fn maps_keep_the_order_of_their_keys() {
    let mut map: StringMap<u64> = StringMap::new();
    for (key, value) in [("b", 1), ("a", 2), ("b", 3), ("c", 4)] {
        map.insert(key.to_string(), value);
    }
    let entries: Vec<(&str, u64)> =
        (0..map.len()).map(|i| (map.key(i).as_str(), *map.value(i))).collect();
    assert_eq!(entries, vec![("b", 3), ("a", 2), ("c", 4)]);
}

// Project configuration.
#[test]
fn the_project_is_found_by_name() {
    let config = EvgProjectConfig::new(EvgProject {
        buildvariants: vec![
            variant("a", &[], &[]),
            variant("b-required", &[], &[]),
            variant("c", &[], &[]),
            variant("d-required", &[], &[]),
        ],
        tasks: vec![generated_task("one"), plain_task("two")],
        modules: Some(vec![EvgModule {
            name: "enterprise".to_string(),
            repo: "repo".to_string(),
            branch: "main".to_string(),
            prefix: "src/modules".to_string(),
        }]),
    });
    assert_eq!(config.get_build_variant_map().get("c").unwrap().name, "c");
    assert_eq!(config.get_task_def_map().get("two"), Some(&plain_task("two")));
    assert!(config.get_task_def_map().get("three").is_none());
    let mut names = config.sort_build_variants_by_required();
    assert!(names[..2].iter().all(|n| n.ends_with("-required")));
    names.sort();
    assert_eq!(names, vec!["a", "b-required", "c", "d-required"]);
    assert_eq!(
        config.get_module_dir("enterprise"),
        Some("src/modules/enterprise".to_string())
    );
    assert_eq!(config.get_module_dir("other"), None);
}

#[test]
fn the_project_info_keeps_its_paths() {
    let info = ProjectInfo::new("evergreen.yml", "mongodb", Some("etc/config.yml"));
    assert_eq!(info.evg_project_location, "evergreen.yml");
    assert_eq!(info.evg_project, "mongodb");
    assert_eq!(info.gen_sub_tasks_config_file, Some("etc/config.yml".to_string()));
    assert_eq!(ProjectInfo::new("", "", None).gen_sub_tasks_config_file, None);
}

#[test]
fn the_expansions_tell_where_the_configuration_goes() {
    let mut expansions = EvgExpansions {
        project: "mongodb".to_string(),
        revision: "abc".to_string(),
        task_name: "gen".to_string(),
        version_id: "v1".to_string(),
        is_patch: true,
        run_covered_tests: false,
    };
    assert_eq!(
        expansions.config_location(),
        "mongodb/abc/generate_tasks/generated-config-v1.tgz"
    );
    assert!(expansions.skip_covered_tests());
    expansions.run_covered_tests = true;
    assert!(!expansions.skip_covered_tests());
    assert!(bool_from_text("true"));
    assert!(!bool_from_text("True"));
}

#[test]
fn the_display_task_of_a_generated_task_groups_its_sub_tasks() {
    let task = GeneratedTask::Resmoke(burn_in_suite(vec![sub_task("a"), sub_task("b")]));
    let display_task = task.build_display_task();
    let refs: Vec<String> = task.build_task_ref(None, None).into_iter().map(|r| r.name).collect();
    assert_eq!(display_task.name, task.display_name());
    assert_eq!(display_task.execution_tasks, refs);
}
