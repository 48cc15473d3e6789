use mongo_task_generator::evergreen::evg_config_utils::EvgConfigUtilsImpl;
use mongo_task_generator::evergreen::model::{
    fn_call, fn_call_with_params, text_param, BuildVariant, EvgCommand, EvgTask, Expansions,
    ParamValue, Vars,
};
use mongo_task_generator::evergreen_names::{
    BURN_IN_BYPASS, BURN_IN_TASK_NAME, COMPILE_VARIANT, GENERATE_RESMOKE_TASKS,
    INITIALIZE_MULTIVERSION_TASKS,
};
use mongo_task_generator::resmoke::burn_in_proxy::DiscoveredTask;
use mongo_task_generator::services::config_extraction::ConfigExtractionServiceImpl;
use mongo_task_generator::task_types::burn_in_tests::{
    update_resmoke_params_for_burn_in, BurnInServiceImpl, BurnInSuiteInfo,
    BURN_IN_REPEAT_TASK_NUM,
};
use mongo_task_generator::task_types::generated_suite::{GeneratedSubTask, GeneratedSuite};
use mongo_task_generator::task_types::multiversion::MultiversionService;
use mongo_task_generator::task_types::resmoke_tasks::{
    GenResmokeConfig, GenResmokeTaskServiceImpl, GeneratedResmokeSuite, ResmokeGenParams,
    SubtaskLimits,
};
use mongo_task_generator::utils::string_map::StringMap;
use vstd::seq::Seq;

// build_origin_suite tests.
#[test]
fn test_build_origin_suite_should_use_suite_name_when_no_mv() {
    let suite_name = "my suite";
    let suite_info = BurnInSuiteInfo {
        ..Default::default()
    };

    assert_eq!(suite_info.build_origin_suite(suite_name), suite_name);
}

#[test]
fn test_build_origin_suite_should_use_multiversion_name_when_provided() {
    let suite_name = "my suite";
    let suite_info = BurnInSuiteInfo {
        multiversion_name: Some("multiversion_suite"),
        ..Default::default()
    };

    assert_eq!(
        suite_info.build_origin_suite(suite_name),
        "multiversion_suite"
    );
}

// build_task_name tests.
#[test]
fn test_build_task_name_should_use_task_name_if_no_mv() {
    let task_name = "my task";
    let suite_info = BurnInSuiteInfo {
        task_name,
        ..Default::default()
    };

    assert_eq!(suite_info.build_task_name(), task_name);
}

#[test]
fn test_build_task_name_should_use_multiversion_name_when_provided() {
    let task_name = "my task";
    let suite_info = BurnInSuiteInfo {
        task_name,
        multiversion_name: Some("multiversion_suite"),
        ..Default::default()
    };

    assert_eq!(suite_info.build_task_name(), "multiversion_suite");
}

// build_display_name tests.
#[test]
fn test_display_name_should_include_all_components() {
    let task_name = "my_task";
    let build_variant = "my_build_variant";
    let burn_in_label = "my_burn_in_label";
    let suite_info = BurnInSuiteInfo {
        task_name,
        build_variant,
        burn_in_label,
        ..Default::default()
    };

    let display_name = suite_info.build_display_name();

    assert!(display_name.contains(burn_in_label));
    assert!(display_name.contains(task_name));
    assert!(display_name.contains(build_variant));
}

fn build_mocked_config_extraction_service() -> ConfigExtractionServiceImpl {
    ConfigExtractionServiceImpl::new(
        EvgConfigUtilsImpl::new(),
        "generating_task".to_string(),
        "config_location".to_string(),
        None,
    )
}

struct MockMultiversionService {}

impl MultiversionService for MockMultiversionService {
    fn knows_mode(&self, _mv_mode: Option<Seq<char>>) -> bool {
        unreachable!()
    }

    fn exclude_tags(&self, _task_name: Seq<char>, _mv_mode: Option<Seq<char>>) -> Seq<char> {
        unreachable!()
    }

    fn is_mode_known(&self, _mv_mode: &Option<String>) -> bool {
        true
    }

    fn exclude_tags_for_task(&self, _task_name: &str, mv_mode: Option<String>) -> String {
        format!("tags_of_{}", mv_mode.unwrap_or_default())
    }
}

fn build_mocked_service() -> BurnInServiceImpl<MockMultiversionService> {
    BurnInServiceImpl::new(
        GenResmokeTaskServiceImpl::new(
            MockMultiversionService {},
            GenResmokeConfig::new(false, None),
            SubtaskLimits {
                test_runtime_per_required_subtask: 0,
                large_required_task_runtime_threshold: 0,
                default_subtasks_per_task: 5,
                max_subtasks_per_task: 10,
            },
        ),
        build_mocked_config_extraction_service(),
        EvgConfigUtilsImpl::new(),
    )
}

fn multiversion_vars() -> Vars {
    let mut vars = StringMap::new();
    for (suite, version) in [
        ("mv_suite1_last_continuous_new_old_new", "last-continuous"),
        ("mv_suite1_last_lts_new_old_new", "last-lts"),
        ("mv_suite1_last_continuous_old_new_old", "last-continuous"),
        ("mv_suite1_last_lts_old_new_old", "last-lts"),
    ] {
        vars.insert(suite.to_string(), text_param(version));
    }
    vars
}

fn multiversion_task() -> EvgTask {
    EvgTask {
        commands: Some(vec![
            fn_call("hello world"),
            fn_call_with_params(INITIALIZE_MULTIVERSION_TASKS, multiversion_vars()),
            fn_call(GENERATE_RESMOKE_TASKS),
            fn_call("run tests"),
        ]),
        tags: Some(vec!["multiversion".to_string()]),
        ..Default::default()
    }
}

fn discovered(task_name: &str, tests: &[&str]) -> DiscoveredTask {
    DiscoveredTask {
        task_name: task_name.to_string(),
        test_list: tests.iter().map(|t| t.to_string()).collect(),
    }
}

fn expansions(entries: &[(&str, &str)]) -> Expansions {
    let mut map = StringMap::new();
    for (name, value) in entries {
        map.insert(name.to_string(), value.to_string());
    }
    map
}

// build_tests_for_task tests.
#[test]
fn test_build_test_for_tasks_creates_task_for_each_test() {
    let discovered_task = discovered("my task", &["test_0.js", "test_1.js"]);
    let task_def = EvgTask {
        ..Default::default()
    };
    let run_build_variant = "my_build_variant";
    let burn_in_service = build_mocked_service();

    let tasks = burn_in_service
        .build_tests_for_task(&discovered_task, &task_def, run_build_variant)
        .unwrap();

    assert_eq!(tasks.len(), discovered_task.test_list.len());
}

#[test]
fn test_build_test_for_tasks_creates_task_for_each_multiversion_iteration_and_test() {
    let discovered_task = discovered("my task", &["test_0.js", "test_1.js"]);
    let task_def = multiversion_task();
    let run_build_variant = "my_build_variant";
    let burn_in_service = build_mocked_service();
    assert!(burn_in_service.can_burn_in_task(&task_def));

    let tasks = burn_in_service
        .build_tests_for_task(&discovered_task, &task_def, run_build_variant)
        .unwrap();

    assert_eq!(tasks.len(), 8);
}

// build_burn_in_tasks_for_task tests.
#[test]
fn test_build_burn_in_tasks_for_task_creates_tasks() {
    let task_def = EvgTask {
        ..Default::default()
    };
    let build_variant = BuildVariant {
        ..Default::default()
    };
    let burn_in_service = build_mocked_service();

    let tasks = burn_in_service
        .build_burn_in_tasks_for_task(&task_def, &build_variant)
        .unwrap();

    assert_eq!(tasks.len(), BURN_IN_REPEAT_TASK_NUM);
}

#[test]
fn test_build_burn_in_tasks_for_task_creates_tasks_for_each_multiversion_iteration() {
    let task_def = multiversion_task();
    let build_variant = BuildVariant {
        ..Default::default()
    };
    let burn_in_service = build_mocked_service();

    let tasks = burn_in_service
        .build_burn_in_tasks_for_task(&task_def, &build_variant)
        .unwrap();

    assert_eq!(tasks.len(), BURN_IN_REPEAT_TASK_NUM * 4);
}

// generate_burn_in_tags_build_variant tests.
#[test]
fn test_generate_burn_in_tags_build_variant() {
    let base_build_variant = BuildVariant {
        name: "base-build-variant-name".to_string(),
        display_name: Some("base build variant display name".to_string()),
        run_on: Some(vec!["base_distro_name".to_string()]),
        modules: Some(vec!["base_module_name".to_string()]),
        expansions: Some(expansions(&[("compile_variant", "compile-build-variant-name")])),
        ..Default::default()
    };
    let run_build_variant_name = "run-build-variant-name".to_string();

    let generated_task = GeneratedResmokeSuite {
        task_name: "display_task_name".to_string(),
        sub_suites: vec![GeneratedSubTask {
            evg_task: EvgTask {
                name: "sub_suite_name".to_string(),
                ..Default::default()
            },
            ..Default::default()
        }],
    };
    let burn_in_service = build_mocked_service();
    let compile_task_dependency = "mock_dependency".to_string();

    let burn_in_tags_build_variant = burn_in_service
        .generate_burn_in_tags_build_variant(
            &base_build_variant,
            run_build_variant_name,
            &generated_task,
            compile_task_dependency,
        )
        .unwrap();

    let expansions = burn_in_tags_build_variant.expansions.unwrap();

    assert_eq!(burn_in_tags_build_variant.name, "run-build-variant-name");

    assert_eq!(
        burn_in_tags_build_variant.display_name,
        Some("[jstests_affected] base build variant display name".to_string())
    );
    assert_eq!(
        burn_in_tags_build_variant.run_on,
        Some(vec!["base_distro_name".to_string()])
    );
    assert_eq!(
        burn_in_tags_build_variant.modules,
        Some(vec!["base_module_name".to_string()])
    );
    assert_eq!(
        expansions.get(BURN_IN_BYPASS),
        Some(&"base-build-variant-name".to_string())
    );
    assert_eq!(
        expansions.get(COMPILE_VARIANT),
        Some(&"compile-build-variant-name".to_string())
    );

    assert_eq!(
        burn_in_tags_build_variant.display_tasks.unwrap()[0].name,
        "display_task_name"
    );
    assert_eq!(burn_in_tags_build_variant.tasks[0].name, "sub_suite_name");
}

// generate_burn_in_tasks_suite tests.
#[test]
fn test_generate_burn_in_tasks_suite() {
    let mut task_map = StringMap::new();
    task_map.insert("task_1".to_string(), EvgTask::default());
    task_map.insert("task_2".to_string(), EvgTask::default());
    let burn_in_service = build_mocked_service();

    let build_variant = BuildVariant {
        name: "bv_name".to_string(),
        expansions: Some(expansions(&[(BURN_IN_TASK_NAME, "task_1")])),
        ..Default::default()
    };
    assert!(burn_in_service.can_generate_burn_in_tasks_suite(&build_variant, &task_map));
    let suite = burn_in_service
        .generate_burn_in_tasks_suite(&build_variant, &task_map)
        .unwrap();
    assert_eq!(suite.sub_tasks().len(), BURN_IN_REPEAT_TASK_NUM);

    let build_variant = BuildVariant {
        name: "bv_name".to_string(),
        ..Default::default()
    };
    assert!(!burn_in_service.can_generate_burn_in_tasks_suite(&build_variant, &task_map));
}

#[test]
fn an_unknown_burn_in_task_has_no_copies() {
    let task_map = StringMap::new();
    let build_variant = BuildVariant {
        expansions: Some(expansions(&[(BURN_IN_TASK_NAME, "task_1")])),
        ..Default::default()
    };
    let suite =
        build_mocked_service().generate_burn_in_tasks_suite(&build_variant, &task_map).unwrap();
    assert_eq!(suite.display_name(), "burn_in_tasks");
    assert!(suite.sub_tasks().is_empty());
}

fn run_vars(task: &EvgTask) -> &Vars {
    for command in task.commands.as_ref().unwrap() {
        if let EvgCommand::Function(call) = command {
            if call.func == "run generated tests" {
                return call.vars.as_ref().unwrap();
            }
        }
    }
    panic!("the task runs no tests")
}

#[test]
fn burn_in_tests_are_run_one_by_one() {
    let mut task_map = StringMap::new();
    task_map.insert(
        "my_task".to_string(),
        EvgTask {
            name: "my_task".to_string(),
            ..Default::default()
        },
    );
    let service = build_mocked_service();
    let tasks = vec![
        discovered("unknown", &["x.js"]),
        discovered("my_task", &["test_0.js", "test_1.js"]),
    ];
    assert!(service.can_generate_burn_in_suite(&tasks, &task_map));
    let suite = service.generate_burn_in_suite(&tasks, "my_variant", &task_map).unwrap();
    assert_eq!(suite.display_name(), "burn_in_tests");
    let names: Vec<&str> = suite.sub_suites.iter().map(|t| t.evg_task.name.as_str()).collect();
    assert_eq!(
        names,
        vec!["burn_in:my_task-my_variant_0", "burn_in:my_task-my_variant_1"]
    );
    for (i, sub_task) in suite.sub_suites.iter().enumerate() {
        match run_vars(&sub_task.evg_task).get("resmoke_args").unwrap() {
            ParamValue::String(args) => {
                assert!(args.ends_with(&format!("test_{}.js", i)));
                assert!(args.contains("--repeatTestsSecs=600"));
            }
            other => panic!("unexpected arguments: {:?}", other),
        }
    }
}

#[test]
fn the_arguments_repeat_the_test() {
    let mut params = ResmokeGenParams {
        resmoke_args: "--arg".to_string(),
        ..Default::default()
    };
    update_resmoke_params_for_burn_in(&mut params, "test.js");
    assert_eq!(
        params.resmoke_args,
        "--arg --repeatTestsSecs=600 --repeatTestsMin=2 --repeatTestsMax=1000 test.js"
    );
}

#[test]
fn a_bazel_target_without_a_name_cannot_be_burnt_in() {
    let mut vars = StringMap::new();
    vars.insert("suite".to_string(), text_param("//suites"));
    let task_def = EvgTask {
        commands: Some(vec![fn_call_with_params("run tests", vars)]),
        ..Default::default()
    };
    assert!(!build_mocked_service().can_burn_in_task(&task_def));
}
