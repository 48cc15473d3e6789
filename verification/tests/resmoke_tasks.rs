use mongo_task_generator::evergreen::evg_config_utils::MultiversionGenerateTaskConfig;
use mongo_task_generator::evergreen::evg_task_history::{TaskRuntimeHistory, TestRuntimeHistory};
use mongo_task_generator::evergreen::model::{
    new_vars, text_param, BuildVariant, EvgCommand, EvgTask, ParamValue, Vars,
};
use mongo_task_generator::resmoke::resmoke_proxy::MultiversionConfig;
use mongo_task_generator::task_types::generated_suite::{GeneratedSubTask, GeneratedSuite};
use mongo_task_generator::task_types::multiversion::{
    is_known_mode, MultiversionService, MultiversionServiceImpl,
};
use mongo_task_generator::task_types::resmoke_tasks::{
    resmoke_commands, GenResmokeConfig, GenResmokeTaskServiceImpl, GeneratedResmokeSuite,
    ResmokeGenParams, SubSuite, SubtaskLimits, SuiteTests,
};
use mongo_task_generator::task_types::test_splitting::{
    divide_by_runtime, divide_evenly, get_min_index, sort_tests_by_runtime,
};
use mongo_task_generator::utils::string_map::StringMap;
use vstd::seq::Seq;

const MOCK_ENTERPRISE_DIR: &str = "src/enterprise";

fn vars(entries: Vec<(&str, ParamValue)>) -> Vars {
    let mut map = StringMap::new();
    for (name, value) in entries {
        map.insert(name.to_string(), value);
    }
    map
}

// ResmokeGenParams tests.
#[test]
fn test_build_run_test_vars() {
    let params = ResmokeGenParams {
        suite_name: "my_suite".to_string(),
        resmoke_args: "resmoke args".to_string(),
        pass_through_vars: Some(vars(vec![
            ("suite", text_param("my_suite")),
            ("resmoke_args", text_param("resmoke args")),
        ])),
        ..Default::default()
    };
    let sub_suite = SubSuite {
        ..Default::default()
    };

    let test_vars = params.build_run_test_vars("my_suite_0", &sub_suite, "", None);

    assert_eq!(test_vars.len(), 4);
    assert!(!test_vars.contains_key("resmoke_jobs_max"));
    assert_eq!(
        test_vars.get("suite").unwrap(),
        &text_param("generated_resmoke_config/my_suite_0.yml")
    );
}

#[test]
fn test_build_run_test_vars_with_resmoke_jobs() {
    let params = ResmokeGenParams {
        suite_name: "my_suite".to_string(),
        resmoke_args: "resmoke args".to_string(),
        resmoke_jobs_max: Some(5),
        pass_through_vars: Some(vars(vec![
            ("suite", text_param("my_suite")),
            ("resmoke_args", text_param("resmoke args")),
            ("resmoke_jobs_max", ParamValue::Number(5)),
        ])),
        ..Default::default()
    };
    let sub_suite = SubSuite {
        ..Default::default()
    };

    let test_vars = params.build_run_test_vars("my_suite_0", &sub_suite, "", None);

    assert_eq!(test_vars.len(), 5);
    assert_eq!(
        test_vars.get("resmoke_jobs_max").unwrap(),
        &ParamValue::Number(5)
    );
    assert_eq!(
        test_vars.get("suite").unwrap(),
        &text_param("generated_resmoke_config/my_suite_0.yml")
    );
}

#[test]
fn test_build_run_test_vars_for_multiversion() {
    let params = ResmokeGenParams {
        suite_name: "my_suite".to_string(),
        resmoke_args: "resmoke args".to_string(),
        require_multiversion_setup: true,
        pass_through_vars: Some(vars(vec![
            ("suite", text_param("my_suite")),
            ("resmoke_args", text_param("resmoke args")),
        ])),
        ..Default::default()
    };
    let sub_suite = SubSuite {
        mv_exclude_tags: Some("last_lts".to_string()),
        origin_suite: "my_origin_suite".to_string(),
        ..Default::default()
    };

    let test_vars =
        params.build_run_test_vars("my_suite_0", &sub_suite, "tag_0,tag_1,tag_2", None);

    assert_eq!(test_vars.len(), 5);
    assert_eq!(
        test_vars.get("multiversion_exclude_tags_version").unwrap(),
        &text_param("last_lts")
    );
    assert_eq!(
        test_vars.get("resmoke_args").unwrap(),
        &text_param("--originSuite=my_origin_suite  --tagFile=generated_resmoke_config/multiversion_exclude_tags.yml --excludeWithAnyTags=tag_0,tag_1,tag_2 resmoke args")
    );
}

#[test]
fn test_build_run_test_vars_with_pass_through_params() {
    let params = ResmokeGenParams {
        suite_name: "my_suite".to_string(),
        resmoke_args: "resmoke args".to_string(),
        pass_through_vars: Some(vars(vec![
            ("suite", text_param("my_suite")),
            ("resmoke_args", text_param("resmoke args")),
            ("multiversion_exclude_tags_version", text_param("last_lts")),
        ])),
        ..Default::default()
    };
    let sub_suite = SubSuite {
        ..Default::default()
    };

    let test_vars = params.build_run_test_vars("my_suite_0", &sub_suite, "", None);

    assert_eq!(test_vars.len(), 5);
    assert_eq!(
        test_vars.get("multiversion_exclude_tags_version").unwrap(),
        &text_param("last_lts")
    );
    assert_eq!(
        test_vars.get("suite").unwrap(),
        &text_param("generated_resmoke_config/my_suite_0.yml")
    );
}

#[test]
fn test_build_run_test_vars_pass_through_params_does_are_overridden() {
    let params = ResmokeGenParams {
        suite_name: "my_suite".to_string(),
        resmoke_args: "resmoke args".to_string(),
        pass_through_vars: Some(vars(vec![
            ("suite", text_param("my_suite")),
            ("resmoke_args", text_param("resmoke args")),
            ("multiversion_exclude_tags_version", text_param("last_continuous")),
        ])),
        ..Default::default()
    };
    let sub_suite = SubSuite {
        mv_exclude_tags: Some("last_lts".to_string()),
        origin_suite: "my_origin_suite".to_string(),
        ..Default::default()
    };

    let test_vars = params.build_run_test_vars("my_suite_0", &sub_suite, "", None);

    assert_eq!(test_vars.len(), 5);
    assert_eq!(
        test_vars.get("multiversion_exclude_tags_version").unwrap(),
        &text_param("last_lts")
    );
    assert_eq!(
        test_vars.get("suite").unwrap(),
        &text_param("generated_resmoke_config/my_suite_0.yml")
    );
}

#[test]
fn test_build_resmoke_args() {
    let params = ResmokeGenParams {
        suite_name: "my_suite".to_string(),
        resmoke_args: "--args to --pass to resmoke".to_string(),
        repeat_suites: Some(3),
        ..Default::default()
    };

    let resmoke_args = params.build_resmoke_args("", "my_origin_suite");

    assert!(resmoke_args.contains("--originSuite=my_origin_suite"));
    assert!(resmoke_args.contains("--args to --pass to resmoke"));
    assert!(resmoke_args.contains("--repeatSuites=3"));
}

// GeneratedResmokeSuite tests
fn check_build_task_ref_of_resmoke_suites(use_large_distro: Vec<bool>) {
    let distro = "distro".to_string();
    let gen_suite = GeneratedResmokeSuite {
        task_name: "display_task_name".to_string(),
        sub_suites: use_large_distro
            .iter()
            .enumerate()
            .map(|(i, value)| GeneratedSubTask {
                evg_task: EvgTask {
                    name: format!("sub_suite_name_{}", i),
                    ..Default::default()
                },
                use_large_distro: *value,
                use_xlarge_distro: false,
            })
            .collect(),
    };

    let task_refs = gen_suite.build_task_ref(Some(distro.clone()), None);

    for (i, task) in task_refs.iter().enumerate() {
        assert_eq!(task.name, format!("sub_suite_name_{}", i));
        if use_large_distro[i] {
            assert_eq!(task.distros.as_ref().unwrap().len(), 1);
            assert!(task.distros.as_ref().unwrap().contains(&distro));
        } else {
            assert_eq!(task.distros.as_ref(), None);
        }
    }
}

#[test]
fn test_build_task_ref_of_resmoke_suites() {
    check_build_task_ref_of_resmoke_suites(vec![false, false, false]);
    check_build_task_ref_of_resmoke_suites(vec![true, false, false]);
    check_build_task_ref_of_resmoke_suites(vec![false, true, false]);
    check_build_task_ref_of_resmoke_suites(vec![false, false, true]);
    check_build_task_ref_of_resmoke_suites(vec![true, true, false]);
    check_build_task_ref_of_resmoke_suites(vec![true, false, true]);
    check_build_task_ref_of_resmoke_suites(vec![false, true, true]);
    check_build_task_ref_of_resmoke_suites(vec![true, true, true]);
}


struct MockMultiversionService {}

impl MultiversionService for MockMultiversionService {
    fn knows_mode(&self, _mv_mode: Option<Seq<char>>) -> bool {
        unreachable!()
    }

    fn exclude_tags(&self, _task_name: Seq<char>, _mv_mode: Option<Seq<char>>) -> Seq<char> {
        unreachable!()
    }

    fn is_mode_known(&self, _mv_mode: &Option<String>) -> bool {
        true
    }

    fn exclude_tags_for_task(&self, _task_name: &str, _mv_mode: Option<String>) -> String {
        "tag_0,tag_1".to_string()
    }
}

// Runtimes are given in seconds and held in nanoseconds.
fn nanos(seconds: f64) -> i64 {
    (seconds * 1_000_000_000.0) as i64
}

fn build_mocked_service() -> GenResmokeTaskServiceImpl<MockMultiversionService> {
    GenResmokeTaskServiceImpl::new(
        MockMultiversionService {},
        GenResmokeConfig::new(false, Some(MOCK_ENTERPRISE_DIR.to_string())),
        SubtaskLimits {
            test_runtime_per_required_subtask: nanos(3600.0),
            large_required_task_runtime_threshold: nanos(7200.0),
            default_subtasks_per_task: 5,
            max_subtasks_per_task: 10,
        },
    )
}

// The tests that discovery finds, as the service selects them.
fn select(
    service: &GenResmokeTaskServiceImpl<MockMultiversionService>,
    params: &ResmokeGenParams,
    test_list: &Vec<String>,
) -> Vec<String> {
    service.get_test_list(params, test_list, &vec![true; test_list.len()])
}

fn copy_history(history: &TaskRuntimeHistory) -> TaskRuntimeHistory {
    let entries = (0..history.test_map.len())
        .map(|i| (history.test_map.key(i).clone(), history.test_map.value(i).clone()))
        .collect();
    TaskRuntimeHistory {
        task_name: history.task_name.clone(),
        test_map: history_map(entries),
    }
}

fn suite_tests(
    service: &GenResmokeTaskServiceImpl<MockMultiversionService>,
    params: &ResmokeGenParams,
    test_list: &Vec<String>,
    history: &TaskRuntimeHistory,
) -> Vec<SuiteTests> {
    service
        .suites_to_discover(params)
        .iter()
        .map(|_| SuiteTests {
            test_list: select(service, params, test_list),
            history: Some(copy_history(history)),
        })
        .collect()
}

fn build_mock_test_runtime(test_name: &str, runtime: f64) -> TestRuntimeHistory {
    TestRuntimeHistory {
        test_name: test_name.to_string(),
        average_runtime: nanos(runtime),
        hooks: vec![],
    }
}

fn history_map(entries: Vec<(String, TestRuntimeHistory)>) -> StringMap<TestRuntimeHistory> {
    let mut map = StringMap::new();
    for (name, history) in entries {
        map.insert(name, history);
    }
    map
}

// split_task tests
#[test]
fn test_split_task_should_split_tasks_by_runtime() {
    // In this test we will create 3 subtasks with 6 tests. The first sub task should contain
    // a single test. The second 2 tests and the third 3 tests. We will set the test runtimes
    // to make this happen.
    let num_tasks = 3;
    let test_list: Vec<String> = (0..6)
        .map(|i| format!("test_{}.js", i))
        .collect();
    let task_history = TaskRuntimeHistory {
        task_name: "my task".to_string(),
        test_map: history_map(vec![
            ("test_0".to_string(), build_mock_test_runtime("test_0.js", 100.0)),
            ("test_1".to_string(), build_mock_test_runtime("test_1.js", 56.0)),
            ("test_2".to_string(), build_mock_test_runtime("test_2.js", 50.0)),
            ("test_3".to_string(), build_mock_test_runtime("test_3.js", 35.0)),
            ("test_4".to_string(), build_mock_test_runtime("test_4.js", 34.0)),
            ("test_5".to_string(), build_mock_test_runtime("test_5.js", 30.0)),
        ]),
    };
    let gen_resmoke_service = build_mocked_service();

    let params = ResmokeGenParams {
        num_tasks: Some(num_tasks),
        ..Default::default()
    };

    let sub_suites = gen_resmoke_service
        .split_task(
            &params,
            &task_history,
            None,
            None,
            &BuildVariant {
                display_name: Some("build-variant".to_string()),
                ..Default::default()
            },
            select(&gen_resmoke_service, &params, &test_list),
        );

    assert_eq!(sub_suites.len(), num_tasks);
    let suite_0 = &sub_suites[0];
    assert!(suite_0.test_list.contains(&"test_0.js".to_string()));
    let suite_1 = &sub_suites[1];
    assert!(suite_1.test_list.contains(&"test_1.js".to_string()));
    assert!(suite_1.test_list.contains(&"test_4.js".to_string()));
    let suite_2 = &sub_suites[2];
    assert!(suite_2.test_list.contains(&"test_2.js".to_string()));
    assert!(suite_2.test_list.contains(&"test_3.js".to_string()));
    assert!(suite_2.test_list.contains(&"test_5.js".to_string()));
}
#[test]
fn test_split_task_with_missing_history_should_split_tasks_equally() {
    let num_tasks = 3;
    let test_list: Vec<String> = (0..12)
        .map(|i| format!("test_{}.js", i))
        .collect();
    let task_history = TaskRuntimeHistory {
        task_name: "my task".to_string(),
        test_map: history_map(vec![
            ("test_0".to_string(), build_mock_test_runtime("test_0.js", 100.0)),
            ("test_1".to_string(), build_mock_test_runtime("test_1.js", 50.0)),
            ("test_2".to_string(), build_mock_test_runtime("test_2.js", 50.0)),
        ]),
    };
    let gen_resmoke_service = build_mocked_service();

    let params = ResmokeGenParams {
        num_tasks: Some(num_tasks),
        ..Default::default()
    };

    let sub_suites = gen_resmoke_service
        .split_task(
            &params,
            &task_history,
            None,
            None,
            &BuildVariant {
                display_name: Some("build-variant".to_string()),
                ..Default::default()
            },
            select(&gen_resmoke_service, &params, &test_list),
        );

    assert_eq!(sub_suites.len(), num_tasks);
    let suite_0 = &sub_suites[0];
    assert_eq!(suite_0.test_list.len(), 4);
    let suite_1 = &sub_suites[1];
    assert_eq!(suite_1.test_list.len(), 4);
    let suite_2 = &sub_suites[2];
    assert_eq!(suite_2.test_list.len(), 4);
}
#[test]
fn test_split_tasks_should_include_multiversion_information() {
    let num_tasks = 3;
    let test_list: Vec<String> = (0..3)
        .map(|i| format!("test_{}.js", i))
        .collect();
    let task_history = TaskRuntimeHistory {
        task_name: "my task".to_string(),
        test_map: history_map(vec![
            ("test_0".to_string(), build_mock_test_runtime("test_0.js", 100.0)),
            ("test_1".to_string(), build_mock_test_runtime("test_1.js", 50.0)),
            ("test_2".to_string(), build_mock_test_runtime("test_2.js", 50.0)),
        ]),
    };
    let gen_resmoke_service = build_mocked_service();

    let params = ResmokeGenParams {
        num_tasks: Some(num_tasks),
        ..Default::default()
    };

    let sub_suites = gen_resmoke_service
        .split_task(
            &params,
            &task_history,
            Some("multiversion_test"),
            Some("multiversion_tag".to_string()),
            &BuildVariant {
                display_name: Some("build-variant".to_string()),
                ..Default::default()
            },
            select(&gen_resmoke_service, &params, &test_list),
        );

    assert_eq!(sub_suites.len(), num_tasks);
    for sub_suite in sub_suites {
        assert_eq!(sub_suite.name, "multiversion_test");
        assert_eq!(
            sub_suite.mv_exclude_tags,
            Some("multiversion_tag".to_string())
        );
    }
}
// split_task_fallback tests
#[test]
fn test_split_task_fallback_should_split_tasks_count() {
    let num_tasks = 3;
    let n_tests = 6;
    let test_list: Vec<String> = (0..n_tests)
        .map(|i| format!("test_{}.js", i))
        .collect();
    let task_history = TaskRuntimeHistory {
        task_name: "my task".to_string(),
        test_map: StringMap::new(),
    };
    let gen_resmoke_service = build_mocked_service();

    let params = ResmokeGenParams {
        num_tasks: Some(num_tasks),
        ..Default::default()
    };

    let sub_suites = gen_resmoke_service
        .split_task_fallback(
            &params,
            None,
            None,
            &select(&gen_resmoke_service, &params, &test_list),
        );
    assert_eq!(sub_suites.len(), num_tasks);
    for sub_suite in &sub_suites {
        assert_eq!(sub_suite.test_list.len(), n_tests / num_tasks);
    }
    let all_tests: Vec<String> = sub_suites
        .iter()
        .flat_map(|s| s.test_list.clone())
        .collect();
    assert_eq!(all_tests.len(), n_tests);
    for test_name in test_list {
        assert!(all_tests.contains(&test_name.to_string()));
    }
}
#[test]
fn test_split_task_fallback_has_remainder() {
    let num_tasks = 3;
    let n_tests = 4;
    let test_list: Vec<String> = (0..n_tests)
        .map(|i| format!("test_{}.js", i))
        .collect();
    let task_history = TaskRuntimeHistory {
        task_name: "my task".to_string(),
        test_map: StringMap::new(),
    };
    let gen_resmoke_service = build_mocked_service();

    let params = ResmokeGenParams {
        num_tasks: Some(num_tasks),
        ..Default::default()
    };

    let sub_suites = gen_resmoke_service
        .split_task_fallback(
            &params,
            None,
            None,
            &select(&gen_resmoke_service, &params, &test_list),
        );
    assert_eq!(sub_suites.len(), num_tasks);
    let all_tests: Vec<String> = sub_suites
        .iter()
        .flat_map(|s| s.test_list.clone())
        .collect();
    assert_eq!(all_tests.len(), n_tests);
    for test_name in test_list {
        assert!(all_tests.contains(&test_name.to_string()));
    }
}

#[test]
fn test_split_task_fallback_empty_suite() {
    let num_tasks = Some(1);
    let test_list = vec![];
    let task_history = TaskRuntimeHistory {
        task_name: "my task".to_string(),
        test_map: StringMap::new(),
    };
    let gen_resmoke_service = build_mocked_service();
    let params = ResmokeGenParams {
        num_tasks,
        ..Default::default()
    };
    let sub_suites = gen_resmoke_service
        .split_task_fallback(
            &params,
            None,
            None,
            &select(&gen_resmoke_service, &params, &test_list),
        );
    assert_eq!(sub_suites.len(), 0);
}

#[test]
fn a_task_without_history_has_no_more_sub_tasks_than_are_allowed() {
    let service = build_mocked_service();
    let params = ResmokeGenParams {
        num_tasks: Some(15),
        ..Default::default()
    };
    let test_list: Vec<String> = (0..20).map(|i| format!("test_{}.js", i)).collect();
    let sub_suites = service.split_task_fallback(&params, None, None, &test_list);
    assert_eq!(sub_suites.len(), 10);
    assert!(sub_suites.iter().all(|s| s.test_list.len() == 2));

    let none_allowed = GenResmokeTaskServiceImpl::new(
        MockMultiversionService {},
        GenResmokeConfig::new(true, None),
        SubtaskLimits {
            max_subtasks_per_task: 0,
            ..service.subtask_limits
        },
    );
    assert!(!none_allowed.is_splittable_fallback(&params, &test_list));
    assert!(none_allowed.is_splittable_fallback(&params, &vec![]));
    assert!(service.is_splittable_fallback(&params, &test_list));
}

// tests for get_test_list.
fn check_get_test_list_should_filter_enterprise_tests(
    is_enterprise: bool,
    expected_tests: usize,
) {
    let num_tasks = Some(3);
    let mut test_list: Vec<String> = (0..6)
        .map(|i| format!("test_{}.js", i))
        .collect();
    test_list.extend::<Vec<String>>(
        (6..12)
            .map(|i| format!("{}/test_{}.js", MOCK_ENTERPRISE_DIR, i))
            .collect(),
    );
    let task_history = TaskRuntimeHistory {
        task_name: "my task".to_string(),
        test_map: StringMap::new(),
    };
    let gen_resmoke_service = build_mocked_service();
    let params = ResmokeGenParams {
        is_enterprise,
        num_tasks,
        ..Default::default()
    };
    let sub_suites = gen_resmoke_service
        .split_task_fallback(
            &params,
            None,
            None,
            &select(&gen_resmoke_service, &params, &test_list),
        );
    let all_tests: Vec<String> = sub_suites
        .iter()
        .flat_map(|s| s.test_list.clone())
        .collect();
    assert_eq!(expected_tests, all_tests.len());
}

#[test]
fn test_get_test_list_should_filter_enterprise_tests() {
    check_get_test_list_should_filter_enterprise_tests(true, 12);
    check_get_test_list_should_filter_enterprise_tests(false, 6);
}

fn check_get_test_list_should_work_with_missing_enterprise_details(
    is_enterprise: bool,
    expected_tests: usize,
) {
    let num_tasks = Some(3);
    let mut test_list: Vec<String> = (0..6)
        .map(|i| format!("test_{}.js", i))
        .collect();
    test_list.extend::<Vec<String>>(
        (6..12)
            .map(|i| format!("{}/test_{}.js", MOCK_ENTERPRISE_DIR, i))
            .collect(),
    );
    let task_history = TaskRuntimeHistory {
        task_name: "my task".to_string(),
        test_map: StringMap::new(),
    };
    let mut gen_resmoke_service = build_mocked_service();
    gen_resmoke_service.config.enterprise_dir = None;
    let params = ResmokeGenParams {
        is_enterprise,
        num_tasks,
        ..Default::default()
    };
    let sub_suites = gen_resmoke_service
        .split_task_fallback(
            &params,
            None,
            None,
            &select(&gen_resmoke_service, &params, &test_list),
        );
    let all_tests: Vec<String> = sub_suites
        .iter()
        .flat_map(|s| s.test_list.clone())
        .collect();
    assert_eq!(expected_tests, all_tests.len());
}

#[test]
fn test_get_test_list_should_work_with_missing_enterprise_details() {
    check_get_test_list_should_work_with_missing_enterprise_details(true, 12);
    check_get_test_list_should_work_with_missing_enterprise_details(false, 12);
}

// create_multiversion_combinations tests.
#[test]
fn test_create_multiversion_tasks() {
    let params = ResmokeGenParams {
        multiversion_generate_tasks: Some(vec![
            MultiversionGenerateTaskConfig {
                suite_name: "suite1_last_lts".to_string(),
                old_version: "last-lts".to_string(),
                bazel_target: None,
            },
            MultiversionGenerateTaskConfig {
                suite_name: "suite1_last_continuous".to_string(),
                old_version: "last-continuous".to_string(),
                bazel_target: None,
            },
        ]),
        num_tasks: Some(1),
        ..Default::default()
    };
    let task_history = TaskRuntimeHistory {
        task_name: "my task".to_string(),
        test_map: StringMap::new(),
    };
    let test_list = vec![
        "test_0.js".to_string(),
        "test_1.js".to_string(),
        "test_2.js".to_string(),
        "test_3.js".to_string(),
    ];
    let gen_resmoke_service = build_mocked_service();
    let tests = (0..2)
        .map(|_| SuiteTests {
            test_list: select(&gen_resmoke_service, &params, &test_list),
            history: Some(copy_history(&task_history)),
        })
        .collect();

    let suite_list = gen_resmoke_service
        .create_multiversion_tasks(
            &params,
            &BuildVariant {
                display_name: Some("build-variant".to_string()),
                ..Default::default()
            },
            &tests,
        );

    assert_eq!(suite_list[0].name, "suite1_last_lts".to_string());
    assert_eq!(suite_list[0].mv_exclude_tags, Some("last-lts".to_string()));
    assert!(suite_list[0]
        .test_list
        .iter()
        .all(|test| test_list.contains(test)));
    assert_eq!(suite_list[1].name, "suite1_last_continuous".to_string());
    assert_eq!(
        suite_list[1].mv_exclude_tags,
        Some("last-continuous".to_string())
    );
    assert!(suite_list[1]
        .test_list
        .iter()
        .all(|test| test_list.contains(test)));
}
// generate_resmoke_task tests.
#[test]
fn test_generate_resmoke_tasks_standard() {
    // In this test we will create 3 subtasks with 6 tests. The first sub task should contain
    // a single test. The second 2 tests and the third 3 tests. We will set the test runtimes
    // to make this happen.
    let num_tasks = 3;
    let test_list: Vec<String> = (0..6)
        .map(|i| format!("test_{}.js", i))
        .collect();
    let task_history = TaskRuntimeHistory {
        task_name: "my_task".to_string(),
        test_map: history_map(vec![
            ("test_0".to_string(), build_mock_test_runtime("test_0.js", 100.0)),
            ("test_1".to_string(), build_mock_test_runtime("test_1.js", 50.0)),
            ("test_2".to_string(), build_mock_test_runtime("test_2.js", 50.0)),
            ("test_3".to_string(), build_mock_test_runtime("test_3.js", 34.0)),
            ("test_4".to_string(), build_mock_test_runtime("test_4.js", 34.0)),
            ("test_5".to_string(), build_mock_test_runtime("test_5.js", 34.0)),
        ]),
    };
    let gen_resmoke_service = build_mocked_service();
    let params = ResmokeGenParams {
        task_name: "my_task".to_string(),
        require_multiversion_generate_tasks: false,
        num_tasks: Some(num_tasks),
        ..Default::default()
    };

    let (_, suite) = gen_resmoke_service
        .generate_resmoke_task(
            &params,
            &BuildVariant {
                display_name: Some("build-variant".to_string()),
                ..Default::default()
            },
            &suite_tests(&gen_resmoke_service, &params, &test_list, &task_history),
        );

    assert_eq!(suite.display_name(), "my_task".to_string());
    assert_eq!(suite.sub_tasks().len(), num_tasks);
}

#[test]
fn test_generate_resmoke_tasks_required_variant_large() {
    // Creating tasks based off of a required build variant with large total test runtime,
    // more than the default number of tasks should be used.

    let test_list: Vec<String> = (0..8)
        .map(|i| format!("test_{}.js", i))
        .collect();
    let task_history = TaskRuntimeHistory {
        task_name: "my_task".to_string(),
        test_map: history_map(vec![
            ("test_0".to_string(), build_mock_test_runtime("test_0.js", 1800.0)),
            ("test_1".to_string(), build_mock_test_runtime("test_1.js", 1800.0)),
            ("test_2".to_string(), build_mock_test_runtime("test_2.js", 1800.0)),
            ("test_4".to_string(), build_mock_test_runtime("test_4.js", 1800.0)),
            ("test_5".to_string(), build_mock_test_runtime("test_5.js", 1800.0)),
            ("test_6".to_string(), build_mock_test_runtime("test_6.js", 1800.0)),
            ("test_7".to_string(), build_mock_test_runtime("test_7.js", 1800.0)),
            ("test_8".to_string(), build_mock_test_runtime("test_8.js", 1800.0)),
        ]),
    };
    let gen_resmoke_service = build_mocked_service();

    let params = ResmokeGenParams {
        task_name: "my_task".to_string(),
        require_multiversion_generate_tasks: false,
        ..Default::default()
    };

    let (_, suite) = gen_resmoke_service
        .generate_resmoke_task(
            &params,
            &BuildVariant {
                display_name: Some("! required build variant".to_string()),
                ..Default::default()
            },
            &suite_tests(&gen_resmoke_service, &params, &test_list, &task_history),
        );

    assert_eq!(suite.display_name(), "my_task".to_string());
    assert_eq!(suite.sub_tasks().len(), 6);
}

#[test]
fn test_generate_resmoke_tasks_required_variant_medium() {
    // Creating tasks based off of a required build variant with large total test runtime,
    // more than the default number of tasks should be used.

    let test_list: Vec<String> = (0..8)
        .map(|i| format!("test_{}.js", i))
        .collect();
    let task_history = TaskRuntimeHistory {
        task_name: "my_task".to_string(),
        test_map: history_map(vec![
            ("test_0".to_string(), build_mock_test_runtime("test_0.js", 900.0)),
            ("test_1".to_string(), build_mock_test_runtime("test_1.js", 900.0)),
            ("test_2".to_string(), build_mock_test_runtime("test_2.js", 900.0)),
            ("test_3".to_string(), build_mock_test_runtime("test_3.js", 900.0)),
            ("test_4".to_string(), build_mock_test_runtime("test_4.js", 900.0)),
            ("test_5".to_string(), build_mock_test_runtime("test_5.js", 900.0)),
            ("test_6".to_string(), build_mock_test_runtime("test_6.js", 900.0)),
            ("test_7".to_string(), build_mock_test_runtime("test_7.js", 900.0)),
            ("test_8".to_string(), build_mock_test_runtime("test_8.js", 900.0)),
        ]),
    };
    let gen_resmoke_service = build_mocked_service();

    let params = ResmokeGenParams {
        task_name: "my_task".to_string(),
        require_multiversion_generate_tasks: false,
        ..Default::default()
    };

    let (_, suite) = gen_resmoke_service
        .generate_resmoke_task(
            &params,
            &BuildVariant {
                display_name: Some("! required build variant".to_string()),
                ..Default::default()
            },
            &suite_tests(&gen_resmoke_service, &params, &test_list, &task_history),
        );

    assert_eq!(suite.display_name(), "my_task".to_string());
    assert_eq!(suite.sub_tasks().len(), 5);
}

#[test]
fn test_generate_resmoke_tasks_required_variant_small() {
    // Creating tasks based off of a required build variant with small test runtime,
    // the default number of subtasks should be used.

    let test_list: Vec<String> = (0..9)
        .map(|i| format!("test_{}.js", i))
        .collect();
    let task_history = TaskRuntimeHistory {
        task_name: "my_task".to_string(),
        test_map: history_map(vec![
            ("test_0".to_string(), build_mock_test_runtime("test_0.js", 1.0)),
            ("test_1".to_string(), build_mock_test_runtime("test_1.js", 1.0)),
            ("test_2".to_string(), build_mock_test_runtime("test_2.js", 1.0)),
            ("test_3".to_string(), build_mock_test_runtime("test_3.js", 1.0)),
            ("test_4".to_string(), build_mock_test_runtime("test_4.js", 1.0)),
            ("test_5".to_string(), build_mock_test_runtime("test_5.js", 1.0)),
            ("test_6".to_string(), build_mock_test_runtime("test_6.js", 1.0)),
            ("test_7".to_string(), build_mock_test_runtime("test_7.js", 1.0)),
            ("test_8".to_string(), build_mock_test_runtime("test_8.js", 1.0)),
        ]),
    };
    let gen_resmoke_service = build_mocked_service();

    let params = ResmokeGenParams {
        task_name: "my_task".to_string(),
        require_multiversion_generate_tasks: false,
        ..Default::default()
    };

    let (_, suite) = gen_resmoke_service
        .generate_resmoke_task(
            &params,
            &BuildVariant {
                display_name: Some("! required build variant".to_string()),
                ..Default::default()
            },
            &suite_tests(&gen_resmoke_service, &params, &test_list, &task_history),
        );

    assert_eq!(suite.display_name(), "my_task".to_string());
    assert_eq!(suite.sub_tasks().len(), 5);
}

#[test]
fn test_generate_resmoke_tasks_multiversion_success() {
    let num_tasks = 3;
    let test_list = vec![
        "test_0.js".to_string(),
        "test_1.js".to_string(),
        "test_2.js".to_string(),
        "test_3.js".to_string(),
    ];
    let task_history = TaskRuntimeHistory {
        task_name: "my_task".to_string(),
        test_map: StringMap::new(),
    };
    let gen_resmoke_service = build_mocked_service();
    let generate_tasks = vec![
        MultiversionGenerateTaskConfig {
            suite_name: "suite1_last_lts".to_string(),
            old_version: "last-lts".to_string(),
                bazel_target: None,
        },
        MultiversionGenerateTaskConfig {
            suite_name: "suite1_last_continuous".to_string(),
            old_version: "last-continuous".to_string(),
                bazel_target: None,
        },
    ];
    let params = ResmokeGenParams {
        task_name: "my_task".to_string(),
        multiversion_generate_tasks: Some(generate_tasks.clone()),
        require_multiversion_generate_tasks: true,
        num_tasks: Some(num_tasks),
        ..Default::default()
    };

    let (_, suite) = gen_resmoke_service
        .generate_resmoke_task(
            &params,
            &BuildVariant {
                display_name: Some("build-variant".to_string()),
                ..Default::default()
            },
            &suite_tests(&gen_resmoke_service, &params, &test_list, &task_history),
        );

    assert_eq!(suite.display_name(), "my_task".to_string());
    assert_eq!(suite.sub_tasks().len(), num_tasks * generate_tasks.len());
}
#[test]
#[should_panic]
fn test_generate_resmoke_tasks_multiversion_fail() {
    let num_tasks = Some(3);
    let test_list = vec![
        "test_0.js".to_string(),
        "test_1.js".to_string(),
        "test_2.js".to_string(),
        "test_3.js".to_string(),
    ];
    let task_history = TaskRuntimeHistory {
        task_name: "my_task".to_string(),
        test_map: StringMap::new(),
    };
    let gen_resmoke_service = build_mocked_service();
    let params = ResmokeGenParams {
        task_name: "my_task".to_string(),
        multiversion_generate_tasks: None,
        require_multiversion_generate_tasks: true,
        num_tasks,
        ..Default::default()
    };

    let build_variant = BuildVariant {
        display_name: Some("build-variant".to_string()),
        ..Default::default()
    };
    let tests = vec![SuiteTests {
        test_list,
        history: Some(task_history),
    }];
    assert!(gen_resmoke_service.can_generate(&params, &build_variant, &tests));
    gen_resmoke_service.generate_resmoke_task(&params, &build_variant, &tests);
}

#[test]
fn a_multiversion_task_without_suites_cannot_be_generated() {
    let service = build_mocked_service();
    let params = ResmokeGenParams {
        task_name: "my_task".to_string(),
        multiversion_generate_tasks: None,
        require_multiversion_generate_tasks: true,
        num_tasks: Some(3),
        ..Default::default()
    };
    let build_variant = BuildVariant {
        display_name: Some("build-variant".to_string()),
        ..Default::default()
    };
    let tests = vec![SuiteTests {
        test_list: vec!["test_0.js".to_string()],
        history: None,
    }];
    assert!(!service.can_generate(&params, &build_variant, &tests));
    let plain = ResmokeGenParams {
        require_multiversion_generate_tasks: false,
        ..params
    };
    assert!(service.can_generate(&plain, &build_variant, &tests));
}

// resmoke_commands tests.
fn get_evg_fn_name(evg_command: &EvgCommand) -> Option<&str> {
    if let EvgCommand::Function(func) = evg_command {
        Some(&func.func)
    } else {
        None
    }
}
#[test]
fn test_resmoke_commands() {
    let commands = resmoke_commands("run test", new_vars(), false);
    assert_eq!(commands.len(), 3);
    assert_eq!(get_evg_fn_name(&commands[0]), Some("do setup"));
    assert_eq!(get_evg_fn_name(&commands[2]), Some("run test"));
}
#[test]
fn test_resmoke_commands_should_include_multiversion() {
    let commands = resmoke_commands("run test", new_vars(), true);
    assert_eq!(commands.len(), 6);
    assert_eq!(get_evg_fn_name(&commands[2]), Some("do setup"));
    assert_eq!(get_evg_fn_name(&commands[4]), Some("do multiversion setup"));
    assert_eq!(get_evg_fn_name(&commands[5]), Some("run test"));
}
// sort_tests_by_runtime tests.
fn check_sort_tests_by_runtime(
    historic_runtimes: Vec<f64>,
    sorted_indexes: Vec<i32>,
) {
    let test_list: Vec<String> = (0..sorted_indexes.len())
        .map(|i| format!("test_{}.js", i))
        .collect();
    let task_stats = TaskRuntimeHistory {
        task_name: "my_task".to_string(),
        test_map: history_map(
            (0..historic_runtimes.len())
            .map(|i| {
                (
                    format!("test_{}", i),
                    build_mock_test_runtime(
                        format!("test_{}.js", i).as_ref(),
                        historic_runtimes[i],
                    ),
                )
            })
            .collect(),
        ),
    };
    let expected_result: Vec<String> = (0..sorted_indexes.len())
        .map(|i| format!("test_{}.js", sorted_indexes[i]))
        .collect();
    let result = sort_tests_by_runtime(test_list, &task_stats);
    assert_eq!(result, expected_result);
}

#[test]
fn test_sort_tests_by_runtime() {
    check_sort_tests_by_runtime(vec![100.0, 50.0, 30.0, 25.0, 20.0, 15.0], vec![0, 1, 2, 3, 4, 5]);
    check_sort_tests_by_runtime(vec![15.0, 20.0, 25.0, 30.0, 50.0, 100.0], vec![5, 4, 3, 2, 1, 0]);
    check_sort_tests_by_runtime(vec![15.0, 50.0, 25.0, 30.0, 20.0, 100.0], vec![5, 1, 3, 2, 4, 0]);
    check_sort_tests_by_runtime(vec![100.0, 50.0, 30.0], vec![0, 1, 2, 3, 4, 5]);
    check_sort_tests_by_runtime(vec![30.0, 50.0, 100.0], vec![2, 1, 0, 3, 4, 5]);
    check_sort_tests_by_runtime(vec![30.0, 100.0, 50.0], vec![1, 2, 0, 3, 4, 5]);
    check_sort_tests_by_runtime(vec![], vec![0, 1, 2, 3, 4, 5]);
}

#[test]
fn tests_without_history_come_behind_those_that_take_no_time() {
    let task_stats = TaskRuntimeHistory {
        task_name: "my_task".to_string(),
        test_map: history_map(vec![("b".to_string(), build_mock_test_runtime("b.js", 0.0))]),
    };
    let tests = vec!["a.js".to_string(), "b.js".to_string(), "c.js".to_string()];
    let sorted = sort_tests_by_runtime(tests, &task_stats);
    assert_eq!(sorted, vec!["b.js", "a.js", "c.js"]);
}

// get_min_index tests.
fn check_get_min_index(running_runtimes: Vec<f64>, expected_min_idx: usize) {
    let runtimes: Vec<i128> = running_runtimes.iter().map(|r| nanos(*r) as i128).collect();
    let min_idx = get_min_index(&runtimes);
    assert_eq!(min_idx, expected_min_idx);
}

#[test]
fn test_get_min_index() {
    check_get_min_index(vec![100.0, 50.0, 30.0, 25.0, 20.0, 15.0], 5);
    check_get_min_index(vec![15.0, 20.0, 25.0, 30.0, 50.0, 100.0], 0);
    check_get_min_index(vec![25.0, 50.0, 15.0, 30.0, 100.0, 20.0], 2);
}


// What holds of every split.
fn numbered_tests(n: usize) -> Vec<String> {
    (0..n).map(|i| format!("test_{}.js", i)).collect()
}

fn sorted(mut tests: Vec<String>) -> Vec<String> {
    tests.sort();
    tests
}

#[test]
fn a_split_keeps_the_tests_and_fills_every_suite() {
    let history = TaskRuntimeHistory {
        task_name: "my_task".to_string(),
        test_map: history_map(vec![
            ("test_0".to_string(), build_mock_test_runtime("test_0.js", 7.0)),
            ("test_2".to_string(), build_mock_test_runtime("test_2.js", 2.0)),
            ("test_3".to_string(), build_mock_test_runtime("test_3.js", 3.0)),
        ]),
    };
    for n_tests in 1..9 {
        for n_suites in 1..(n_tests + 1) {
            let suites = divide_by_runtime(numbered_tests(n_tests), &history, n_suites);
            assert_eq!(suites.len(), n_suites);
            assert_eq!(sorted(suites.concat()), numbered_tests(n_tests));

            let suites = divide_evenly(&numbered_tests(n_tests), n_suites);
            assert_eq!(suites.len(), n_suites);
            assert_eq!(suites.concat(), numbered_tests(n_tests));
            for suite in suites {
                assert!(suite.len() == n_tests / n_suites || suite.len() == n_tests / n_suites + 1);
            }
        }
    }
}

#[test]
fn tests_with_the_same_runtime_stay_in_order() {
    let history = TaskRuntimeHistory {
        task_name: "my_task".to_string(),
        test_map: history_map(vec![
            ("a".to_string(), build_mock_test_runtime("a.js", 5.0)),
            ("b".to_string(), build_mock_test_runtime("b.js", 5.0)),
            ("c".to_string(), build_mock_test_runtime("c.js", 9.0)),
        ]),
    };
    let tests: Vec<String> =
        ["x.js", "b.js", "a.js", "c.js"].iter().map(|t| t.to_string()).collect();
    assert_eq!(sort_tests_by_runtime(tests, &history), vec!["c.js", "b.js", "a.js", "x.js"]);
}

#[test]
fn the_tests_of_a_suite_are_shuffled_but_kept() {
    let service = build_mocked_service();
    let params = ResmokeGenParams {
        is_enterprise: true,
        ..Default::default()
    };
    let tests: Vec<String> = numbered_tests(200);
    let mut moved = false;
    for _ in 0..5 {
        let selected = select(&service, &params, &tests);
        assert_eq!(sorted(selected.clone()), sorted(tests.clone()));
        moved = moved || selected != tests;
    }
    assert!(moved);
    assert_eq!(
        service.select_tests(
            &params,
            &vec!["a.js".to_string(), "gone.js".to_string()],
            &vec![true, false],
        ),
        vec!["a.js"]
    );
}

#[test]
fn sub_suites_are_numbered_and_the_rest_is_left_out_of_them() {
    let service = build_mocked_service();
    let params = ResmokeGenParams {
        task_name: "my_task".to_string(),
        suite_name: "my_suite".to_string(),
        num_tasks: Some(2),
        ..Default::default()
    };
    let history = TaskRuntimeHistory {
        task_name: "my_task".to_string(),
        test_map: StringMap::new(),
    };
    let test_list = numbered_tests(4);
    let tests = suite_tests(&service, &params, &test_list, &history);
    let build_variant = BuildVariant::default();
    assert!(service.can_generate(&params, &build_variant, &tests));
    let (info, suite) = service.generate_resmoke_task(&params, &build_variant, &tests);
    assert_eq!(info.task_name, "my_task");
    assert_eq!(info.origin_suite, "my_suite");
    assert!(!info.require_multiversion_generate_tasks);
    let indexes: Vec<Option<usize>> = info.sub_suites.iter().map(|s| s.index).collect();
    assert_eq!(indexes, vec![Some(0), Some(1)]);
    let names: Vec<&str> = suite.sub_suites.iter().map(|s| s.evg_task.name.as_str()).collect();
    assert_eq!(names, vec!["my_task_0", "my_task_1"]);
    let all: Vec<String> = info.sub_suites.iter().flat_map(|s| s.test_list.clone()).collect();
    assert_eq!(sorted(all), test_list);
}

#[test]
fn the_suite_variable_has_no_effect_on_multiversion() {
    let service = build_mocked_service();
    let params = |suite: &str| ResmokeGenParams {
        task_name: "my_task".to_string(),
        suite_name: suite.to_string(),
        require_multiversion_generate_tasks: true,
        multiversion_generate_tasks: Some(vec![MultiversionGenerateTaskConfig {
            suite_name: "mv_suite".to_string(),
            old_version: "last_lts".to_string(),
            bazel_target: None,
        }]),
        num_tasks: Some(2),
        pass_through_vars: Some(vars(vec![("suite", text_param(suite))])),
        ..Default::default()
    };
    let tests = vec![SuiteTests {
        test_list: numbered_tests(4),
        history: None,
    }];
    let build_variant = BuildVariant::default();
    let (info, suite) = service.generate_resmoke_task(&params("one"), &build_variant, &tests);
    let (other, other_suite) =
        service.generate_resmoke_task(&params("two"), &build_variant, &tests);
    assert_eq!(service.suites_to_discover(&params("one")), vec!["mv_suite"]);
    assert_eq!(info.sub_suites, other.sub_suites);
    assert_eq!(
        suite.sub_suites.iter().map(|s| &s.evg_task.name).collect::<Vec<_>>(),
        other_suite.sub_suites.iter().map(|s| &s.evg_task.name).collect::<Vec<_>>()
    );
    assert_eq!(suite.sub_suites[0].evg_task.name, "mv_suite_0");
}

// Multiversion tags.
#[test]
fn exclude_tags_are_those_of_the_old_version() {
    let service = MultiversionServiceImpl::new(MultiversionConfig {
        last_versions: vec![],
        requires_fcv_tag: "fcv".to_string(),
        requires_fcv_tag_lts: Some("fcv_lts".to_string()),
        requires_fcv_tag_continuous: Some("fcv_continuous".to_string()),
    });
    let cases = [
        (None, "fcv"),
        (Some("last_lts"), "fcv_lts"),
        (Some("last_continuous"), "fcv_continuous"),
    ];
    for (mode, tag) in cases {
        let mode = mode.map(|m| m.to_string());
        assert!(service.is_mode_known(&mode));
        assert_eq!(
            service.exclude_tags_for_task("my_task", mode),
            format!(
                "multiversion_incompatible,backport_required_multiversion,\
                 my_task_backport_required_multiversion,{}",
                tag
            )
        );
    }
    assert!(!is_known_mode(&Some("other".to_string())));
}
