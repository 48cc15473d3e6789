use mongo_task_generator::evergreen::evg_config_utils::MultiversionGenerateTaskConfig;
use mongo_task_generator::evergreen::model::{EvgCommand, EvgTask, ParamValue};
use mongo_task_generator::task_types::fuzzer_tasks::{
    build_fuzzer_sub_task, FuzzerGenTaskParams, FuzzerTask, GenFuzzerServiceImpl,
};
use mongo_task_generator::task_types::generated_suite::GeneratedSuite;

// FuzzerGenTasParams tests
fn check_build_fuzzer_params(npm_command: &str, jstestfuzz_vars: Option<&str>, num_files: &str) {
    let gen_params = FuzzerGenTaskParams {
        npm_command: npm_command.to_string(),
        jstestfuzz_vars: jstestfuzz_vars.map(|j| j.to_string()),
        num_files: num_files.to_string(),
        ..Default::default()
    };

    let parameters = gen_params.build_fuzzer_parameters();

    assert_eq!(
        parameters.get("npm_command"),
        Some(&ParamValue::String(npm_command.to_string()))
    );
    let expected_vars = format!(
        "--numGeneratedFiles {} {}",
        num_files,
        jstestfuzz_vars.unwrap_or_default()
    );
    assert_eq!(
        parameters.get("jstestfuzz_vars"),
        Some(&ParamValue::String(expected_vars))
    );
}

#[test]
fn test_build_fuzzer_params() {
    check_build_fuzzer_params("my_command", None, "5");
    check_build_fuzzer_params("my_command", Some("node params"), "20");
}

#[test]
fn test_is_multiversion() {
    for (require_multiversion_setup, actual) in [(true, true), (false, false)] {
        let gen_params = FuzzerGenTaskParams {
            require_multiversion_setup,
            ..Default::default()
        };

        assert_eq!(gen_params.is_multiversion(), actual);
    }
}

fn check_build_run_tests_vars(
    suite_name: &str,
    gen_suite_name: Option<&str>,
    bin_version: Option<&str>,
    expected_suite: &str,
) {
    let gen_params = FuzzerGenTaskParams {
        task_name: "my task".to_string(),
        suite: suite_name.to_string(),
        ..Default::default()
    };

    let run_tests_vars = gen_params.build_run_tests_vars(gen_suite_name, bin_version);

    assert_eq!(
        run_tests_vars.get("task"),
        Some(&ParamValue::String("my task".to_string()))
    );
    assert_eq!(
        run_tests_vars.get("suite"),
        Some(&ParamValue::String(expected_suite.to_string()))
    );
    assert_eq!(
        run_tests_vars.contains_key("multiversion_exclude_tags_version"),
        bin_version.is_some()
    );
}

#[test]
fn test_build_run_tests_vars() {
    check_build_run_tests_vars("my suite", None, None, "my suite");
    check_build_run_tests_vars("my suite", Some("gen suite name"), None, "gen suite name");
    check_build_run_tests_vars("my suite", None, Some("bin version"), "my suite");
    check_build_run_tests_vars(
        "my suite",
        Some("gen suite name"),
        Some("bin version"),
        "gen suite name",
    );
}

// FuzzerTask tests
#[test]
fn test_display_name() {
    let fuzzer_task = FuzzerTask {
        task_name: "my fuzzer".to_string(),
        sub_tasks: vec![],
    };

    assert_eq!(fuzzer_task.display_name(), "my fuzzer".to_string());
}

#[test]
fn test_sub_tasks() {
    let fuzzer_task = FuzzerTask {
        task_name: "my fuzzer".to_string(),
        sub_tasks: vec![
            EvgTask {
                ..Default::default()
            },
            EvgTask {
                ..Default::default()
            },
        ],
    };

    assert_eq!(fuzzer_task.sub_tasks().len(), 2);
}

#[test]
fn test_build_task_ref() {
    let fuzzer_task = FuzzerTask {
        task_name: "my fuzzer".to_string(),
        sub_tasks: vec![
            EvgTask {
                ..Default::default()
            },
            EvgTask {
                ..Default::default()
            },
        ],
    };

    let task_refs = fuzzer_task.build_task_ref(Some("distro".to_string()), None);

    for task in task_refs {
        assert_eq!(task.distros.as_ref(), None);
    }
}

// `build_fuzzer_sub_task` tests.

fn get_evg_fn_name(evg_command: &EvgCommand) -> Option<&str> {
    if let EvgCommand::Function(func) = evg_command {
        Some(&func.func)
    } else {
        None
    }
}

#[test]
fn test_build_fuzzer_sub_task() {
    let display_name = "my_task";
    let sub_task_index = 42;
    let params = FuzzerGenTaskParams {
        task_name: "some task".to_string(),
        dependencies: vec!["archive_dist_test_debug".to_string()],
        ..Default::default()
    };

    let sub_task = build_fuzzer_sub_task(display_name, sub_task_index, &params, None, None);

    assert_eq!(sub_task.name, "my_task_42");
    assert!(sub_task.commands.is_some());
    let commands = sub_task.commands.unwrap();
    assert_eq!(get_evg_fn_name(&commands[0]), Some("do setup"));
    assert_eq!(get_evg_fn_name(&commands[3]), Some("run jstestfuzz"));
    assert_eq!(get_evg_fn_name(&commands[4]), Some("run generated tests"));
    assert_eq!(
        sub_task.depends_on.unwrap()[0].name,
        "archive_dist_test_debug"
    )
}

#[test]
fn test_build_multiversion_fuzzer_sub_task() {
    let display_name = "my_task";
    let sub_task_index = 42;
    let params = FuzzerGenTaskParams {
        task_name: "some task".to_string(),
        require_multiversion_setup: true,
        dependencies: vec!["archive_dist_test_debug".to_string()],
        ..Default::default()
    };

    let sub_task = build_fuzzer_sub_task(display_name, sub_task_index, &params, None, None);

    assert_eq!(sub_task.name, "my_task_42");
    assert!(sub_task.commands.is_some());
    let commands = sub_task.commands.unwrap();
    assert_eq!(
        get_evg_fn_name(&commands[0]),
        Some("git get project no modules")
    );
    assert_eq!(get_evg_fn_name(&commands[2]), Some("do setup"));
    assert_eq!(get_evg_fn_name(&commands[4]), Some("do multiversion setup"));
    assert_eq!(get_evg_fn_name(&commands[6]), Some("run jstestfuzz"));
    assert_eq!(get_evg_fn_name(&commands[7]), Some("run generated tests"));
    assert_eq!(
        sub_task.depends_on.unwrap()[0].name,
        "archive_dist_test_debug"
    )
}

#[test]
fn a_fuzzer_has_as_many_sub_tasks_as_it_asks_for() {
    let service = GenFuzzerServiceImpl::new();
    let params = FuzzerGenTaskParams {
        task_name: "fuzzer".to_string(),
        num_tasks: 5,
        is_enterprise: true,
        ..Default::default()
    };
    let task = service.generate_fuzzer_task(&params);
    let names: Vec<&str> = task.sub_tasks.iter().map(|t| t.name.as_str()).collect();
    assert_eq!(
        names,
        vec![
            "fuzzer_0-enterprise",
            "fuzzer_1-enterprise",
            "fuzzer_2-enterprise",
            "fuzzer_3-enterprise",
            "fuzzer_4-enterprise",
        ]
    );
    let display_task = task.build_display_task();
    assert_eq!(display_task.name, "fuzzer");
    let ref_names: Vec<String> =
        task.build_task_ref(None, None).into_iter().map(|r| r.name).collect();
    assert_eq!(display_task.execution_tasks, ref_names);
}

#[test]
fn a_multiversion_fuzzer_has_sub_tasks_for_each_suite() {
    let service = GenFuzzerServiceImpl::new();
    let config = |suite: &str, version: &str| MultiversionGenerateTaskConfig {
        suite_name: suite.to_string(),
        old_version: version.to_string(),
        bazel_target: None,
    };
    let params = FuzzerGenTaskParams {
        task_name: "fuzzer".to_string(),
        num_tasks: 2,
        require_multiversion_setup: true,
        multiversion_generate_tasks: Some(vec![
            config("fuzzer_lts", "last_lts"),
            config("fuzzer_continuous", "last_continuous"),
        ]),
        ..Default::default()
    };
    let task = service.generate_fuzzer_task(&params);
    let names: Vec<&str> = task.sub_tasks.iter().map(|t| t.name.as_str()).collect();
    assert_eq!(
        names,
        vec![
            "fuzzer_lts_0",
            "fuzzer_lts_1",
            "fuzzer_continuous_0",
            "fuzzer_continuous_1",
        ]
    );
}
