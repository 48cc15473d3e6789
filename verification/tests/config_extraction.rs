use mongo_task_generator::errors::ConfigError;
use mongo_task_generator::evergreen::evg_config_utils::EvgConfigUtilsImpl;
use mongo_task_generator::evergreen::model::{
    fn_call_with_params, text_param, BuildVariant, EvgTask, Expansions, TaskDependency, Vars,
};
use mongo_task_generator::evergreen_names::{
    GENERATE_RESMOKE_TASKS, INITIALIZE_MULTIVERSION_TASKS,
};
use mongo_task_generator::generate_sub_tasks_config::GenerateSubTasksConfig;
use mongo_task_generator::services::config_extraction::{
    has_valid_suites, ConfigExtractionServiceImpl,
};
use mongo_task_generator::task_types::generated_suite::GeneratedSubTask;
use mongo_task_generator::task_types::resmoke_tasks::GeneratedResmokeSuite;
use mongo_task_generator::utils::string_map::StringMap;
use mongo_task_generator::utils::string_set::StringSet;

fn build_mocked_config_extraction_service() -> ConfigExtractionServiceImpl {
    ConfigExtractionServiceImpl::new(
        EvgConfigUtilsImpl::new(),
        "generating_task".to_string(),
        "config_location".to_string(),
        None,
    )
}

fn expansions(entries: &[(&str, &str)]) -> Expansions {
    let mut map = StringMap::new();
    for (name, value) in entries {
        map.insert(name.to_string(), value.to_string());
    }
    map
}

fn vars(entries: &[(&str, &str)]) -> Vars {
    let mut map = StringMap::new();
    for (name, value) in entries {
        map.insert(name.to_string(), text_param(value));
    }
    map
}

// Tests for determine_task_dependencies.
fn check_determine_task_dependencies(depends_on: Vec<&str>, expected_deps: Vec<&str>) {
    let config_extraction_service = build_mocked_config_extraction_service();
    let evg_task = EvgTask {
        depends_on: Some(
            depends_on
                .into_iter()
                .map(|d| TaskDependency {
                    name: d.to_string(),
                    variant: None,
                })
                .collect(),
        ),
        ..Default::default()
    };

    let deps = config_extraction_service.determine_task_dependencies(&evg_task);

    assert_eq!(
        deps,
        expected_deps
            .into_iter()
            .map(|d| d.to_string())
            .collect::<Vec<String>>()
    );
}

#[test]
fn test_determine_task_dependencies() {
    check_determine_task_dependencies(vec![], vec![]);
    check_determine_task_dependencies(
        vec!["dependency_0", "dependency_1"],
        vec!["dependency_0", "dependency_1"],
    );
    check_determine_task_dependencies(
        vec!["dependency_0", "generating_task"],
        vec!["dependency_0"],
    );
}

// Tests for determine_large_distro.
fn suite_of(use_distros: &[(bool, bool)]) -> GeneratedResmokeSuite {
    GeneratedResmokeSuite {
        task_name: "display_task_name".to_string(),
        sub_suites: use_distros
            .iter()
            .enumerate()
            .map(|(i, (large, xlarge))| GeneratedSubTask {
                evg_task: EvgTask {
                    name: format!("sub_suite_name_{}", i),
                    ..Default::default()
                },
                use_large_distro: *large,
                use_xlarge_distro: *xlarge,
            })
            .collect(),
    }
}

fn check_determine_large_distro(
    use_large_distro: Vec<bool>,
    large_distro_name: Option<String>,
    expected_distro: Option<String>,
) {
    let config_extraction_service = build_mocked_config_extraction_service();
    let flags: Vec<(bool, bool)> = use_large_distro.into_iter().map(|l| (l, false)).collect();
    let generated_task = suite_of(&flags);
    let mut build_variant = BuildVariant {
        ..Default::default()
    };
    if let Some(distro_name) = large_distro_name {
        build_variant.expansions = Some(expansions(&[("large_distro_name", &distro_name)]));
    };

    let large_distro = config_extraction_service
        .determine_large_distro(&generated_task, &build_variant)
        .unwrap();

    assert_eq!(large_distro, expected_distro);
}

#[test]
fn test_determine_large_distro_should_return_large_distro_name() {
    let large = Some("large_distro".to_string());
    check_determine_large_distro(vec![false, false], None, None);
    check_determine_large_distro(vec![false, false], large.clone(), None);
    check_determine_large_distro(vec![true, false], large.clone(), large.clone());
    check_determine_large_distro(vec![false, true], large.clone(), large.clone());
    check_determine_large_distro(vec![true, true], large.clone(), large.clone());
}

#[test]
fn test_determine_large_distro_should_fail_if_no_large_distro() {
    let config_extraction_service = build_mocked_config_extraction_service();
    let generated_task = suite_of(&[(true, false)]);
    let build_variant = BuildVariant {
        ..Default::default()
    };

    let large_distro =
        config_extraction_service.determine_large_distro(&generated_task, &build_variant);

    assert!(large_distro.is_err());
}

#[test]
fn test_determine_large_distro_respects_ignore_missing_large_distro() {
    let mut config_extraction_service = build_mocked_config_extraction_service();
    let mut exceptions = StringSet::new();
    exceptions.insert("build_variant_0".to_string());
    exceptions.insert("my_build_variant".to_string());
    exceptions.insert("build_variant_1".to_string());
    config_extraction_service.gen_sub_tasks_config = Some(GenerateSubTasksConfig {
        build_variant_large_distro_exceptions: exceptions,
    });
    let generated_task = suite_of(&[(true, false)]);
    let build_variant = BuildVariant {
        name: "my_build_variant".to_string(),
        ..Default::default()
    };

    let large_distro =
        config_extraction_service.determine_large_distro(&generated_task, &build_variant);

    assert!(large_distro.is_ok());
}

#[test]
fn a_missing_large_distro_is_reported_with_its_build_variant() {
    let service = build_mocked_config_extraction_service();
    let build_variant = BuildVariant {
        name: "my_build_variant".to_string(),
        ..Default::default()
    };
    let error = service
        .determine_large_distro(&suite_of(&[(true, false)]), &build_variant)
        .unwrap_err();
    assert_eq!(
        error,
        ConfigError::MissingLargeDistro {
            build_variant: "my_build_variant".to_string(),
        }
    );
    assert!(error.message().contains("my_build_variant"));
}

#[test]
fn xlarge_distros_fall_back_to_large_ones() {
    let service = build_mocked_config_extraction_service();
    let mut build_variant = BuildVariant {
        expansions: Some(expansions(&[
            ("large_distro_name", "large"),
            ("xlarge_distro_name", "xlarge"),
        ])),
        ..Default::default()
    };
    let suite = suite_of(&[(false, true), (false, false)]);
    assert_eq!(
        service.determine_large_distro(&suite, &build_variant),
        Ok(Some("xlarge".to_string()))
    );
    build_variant.expansions = Some(expansions(&[("large_distro_name", "large")]));
    assert_eq!(
        service.determine_large_distro(&suite, &build_variant),
        Ok(Some("large".to_string()))
    );
    build_variant.expansions = None;
    assert_eq!(service.determine_large_distro(&suite, &build_variant), Ok(None));
}

fn fuzzer_vars() -> Vec<(&'static str, &'static str)> {
    vec![
        ("is_jstestfuzz", "true"),
        ("num_files", "${fuzzer_files|10}"),
        ("num_tasks", "5"),
        ("resmoke_args", "--help"),
        ("resmoke_jobs_max", "1"),
        ("should_shuffle", "false"),
        ("continue_on_failure", "false"),
        ("timeout_secs", "1800"),
        ("npm_command", "initsync-fuzzer"),
        ("suite", "initial_sync_fuzzer"),
    ]
}

fn task_with(name: &str, entries: &[(&str, &str)]) -> EvgTask {
    EvgTask {
        name: name.to_string(),
        commands: Some(vec![fn_call_with_params(GENERATE_RESMOKE_TASKS, vars(entries))]),
        depends_on: Some(vec![
            TaskDependency {
                name: "generating_task".to_string(),
                variant: None,
            },
            TaskDependency {
                name: "archive_dist_test".to_string(),
                variant: None,
            },
        ]),
        ..Default::default()
    }
}

#[test]
fn fuzzer_parameters_come_from_the_variables() {
    let service = build_mocked_config_extraction_service();
    let task = task_with("initial_sync_fuzzer_gen", &fuzzer_vars());
    let build_variant = BuildVariant {
        name: "my_variant".to_string(),
        run_on: Some(vec!["windows-small".to_string()]),
        ..Default::default()
    };
    let params = service.find_fuzzer_params(&task, &build_variant).unwrap().unwrap();
    assert_eq!(params.task_name, "initial_sync_fuzzer");
    assert_eq!(params.variant, "my_variant");
    assert_eq!(params.suite, "initial_sync_fuzzer");
    assert_eq!(params.num_files, "10");
    assert_eq!(params.num_tasks, 5);
    assert_eq!(params.npm_command, "initsync-fuzzer");
    assert_eq!(params.timeout_secs, 1800);
    assert!(!params.should_shuffle);
    assert!(!params.require_multiversion_setup);
    assert_eq!(params.dependencies, vec!["archive_dist_test".to_string()]);
    assert_eq!(params.platform, Some("windows".to_string()));
    assert!(params.is_enterprise);

    let variant_with_files = BuildVariant {
        expansions: Some(expansions(&[("fuzzer_files", "3")])),
        ..Default::default()
    };
    let params = service.find_fuzzer_params(&task, &variant_with_files).unwrap().unwrap();
    assert_eq!(params.num_files, "3");
}

#[test]
fn fuzzers_need_their_variables() {
    let service = build_mocked_config_extraction_service();
    let build_variant = BuildVariant::default();
    let entries: Vec<(&str, &str)> =
        fuzzer_vars().into_iter().filter(|(name, _)| *name != "num_files").collect();
    assert!(service.find_fuzzer_params(&task_with("fuzzer", &entries), &build_variant).is_none());

    let entries: Vec<(&str, &str)> =
        fuzzer_vars().into_iter().filter(|(name, _)| *name != "timeout_secs").collect();
    let result = service.find_fuzzer_params(&task_with("fuzzer", &entries), &build_variant);
    assert_eq!(
        result.unwrap().unwrap_err(),
        ConfigError::MissingVar {
            var: "timeout_secs".to_string(),
            task: "fuzzer".to_string(),
        }
    );
}

#[test]
fn resmoke_parameters_come_from_the_variables() {
    let service = build_mocked_config_extraction_service();
    let mut task = task_with(
        "noPassthrough_gen",
        &[
            ("suite", "no_passthrough"),
            ("use_large_distro", "true"),
            ("num_tasks", "7"),
            ("resmoke_repeat_suites", "2"),
        ],
    );
    task.tags = Some(vec!["multiversion".to_string()]);
    let build_variant = BuildVariant {
        expansions: Some(expansions(&[("unique_gen_suffix", "_asan")])),
        ..Default::default()
    };
    let params = service
        .task_def_to_resmoke_params(&task, true, Some(&build_variant), Some("linux".to_string()))
        .unwrap();
    assert_eq!(params.task_name, "noPassthrough");
    assert_eq!(params.suite_name, "no_passthrough");
    assert!(params.use_large_distro);
    assert!(!params.use_xlarge_distro);
    assert!(params.require_multiversion_setup);
    assert!(params.require_multiversion_generate_tasks);
    assert_eq!(params.num_tasks, Some(7));
    assert_eq!(params.repeat_suites, Some(2));
    assert_eq!(params.resmoke_jobs_max, None);
    assert_eq!(params.resmoke_args, "");
    assert_eq!(params.gen_task_suffix, Some("_asan".to_string()));
    assert_eq!(params.config_location, "config_location");
    assert_eq!(params.pass_through_vars.unwrap().len(), 4);

    task.tags = Some(vec![
        "multiversion".to_string(),
        "no_multiversion_generate_tasks".to_string(),
    ]);
    let params = service.task_def_to_resmoke_params(&task, true, None, None).unwrap();
    assert!(params.require_multiversion_setup);
    assert!(!params.require_multiversion_generate_tasks);
    assert_eq!(params.gen_task_suffix, None);
}

#[test]
fn bazel_suites_without_a_target_are_told() {
    assert!(has_valid_suites(&task_with("task", &[("suite", "//suites:core")])));
    assert!(!has_valid_suites(&task_with("task", &[("suite", "//suites")])));
    let task = EvgTask {
        commands: Some(vec![fn_call_with_params(
            INITIALIZE_MULTIVERSION_TASKS,
            vars(&[("//suites", "last_lts")]),
        )]),
        ..Default::default()
    };
    assert!(!has_valid_suites(&task));
}
