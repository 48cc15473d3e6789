use mongo_task_generator::errors::ConfigError;
use mongo_task_generator::evergreen::evg_config::{EvgProject, EvgProjectConfig};
use mongo_task_generator::evergreen::evg_config_utils::{
    get_bazel_suite_name, get_func_by_name, get_func_vars_by_name, is_bazel_suite,
    EvgConfigUtilsImpl, MultiversionGenerateTaskConfig,
};
use mongo_task_generator::evergreen::model::{
    clone_vars, fn_call, fn_call_with_params, text_param, BuildVariant, EvgTask, Expansions,
    ParamValue, TaskDependency, TaskRef, Vars,
};
use mongo_task_generator::evergreen_names::{
    BURN_IN_TAG_EXCLUDE_BUILD_VARIANTS, BURN_IN_TAG_INCLUDE_ALL_REQUIRED_AND_SUGGESTED,
    BURN_IN_TAG_INCLUDE_BUILD_VARIANTS, GENERATE_RESMOKE_TASKS, INITIALIZE_MULTIVERSION_TASKS,
};
use mongo_task_generator::utils::string_map::StringMap;

fn vars(entries: Vec<(&str, ParamValue)>) -> Vars {
    let mut map = StringMap::new();
    for (name, value) in entries {
        map.insert(name.to_string(), value);
    }
    map
}

fn expansions(entries: &[(&str, &str)]) -> Expansions {
    let mut map = StringMap::new();
    for (name, value) in entries {
        map.insert(name.to_string(), value.to_string());
    }
    map
}

// test burn in variant resolver

fn get_evg_project() -> EvgProject {
    EvgProject {
        buildvariants: vec![
            BuildVariant {
                name: "bv1".to_string(),
                display_name: Some("! required".to_string()),
                ..Default::default()
            },
            BuildVariant {
                name: "bv2".to_string(),
                display_name: Some("* suggested".to_string()),
                ..Default::default()
            },
            BuildVariant {
                name: "bv3".to_string(),
                display_name: Some("other bv asdf".to_string()),
                ..Default::default()
            },
            BuildVariant {
                name: "bv4".to_string(),
                display_name: Some("other bv xyz".to_string()),
                ..Default::default()
            },
            BuildVariant {
                name: "bv5".to_string(),
                display_name: Some("other bv 123".to_string()),
                ..Default::default()
            },
        ],
        tasks: vec![],
        modules: None,
    }
}
#[test]
fn test_resolve_burn_in_tag_bv_none() {
    let build_variant = BuildVariant {
        ..Default::default()
    };
    let evg_config_utils = EvgConfigUtilsImpl::new();

    let lookup = evg_config_utils.resolve_burn_in_tag_build_variants(
        &build_variant,
        &EvgProjectConfig::new(get_evg_project()).get_build_variant_map(),
    );

    assert_eq!(lookup.len(), 0);
}
#[test]
fn test_resolve_burn_in_tag_bv_includes() {
    let build_variant = BuildVariant {
        expansions: Some(expansions(&[(
                BURN_IN_TAG_INCLUDE_BUILD_VARIANTS,
                "bv1 bv3 bv5",
            ),
            (
                BURN_IN_TAG_EXCLUDE_BUILD_VARIANTS,
                "bv5",
            ),])),
        ..Default::default()
    };
    let evg_config_utils = EvgConfigUtilsImpl::new();

    let lookup = evg_config_utils.resolve_burn_in_tag_build_variants(
        &build_variant,
        &EvgProjectConfig::new(get_evg_project()).get_build_variant_map(),
    );

    assert_eq!(lookup.len(), 2);
    assert_eq!(lookup.contains(&"bv1".to_string()), true);
    assert_eq!(lookup.contains(&"bv3".to_string()), true);
}
#[test]
fn test_resolve_burn_in_tag_bv_suggested_and_required() {
    let build_variant = BuildVariant {
        expansions: Some(expansions(&[(
                BURN_IN_TAG_INCLUDE_BUILD_VARIANTS,
                "bv3 bv5",
            ),
            (
                BURN_IN_TAG_EXCLUDE_BUILD_VARIANTS,
                "bv2",
            ),
            (
                BURN_IN_TAG_INCLUDE_ALL_REQUIRED_AND_SUGGESTED,
                "true",
            ),])),
        ..Default::default()
    };
    let evg_config_utils = EvgConfigUtilsImpl::new();

    let lookup = evg_config_utils.resolve_burn_in_tag_build_variants(
        &build_variant,
        &EvgProjectConfig::new(get_evg_project()).get_build_variant_map(),
    );

    assert_eq!(lookup.len(), 3);
    assert_eq!(lookup.contains(&"bv1".to_string()), true);
    assert_eq!(lookup.contains(&"bv3".to_string()), true);
    assert_eq!(lookup.contains(&"bv5".to_string()), true);
}

#[test]
fn test_resolve_burn_in_tag_bv_suggested_and_required_duplicates() {
    let build_variant = BuildVariant {
        expansions: Some(expansions(&[(
                BURN_IN_TAG_INCLUDE_BUILD_VARIANTS,
                "bv1 bv2 bv3 bv5",
            ),
            (
                BURN_IN_TAG_EXCLUDE_BUILD_VARIANTS,
                "bv2",
            ),
            (
                BURN_IN_TAG_INCLUDE_ALL_REQUIRED_AND_SUGGESTED,
                "true",
            ),])),
        ..Default::default()
    };
    let evg_config_utils = EvgConfigUtilsImpl::new();

    let lookup = evg_config_utils.resolve_burn_in_tag_build_variants(
        &build_variant,
        &EvgProjectConfig::new(get_evg_project()).get_build_variant_map(),
    );

    assert_eq!(lookup.len(), 3);
    assert_eq!(lookup.contains(&"bv1".to_string()), true);
    assert_eq!(lookup.contains(&"bv3".to_string()), true);
    assert_eq!(lookup.contains(&"bv5".to_string()), true);
}

// is_task_generated tests.

#[test]
fn test_is_task_generated_should_return_false_if_not_generated() {
    let evg_task = EvgTask {
        commands: Some(vec![fn_call("hello world"), fn_call("run tests")]),
        ..Default::default()
    };
    let evg_config_utils = EvgConfigUtilsImpl::new();

    assert_eq!(evg_config_utils.is_task_generated(&evg_task), false);
}

#[test]
fn test_is_task_generated_should_return_true_if_generated() {
    let evg_task = EvgTask {
        commands: Some(vec![
            fn_call("hello world"),
            fn_call("generate resmoke tasks"),
            fn_call("run tests"),
        ]),
        ..Default::default()
    };
    let evg_config_utils = EvgConfigUtilsImpl::new();

    assert_eq!(evg_config_utils.is_task_generated(&evg_task), true);
}

// is_task_fuzzer tests.
#[test]
fn test_is_task_fuzzer_should_return_false_if_var_is_missing() {
    let evg_task = EvgTask {
        commands: Some(vec![
            fn_call("hello world"),
            fn_call_with_params(
                "generate resmoke tasks",
                vars(vec![("var1", text_param("value1")),
                    ("var2", text_param("value2")),]),
            ),
        ]),
        ..Default::default()
    };
    let evg_config_utils = EvgConfigUtilsImpl::new();

    assert_eq!(evg_config_utils.is_task_fuzzer(&evg_task), false);
}

#[test]
fn test_is_task_fuzzer_should_return_true_is_var_is_true() {
    let evg_task = EvgTask {
        commands: Some(vec![
            fn_call("hello world"),
            fn_call_with_params(
                "generate resmoke tasks",
                vars(vec![("var1", text_param("value1")),
                    ("is_jstestfuzz", text_param("true")),
                    ("var2", text_param("value2")),]),
            ),
        ]),
        ..Default::default()
    };
    let evg_config_utils = EvgConfigUtilsImpl::new();

    assert_eq!(evg_config_utils.is_task_fuzzer(&evg_task), true);
}

// find_suite_name tests.
#[test]
fn test_find_suite_name_should_use_suite_var_for_generated_task_if_it_exists() {
    let evg_task = EvgTask {
        name: "my_task_gen".to_string(),
        commands: Some(vec![
            fn_call("hello world"),
            fn_call_with_params(
                "generate resmoke tasks",
                vars(vec![("var1", text_param("value1")),
                    ("suite", text_param("my suite name")),
                    ("var2", text_param("value2")),]),
            ),
        ]),
        ..Default::default()
    };
    let evg_config_utils = EvgConfigUtilsImpl::new();

    assert_eq!(evg_config_utils.find_suite_name(&evg_task), "my suite name");
}

// find_suite_name tests.
#[test]
fn test_find_suite_name_should_use_suite_var_for_non_generated_task_if_it_exists() {
    let evg_task = EvgTask {
        name: "my_task".to_string(),
        commands: Some(vec![
            fn_call("hello world"),
            fn_call_with_params(
                "run tests",
                vars(vec![("var1", text_param("value1")),
                    ("suite", text_param("my suite name")),
                    ("var2", text_param("value2")),]),
            ),
        ]),
        ..Default::default()
    };
    let evg_config_utils = EvgConfigUtilsImpl::new();

    assert_eq!(evg_config_utils.find_suite_name(&evg_task), "my suite name");
}

#[test]
fn test_find_suite_name_should_use_task_name_for_generated_task_if_no_var() {
    let evg_task = EvgTask {
        name: "my_task_gen".to_string(),
        commands: Some(vec![
            fn_call("hello world"),
            fn_call_with_params(
                "generate resmoke tasks",
                vars(vec![("var1", text_param("value1")),
                    ("var2", text_param("value2")),]),
            ),
        ]),
        ..Default::default()
    };
    let evg_config_utils = EvgConfigUtilsImpl::new();

    assert_eq!(evg_config_utils.find_suite_name(&evg_task), "my_task");
}

#[test]
fn test_find_suite_name_should_use_task_name_for_non_generated_task_if_no_var() {
    let evg_task = EvgTask {
        name: "my_task".to_string(),
        commands: Some(vec![
            fn_call("hello world"),
            fn_call_with_params(
                "run_tests",
                vars(vec![("var1", text_param("value1")),
                    ("var2", text_param("value2")),]),
            ),
        ]),
        ..Default::default()
    };
    let evg_config_utils = EvgConfigUtilsImpl::new();

    assert_eq!(evg_config_utils.find_suite_name(&evg_task), "my_task");
}

// get_task_tags tests.
#[test]
fn test_get_task_tags_with_no_tags_should_return_empty_set() {
    let evg_task = EvgTask {
        tags: None,
        ..Default::default()
    };
    let evg_config_utils = EvgConfigUtilsImpl::new();

    assert!(evg_config_utils.get_task_tags(&evg_task).to_vec().is_empty());
}

#[test]
fn test_get_task_tags_with_tags_should_return_tags_in_set() {
    let evg_task = EvgTask {
        tags: Some(vec![
            "tag_0".to_string(),
            "tag_1".to_string(),
            "tag_2".to_string(),
        ]),
        ..Default::default()
    };
    let evg_config_utils = EvgConfigUtilsImpl::new();

    let tags = evg_config_utils.get_task_tags(&evg_task);
    assert_eq!(tags.to_vec().len(), 3);
    assert!(tags.contains("tag_0"));
    assert!(tags.contains("tag_1"));
    assert!(tags.contains("tag_2"));
}

// get_task_dependencies tests.
#[test]
fn test_get_task_dependencies_with_no_dependencies_should_return_empty_list() {
    let evg_task = EvgTask {
        depends_on: None,
        ..Default::default()
    };
    let evg_config_utils = EvgConfigUtilsImpl::new();

    assert!(evg_config_utils.get_task_dependencies(&evg_task).is_empty());
}

#[test]
fn test_get_task_dependencies_with_dependencies_should_return_list_of_dependencies() {
    let evg_task = EvgTask {
        depends_on: Some(vec![
            TaskDependency {
                name: "dep0".to_string(),
                variant: None,
            },
            TaskDependency {
                name: "dep1".to_string(),
                variant: None,
            },
            TaskDependency {
                name: "dep2".to_string(),
                variant: None,
            },
        ]),
        ..Default::default()
    };
    let evg_config_utils = EvgConfigUtilsImpl::new();

    let dependencies = evg_config_utils.get_task_dependencies(&evg_task);
    assert_eq!(dependencies.len(), 3);
    assert!(dependencies.contains(&"dep0".to_string()));
    assert!(dependencies.contains(&"dep1".to_string()));
    assert!(dependencies.contains(&"dep2".to_string()));
}

// get_gen_task_var tests.

#[test]
fn test_get_gen_task_var_should_return_none_if_no_func() {
    let evg_task = EvgTask {
        commands: Some(vec![fn_call("hello world"), fn_call("run tests")]),
        ..Default::default()
    };
    let evg_config_utils = EvgConfigUtilsImpl::new();

    assert_eq!(
        evg_config_utils
            .get_gen_task_var(&evg_task, "my var")
            .is_none(),
        true
    );
}

#[test]
fn test_get_gen_task_var_should_return_none_if_no_func_vars() {
    let evg_task = EvgTask {
        commands: Some(vec![
            fn_call("hello world"),
            fn_call("generate resmoke tasks"),
            fn_call("run tests"),
        ]),
        ..Default::default()
    };
    let evg_config_utils = EvgConfigUtilsImpl::new();

    assert_eq!(
        evg_config_utils
            .get_gen_task_var(&evg_task, "my var")
            .is_none(),
        true
    );
}

#[test]
fn test_get_gen_task_var_should_return_none_if_missing_var() {
    let evg_task = EvgTask {
        commands: Some(vec![
            fn_call("hello world"),
            fn_call_with_params(
                "generate resmoke tasks",
                vars(vec![("var1", text_param("value1")),
                    ("var2", text_param("value2")),]),
            ),
            fn_call("run tests"),
        ]),
        ..Default::default()
    };
    let evg_config_utils = EvgConfigUtilsImpl::new();

    assert_eq!(
        evg_config_utils
            .get_gen_task_var(&evg_task, "my var")
            .is_none(),
        true
    );
}

#[test]
fn test_get_gen_task_var_should_return_var_value_if_it_exists() {
    let evg_task = EvgTask {
        commands: Some(vec![
            fn_call("hello world"),
            fn_call_with_params(
                "generate resmoke tasks",
                vars(vec![("var1", text_param("value1")),
                    ("my var", text_param("my value")),
                    ("var2", text_param("value2")),]),
            ),
            fn_call("run tests"),
        ]),
        ..Default::default()
    };
    let evg_config_utils = EvgConfigUtilsImpl::new();

    assert_eq!(
        evg_config_utils.get_gen_task_var(&evg_task, "my var"),
        Some("my value")
    );
}

// get_gen_task_vars tests.
#[test]
fn test_get_gen_task_vars_should_return_none_if_no_func() {
    let evg_task = EvgTask {
        commands: Some(vec![fn_call("hello world"), fn_call("run tests")]),
        ..Default::default()
    };
    let evg_config_utils = EvgConfigUtilsImpl::new();

    assert_eq!(
        evg_config_utils.get_gen_task_vars(&evg_task).is_none(),
        true
    );
}

#[test]
fn test_get_gen_task_vars_should_return_none_if_no_func_vars() {
    let evg_task = EvgTask {
        commands: Some(vec![
            fn_call("hello world"),
            fn_call("generate resmoke tasks"),
            fn_call("run tests"),
        ]),
        ..Default::default()
    };
    let evg_config_utils = EvgConfigUtilsImpl::new();

    assert_eq!(
        evg_config_utils.get_gen_task_vars(&evg_task).is_none(),
        true
    );
}

#[test]
fn test_get_gen_task_vars_should_return_vars_hashmap_if_it_exists() {
    let evg_task = EvgTask {
        commands: Some(vec![
            fn_call("hello world"),
            fn_call_with_params(
                "generate resmoke tasks",
                vars(vec![("var1", text_param("value1")),
                    ("var2", text_param("value2")),]),
            ),
            fn_call("run tests"),
        ]),
        ..Default::default()
    };
    let evg_config_utils = EvgConfigUtilsImpl::new();

    assert_eq!(
        evg_config_utils.get_gen_task_vars(&evg_task),
        Some(vars(vec![("var1", text_param("value1")),
            ("var2", text_param("value2")),]))
    );
}

// get_multiversion_generate_tasks tests.
#[test]
fn test_get_multiversion_generate_tasks_returns_empty_if_init_func_dne() {
    let evg_task = EvgTask {
        commands: Some(vec![
            fn_call("hello world"),
            fn_call(GENERATE_RESMOKE_TASKS),
            fn_call("run tests"),
        ]),
        ..Default::default()
    };
    let evg_config_utils = EvgConfigUtilsImpl::new();
    let multiversion_generate_tasks =
        evg_config_utils.get_multiversion_generate_tasks(&evg_task);
    assert_eq!(multiversion_generate_tasks, None)
}

#[test]
fn test_get_multiversion_generate_tasks_if_init_func_exists() {
    let vars = vars(vec![("mv_suite1_last_continuous", text_param("last-continuous")),
                    ("mv_suite1_last_lts", text_param("last-lts")),]);
    let evg_task = EvgTask {
        commands: Some(vec![
            fn_call("hello world"),
            fn_call_with_params(INITIALIZE_MULTIVERSION_TASKS, clone_vars(&vars)),
            fn_call(GENERATE_RESMOKE_TASKS),
            fn_call("run tests"),
        ]),
        ..Default::default()
    };
    let evg_config_utils = EvgConfigUtilsImpl::new();
    let multiversion_generate_tasks =
        evg_config_utils.get_multiversion_generate_tasks(&evg_task);
    let expected_generate_tasks = vec![
        MultiversionGenerateTaskConfig {
            suite_name: "mv_suite1_last_continuous".to_string(),
            old_version: "last-continuous".to_string(),
            bazel_target: None,
        },
        MultiversionGenerateTaskConfig {
            suite_name: "mv_suite1_last_lts".to_string(),
            old_version: "last-lts".to_string(),
            bazel_target: None,
        },
    ];
    assert!(multiversion_generate_tasks
        .unwrap()
        .iter()
        .all(|task| expected_generate_tasks.contains(task)));
}

// get_func_vars_by_name tests.
#[test]
fn test_get_func_vars_by_name_return_none_if_no_func_exists() {
    let evg_task = EvgTask {
        commands: Some(vec![
            fn_call("hello world"),
            fn_call(GENERATE_RESMOKE_TASKS),
            fn_call("run tests"),
        ]),
        ..Default::default()
    };
    let vars = get_func_vars_by_name(&evg_task, GENERATE_RESMOKE_TASKS);
    assert_eq!(vars, None)
}

#[test]
fn test_get_func_vars_by_name_return_vars_if_func_exists() {
    let vars = vars(vec![("var1", text_param("value1")),
                    ("var2", text_param("value2")),]);
    let evg_task = EvgTask {
        commands: Some(vec![
            fn_call("hello world"),
            fn_call_with_params(GENERATE_RESMOKE_TASKS, clone_vars(&vars)),
            fn_call("run tests"),
        ]),
        ..Default::default()
    };
    let extracted_vars = get_func_vars_by_name(&evg_task, GENERATE_RESMOKE_TASKS);
    assert_eq!(extracted_vars.unwrap(), &vars)
}

// get_func_by_name tests.
#[test]
fn test_get_func_by_name_should_return_function_if_func_exists() {
    let evg_task = EvgTask {
        commands: Some(vec![
            fn_call("hello world"),
            fn_call(GENERATE_RESMOKE_TASKS),
            fn_call("run tests"),
        ]),
        ..Default::default()
    };

    let func = get_func_by_name(&evg_task, GENERATE_RESMOKE_TASKS);

    assert_eq!(
        func.map(|f| &f.func),
        Some(&"generate resmoke tasks".to_string())
    );
}

#[test]
fn test_get_func_by_name_should_return_none_if_no_func_exists() {
    let evg_task = EvgTask {
        commands: Some(vec![fn_call("hello world"), fn_call("run tests")]),
        ..Default::default()
    };

    let func = get_func_by_name(&evg_task, GENERATE_RESMOKE_TASKS);

    assert_eq!(func.is_none(), true);
}

// translate_run_var tests

#[test]
fn test_value_should_be_returned_if_no_matching_expansion() {
    let build_variant = BuildVariant {
        ..Default::default()
    };
    let run_var = "var";
    let evg_config_utils = EvgConfigUtilsImpl::new();

    let lookup = evg_config_utils.translate_run_var(run_var, &build_variant);

    assert_eq!(lookup, Some(run_var.to_string()));
}

#[test]
fn test_none_should_be_returned_if_expansion_but_not_in_bv_and_no_default() {
    let build_variant = BuildVariant {
        ..Default::default()
    };
    let run_var = r"${expansion}";
    let evg_config_utils = EvgConfigUtilsImpl::new();

    let lookup = evg_config_utils.translate_run_var(run_var, &build_variant);

    assert_eq!(lookup, None);
}

#[test]
fn test_default_should_be_returned_if_expansion_and_default_but_not_in_bv() {
    let build_variant = BuildVariant {
        ..Default::default()
    };
    let run_var = r"${expansion|default}";
    let evg_config_utils = EvgConfigUtilsImpl::new();

    let lookup = evg_config_utils.translate_run_var(run_var, &build_variant);

    assert_eq!(lookup, Some("default".to_string()));
}

#[test]
fn test_bv_value_should_be_returned_if_expansion_and_in_bv() {
    let build_variant = BuildVariant {
        expansions: Some(expansions(&[("expansion", "build variant value"),])),
        ..Default::default()
    };
    let run_var = r"${expansion|default}";
    let evg_config_utils = EvgConfigUtilsImpl::new();

    let lookup = evg_config_utils.translate_run_var(run_var, &build_variant);

    assert_eq!(lookup, Some("build variant value".to_string()));
}

// lookup_build_variant_expansion tests
#[test]
fn test_lookup_in_a_build_variant_with_no_expansions_should_return_none() {
    let build_variant = BuildVariant {
        ..Default::default()
    };
    let evg_config_utils = EvgConfigUtilsImpl::new();

    let lookup =
        evg_config_utils.lookup_build_variant_expansion("my expansion", &build_variant);

    assert!(lookup.is_none());
}

#[test]
fn test_lookup_in_a_build_variant_with_missing_expansion_should_return_none() {
    let build_variant = BuildVariant {
        expansions: Some(expansions(&[("expansion", "build variant value"),])),
        ..Default::default()
    };
    let evg_config_utils = EvgConfigUtilsImpl::new();

    let lookup =
        evg_config_utils.lookup_build_variant_expansion("my expansion", &build_variant);

    assert!(lookup.is_none());
}

#[test]
fn test_lookup_in_a_build_variant_with_expected_expansion_should_return_value() {
    let build_variant = BuildVariant {
        expansions: Some(expansions(&[("expansion", "build variant value"),
            ("my expansion", "expansion value"),])),
        ..Default::default()
    };
    let evg_config_utils = EvgConfigUtilsImpl::new();

    let lookup =
        evg_config_utils.lookup_build_variant_expansion("my expansion", &build_variant);

    assert_eq!(lookup, Some("expansion value".to_string()));
}

// lookup_and_split_by_whitespace_build_variant_expansion tests
#[test]
fn test_lookup_and_split_by_whitespace_in_a_build_variant_with_no_expansions_should_return_none(
) {
    let build_variant = BuildVariant {
        ..Default::default()
    };
    let evg_config_utils = EvgConfigUtilsImpl::new();

    let lookup = evg_config_utils
        .lookup_and_split_by_whitespace_build_variant_expansion("my expansion", &build_variant);

    assert!(lookup.is_empty());
}

#[test]
fn test_lookup_and_split_by_whitespace_in_a_build_variant_with_missing_expansion_should_return_none(
) {
    let build_variant = BuildVariant {
        expansions: Some(expansions(&[("expansion", "build variant value"),])),
        ..Default::default()
    };
    let evg_config_utils = EvgConfigUtilsImpl::new();

    let lookup = evg_config_utils
        .lookup_and_split_by_whitespace_build_variant_expansion("my expansion", &build_variant);

    assert!(lookup.is_empty());
}

#[test]
fn test_lookup_and_split_by_whitespace_in_a_build_variant_with_expected_expansion_should_return_value(
) {
    let build_variant = BuildVariant {
        expansions: Some(expansions(&[("expansion", "build variant value"),
            ("my expansion", "expansion value"),])),
        ..Default::default()
    };
    let evg_config_utils = EvgConfigUtilsImpl::new();

    let lookup = evg_config_utils
        .lookup_and_split_by_whitespace_build_variant_expansion("my expansion", &build_variant);

    assert_eq!(lookup, vec!["expansion".to_string(), "value".to_string()]);
}

// lookup_* tests.
#[test]
fn test_lookup_required_should_return_error_if_no_var() {
    let task_def = EvgTask {
        ..Default::default()
    };
    let evg_config_utils = EvgConfigUtilsImpl::new();

    let result = evg_config_utils.lookup_required_param_str(&task_def, "my var");
    assert_eq!(result.is_err(), true);

    let result = evg_config_utils.lookup_required_param_bool(&task_def, "my var");
    assert_eq!(result.is_err(), true);

    let result = evg_config_utils.lookup_required_param_u64(&task_def, "my var");
    assert_eq!(result.is_err(), true);
}

#[test]
fn test_lookup_required_should_return_value_if_it_exists() {
    let task_def = EvgTask {
        commands: Some(vec![
            fn_call("hello world"),
            fn_call_with_params(
                "generate resmoke tasks",
                vars(vec![("var_str", text_param("value1")),
                    ("var_u64", text_param("12345")),
                    ("var_bool", text_param("true")),]),
            ),
            fn_call("run tests"),
        ]),
        ..Default::default()
    };
    let evg_config_utils = EvgConfigUtilsImpl::new();

    let result = evg_config_utils.lookup_required_param_str(&task_def, "var_str");
    assert_eq!(result.unwrap(), "value1".to_string());

    let result = evg_config_utils.lookup_required_param_bool(&task_def, "var_bool");
    assert_eq!(result.unwrap(), true);

    let result = evg_config_utils.lookup_required_param_u64(&task_def, "var_u64");
    assert_eq!(result.unwrap(), 12345);
}

#[test]
fn test_lookup_default_should_return_default_if_no_var() {
    let task_def = EvgTask {
        ..Default::default()
    };
    let evg_config_utils = EvgConfigUtilsImpl::new();

    let result = evg_config_utils.lookup_default_param_bool(&task_def, "my var", false);
    assert_eq!(result.unwrap(), false);

    let result =
        evg_config_utils.lookup_default_param_str(&task_def, "my var", "default value");
    assert_eq!(result, "default value");
}

#[test]
fn test_lookup_optional_should_return_none_if_no_var() {
    let task_def = EvgTask {
        ..Default::default()
    };
    let evg_config_utils = EvgConfigUtilsImpl::new();

    let result = evg_config_utils.lookup_optional_param_u64(&task_def, "my var");
    assert_eq!(result.unwrap(), None);
}

#[test]
fn test_lookup_optional_should_return_value_if_it_exists() {
    let task_def = EvgTask {
        commands: Some(vec![
            fn_call("hello world"),
            fn_call_with_params(
                "generate resmoke tasks",
                vars(vec![("var_str", text_param("value1")),
                    ("var_u64", text_param("12345")),
                    ("var_bool", text_param("true")),]),
            ),
            fn_call("run tests"),
        ]),
        ..Default::default()
    };
    let evg_config_utils = EvgConfigUtilsImpl::new();

    let result = evg_config_utils.lookup_optional_param_u64(&task_def, "var_u64");
    assert_eq!(result.unwrap(), Some(12345));
}

// tests for is_enterprise_build_variant.
#[test]
fn test_build_variant_with_enterprise_module_should_return_true() {
    let build_variant = BuildVariant {
        ..Default::default()
    };
    let evg_config_utils = EvgConfigUtilsImpl::new();

    assert!(evg_config_utils.is_enterprise_build_variant(&build_variant));
}

fn check_build_variant_with_out_enterprise_module(_modules: Option<Vec<String>>) {
    let build_variant = BuildVariant {
        expansions: Some(expansions(&[(
            "enterprise_test_flag",
            "--enableEnterpriseTests=off",
        )])),
        ..Default::default()
    };
    let evg_config_utils = EvgConfigUtilsImpl::new();

    assert!(!evg_config_utils.is_enterprise_build_variant(&build_variant));
}

#[test]
fn test_build_variant_with_out_enterprise_module_should_return_false() {
    check_build_variant_with_out_enterprise_module(Some(vec![]));
    check_build_variant_with_out_enterprise_module(Some(vec![
        "Another Module".to_string(),
        "Not Enterprise".to_string(),
    ]));
    check_build_variant_with_out_enterprise_module(None);
}

// tests for infer_build_variant_platform
fn check_infer_build_variant_platform(distros: Option<Vec<String>>, platform: String) {
    let build_variant = BuildVariant {
        run_on: distros,
        ..Default::default()
    };
    let evg_config_utils = EvgConfigUtilsImpl::new();

    assert_eq!(
        evg_config_utils.infer_build_variant_platform(&build_variant),
        platform
    );
}

#[test]
fn test_infer_build_variant_platform() {
    check_infer_build_variant_platform(Some(vec!["rhel80-small".to_string()]), "linux".to_string());
    check_infer_build_variant_platform(
        Some(vec!["windows-vsCurrent-small".to_string()]),
        "windows".to_string(),
    );
    check_infer_build_variant_platform(Some(vec!["macos-1100".to_string()]), "macos".to_string());
    check_infer_build_variant_platform(
        Some(vec!["rhel80-small".to_string(), "macos-1100".to_string()]),
        "linux".to_string(),
    );
    check_infer_build_variant_platform(Some(vec![]), "linux".to_string());
}

#[test]
fn the_platform_is_told_without_regard_to_case() {
    check_infer_build_variant_platform(Some(vec!["MacOS-1100".to_string()]), "macos".to_string());
    check_infer_build_variant_platform(Some(vec!["WINDOWS-64".to_string()]), "windows".to_string());
    check_infer_build_variant_platform(None, "linux".to_string());
}

fn task_with_vars(entries: Vec<(&str, ParamValue)>) -> EvgTask {
    EvgTask {
        name: "my_task_gen".to_string(),
        commands: Some(vec![fn_call_with_params(GENERATE_RESMOKE_TASKS, vars(entries))]),
        ..Default::default()
    }
}

#[test]
fn bazel_targets_are_named_without_their_package() {
    assert!(is_bazel_suite("//buildscripts/resmokeconfig:core"));
    assert!(!is_bazel_suite("core"));
    assert_eq!(get_bazel_suite_name("//buildscripts/resmokeconfig:core"), "core");

    let utils = EvgConfigUtilsImpl::new();
    let task = task_with_vars(vec![("suite", text_param("//buildscripts/resmokeconfig:core"))]);
    assert_eq!(utils.find_suite_name(&task), "core");
}

#[test]
fn multiversion_tasks_know_their_bazel_target() {
    let utils = EvgConfigUtilsImpl::new();
    let task = EvgTask {
        commands: Some(vec![fn_call_with_params(
            INITIALIZE_MULTIVERSION_TASKS,
            vars(vec![
                ("//suites:core_last_lts", text_param("last_lts")),
                ("ignored", ParamValue::Bool(true)),
                ("plain", text_param("last_continuous")),
            ]),
        )]),
        ..Default::default()
    };
    assert_eq!(
        utils.get_multiversion_generate_tasks(&task),
        Some(vec![
            MultiversionGenerateTaskConfig {
                suite_name: "core_last_lts".to_string(),
                old_version: "last_lts".to_string(),
                bazel_target: Some("//suites:core_last_lts".to_string()),
            },
            MultiversionGenerateTaskConfig {
                suite_name: "plain".to_string(),
                old_version: "last_continuous".to_string(),
                bazel_target: None,
            },
        ])
    );
}

#[test]
fn variables_that_are_no_numbers_or_truth_values_are_errors() {
    let utils = EvgConfigUtilsImpl::new();
    let task = task_with_vars(vec![
        ("number", text_param("12x")),
        ("plus", text_param("+12")),
        ("large", text_param("18446744073709551616")),
        ("flag", text_param("True")),
        ("no_text", ParamValue::Number(5)),
    ]);
    assert_eq!(
        utils.lookup_required_param_u64(&task, "number"),
        Err(ConfigError::NotANumber { value: "12x".to_string() })
    );
    assert_eq!(utils.lookup_required_param_u64(&task, "plus"), Ok(12));
    assert!(utils.lookup_optional_param_u64(&task, "large").is_err());
    assert_eq!(
        utils.lookup_default_param_bool(&task, "flag", true),
        Err(ConfigError::NotABool { value: "True".to_string() })
    );
    let missing = utils.lookup_required_param_str(&task, "no_text").unwrap_err();
    assert_eq!(
        missing,
        ConfigError::MissingVar {
            var: "no_text".to_string(),
            task: "my_task_gen".to_string(),
        }
    );
    assert!(missing.message().contains("no_text"));
}

#[test]
fn errors_say_what_is_wrong_with_a_value() {
    for value in ["", "+", "-", "-1", "12x", "18446744073709551616", "99999999999999999999x"] {
        let expected = value.parse::<u64>().unwrap_err().to_string();
        let error = ConfigError::NotANumber { value: value.to_string() };
        assert_eq!(error.message(), expected);
    }
    let error = ConfigError::NotABool { value: "True".to_string() };
    assert_eq!(error.message(), "True".parse::<bool>().unwrap_err().to_string());
}

#[test]
fn the_first_reference_to_a_task_gives_its_dependencies() {
    let utils = EvgConfigUtilsImpl::new();
    let depends_on = vec![TaskDependency {
        name: "dep".to_string(),
        variant: Some("variant".to_string()),
    }];
    let build_variant = BuildVariant {
        tasks: vec![
            TaskRef {
                name: "other".to_string(),
                depends_on: None,
                distros: None,
                activate: None,
            },
            TaskRef {
                name: "task".to_string(),
                depends_on: Some(depends_on.clone()),
                distros: None,
                activate: None,
            },
        ],
        ..Default::default()
    };
    assert_eq!(utils.get_task_ref_dependencies("task", &build_variant), Some(depends_on));
    assert_eq!(utils.get_task_ref_dependencies("other", &build_variant), None);
    assert_eq!(utils.get_task_ref_dependencies("missing", &build_variant), None);
}

#[test]
fn burn_in_tags_that_cannot_be_resolved_are_told() {
    let utils = EvgConfigUtilsImpl::new();
    let config = EvgProjectConfig::new(get_evg_project());
    let map = config.get_build_variant_map();
    let mut build_variant = BuildVariant {
        expansions: Some(expansions(&[(
            BURN_IN_TAG_INCLUDE_ALL_REQUIRED_AND_SUGGESTED,
            "maybe",
        )])),
        ..Default::default()
    };
    assert!(!utils.can_resolve_burn_in_tags(&build_variant, &map));
    build_variant.expansions = Some(expansions(&[(
        BURN_IN_TAG_INCLUDE_ALL_REQUIRED_AND_SUGGESTED,
        "true",
    )]));
    assert!(utils.can_resolve_burn_in_tags(&build_variant, &map));
}
