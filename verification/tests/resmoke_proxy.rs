use mongo_task_generator::resmoke::burn_in_proxy::BurnInProxy;
use mongo_task_generator::resmoke::external_cmd::{
    command_output, CommandEnd, DEFAULT_TIMEOUT_SECS,
};
use mongo_task_generator::resmoke::resmoke_proxy::{
    discovery_batches, BatchOutcome, BatchProblem, BazelConfigs, DiscoveryStep, MultiversionConfig, ResmokeProxy,
    TestDiscoveryOutput,
};
use mongo_task_generator::resmoke::resmoke_suite::{
    ResmokeExecutor, ResmokeSelector, ResmokeSuiteConfig, TestRoot,
};
use mongo_task_generator::utils::string_map::StringMap;

fn new_proxy() -> ResmokeProxy {
    ResmokeProxy::new("python buildscripts/resmoke.py", false, false, BazelConfigs::default())
}

fn texts(items: &[&str]) -> Vec<String> {
    items.iter().map(|t| t.to_string()).collect()
}

fn doc(suite_name: &str, tests: &[&str]) -> TestDiscoveryOutput {
    TestDiscoveryOutput {
        suite_name: suite_name.to_string(),
        tests: texts(tests),
    }
}

fn bazel_configs() -> BazelConfigs {
    let mut configs = StringMap::new();
    configs.insert("//suites:core_config".to_string(), "bazel-out/core_config.yml".to_string());
    BazelConfigs { configs }
}

// tests for discover_tests caching.
#[test]
fn test_discover_tests_only_runs_discovery_once_per_suite() {
    let mut proxy = new_proxy();
    let mut calls = 0;
    let mut discover = |proxy: &mut ResmokeProxy, suite: &str| match proxy.cached_tests(suite) {
        Some(tests) => tests,
        None => {
            calls += 1;
            proxy.record_tests(suite, &vec![], &vec![])
        }
    };

    for _ in 0..3 {
        assert_eq!(discover(&mut proxy, "my_suite"), Vec::<String>::new());
    }
    discover(&mut proxy, "other_suite");

    assert_eq!(calls, 2);
}

#[test]
fn test_prewarm_seeds_cache_from_batched_discovery() {
    let mut proxy = new_proxy();
    let mut calls = 0;

    for batch in discovery_batches(&texts(&["suite_a", "suite_b"])) {
        calls += 1;
        let docs = vec![doc("suite_a", &[]), doc("suite_b", &[])];
        assert_eq!(proxy.record_batch(&batch, &docs, &vec![vec![], vec![]]), Ok(2));
    }
    assert_eq!(proxy.cached_tests("suite_a").unwrap(), Vec::<String>::new());
    assert_eq!(proxy.cached_tests("suite_b").unwrap(), Vec::<String>::new());

    assert_eq!(calls, 1);
}

fn empty_suite_config() -> ResmokeSuiteConfig {
    ResmokeSuiteConfig {
        test_kind: "js_test".to_string(),
        selector: ResmokeSelector {
            exclude_tags: None,
            exclude_files: None,
            exclude_with_any_tags: None,
            group_size: None,
            group_count_multiplier: None,
            include_with_any_tags: None,
            include_files: None,
            include_tags: None,
            test_root: Some(TestRoot::Roots { roots: vec![] }),
            tag_file: None,
            test: None,
        },
        executor: ResmokeExecutor {
            archive: None,
            hooks: None,
            config: None,
            fixture: None,
        },
    }
}

#[test]
fn test_get_suite_config_only_runs_suiteconfig_once_per_suite() {
    let mut proxy = new_proxy();
    let mut calls = 0;

    for _ in 0..3 {
        match proxy.cached_suite_config("my_suite") {
            Some(config) => assert_eq!(config, empty_suite_config()),
            None => {
                calls += 1;
                proxy.record_suite_config("my_suite", &empty_suite_config());
            }
        }
    }

    assert_eq!(calls, 1);
}

// tests for get_fcv_tags_for_lts.
#[test]
fn test_get_fcv_tags_for_lts_should_use_lts_if_provided() {
    let mv_config = MultiversionConfig {
        last_versions: vec![],
        requires_fcv_tag: "fcv_fallback".to_string(),
        requires_fcv_tag_lts: Some("fcv_lts_explicit".to_string()),
        requires_fcv_tag_continuous: None,
    };

    assert_eq!(&mv_config.get_fcv_tags_for_lts(), "fcv_lts_explicit")
}

#[test]
fn test_get_fcv_tags_for_lts_should_fallback_if_no_lts_provided() {
    let mv_config = MultiversionConfig {
        last_versions: vec![],
        requires_fcv_tag: "fcv_fallback".to_string(),
        requires_fcv_tag_lts: None,
        requires_fcv_tag_continuous: None,
    };

    assert_eq!(&mv_config.get_fcv_tags_for_lts(), "fcv_fallback")
}

// tests for get_fcv_tags_for_continuous.
#[test]
fn test_get_fcv_tags_for_continuous_should_use_continuous_if_provided() {
    let mv_config = MultiversionConfig {
        last_versions: vec![],
        requires_fcv_tag: "fcv_fallback".to_string(),
        requires_fcv_tag_lts: None,
        requires_fcv_tag_continuous: Some("fcv_continuous_explicit".to_string()),
    };

    assert_eq!(
        &mv_config.get_fcv_tags_for_continuous(),
        "fcv_continuous_explicit"
    )
}

#[test]
fn test_get_fcv_tags_for_continuous_should_fallback_if_no_continuous_provided() {
    let mv_config = MultiversionConfig {
        last_versions: vec![],
        requires_fcv_tag: "fcv_fallback".to_string(),
        requires_fcv_tag_lts: None,
        requires_fcv_tag_continuous: None,
    };

    assert_eq!(&mv_config.get_fcv_tags_for_continuous(), "fcv_fallback")
}

// Command lines.
#[test]
fn discovery_asks_for_every_suite_of_a_batch() {
    let proxy = ResmokeProxy::new("python buildscripts/resmoke.py", true, true, bazel_configs());
    assert_eq!(
        proxy.test_discovery_command(&texts(&["core", "//suites:core"])),
        texts(&[
            "python",
            "buildscripts/resmoke.py",
            "test-discovery",
            "--suite",
            "core",
            "--suite",
            "bazel-out/core_config.yml",
            "--skipTestsCoveredByMoreComplexSuites",
            "--includeFullyDisabledFeatureTests",
        ])
    );
    assert_eq!(
        new_proxy().test_discovery_command(&texts(&["core"])),
        texts(&["python", "buildscripts/resmoke.py", "test-discovery", "--suite", "core"])
    );
}

#[test]
fn the_other_commands_of_resmoke() {
    let proxy = ResmokeProxy::new("resmoke", true, true, bazel_configs());
    assert_eq!(
        proxy.suite_config_command("//suites:core"),
        texts(&["resmoke", "suiteconfig", "--suite", "bazel-out/core_config.yml"])
    );
    assert_eq!(
        proxy.multiversion_config_command(),
        texts(&[
            "resmoke",
            "multiversion-config",
            "--config-file-output=multiversion-config.yml",
        ])
    );
}

#[test]
fn bazel_targets_need_a_config() {
    let configs = bazel_configs();
    assert!(configs.covers("core"));
    assert!(configs.covers("//suites:core"));
    assert!(!configs.covers("//suites:other"));
    assert_eq!(configs.get("//suites:core"), "bazel-out/core_config.yml");
}

#[test]
fn burn_in_discovery_names_the_build_variant() {
    let proxy = BurnInProxy::new("python buildscripts/burn_in_tests.py run", "evergreen.yml");
    assert_eq!(
        proxy.discover_tasks_command("my_variant"),
        texts(&[
            "python",
            "buildscripts/burn_in_tests.py",
            "run",
            "--build-variant",
            "my_variant",
            "--yaml",
            "--evg-project-file",
            "evergreen.yml",
        ])
    );
}

// Batches.
#[test]
fn batches_hold_all_suites_in_order() {
    let suites: Vec<String> = (0..250).map(|i| format!("suite_{}", i)).collect();
    let batches = discovery_batches(&suites);
    let sizes: Vec<usize> = batches.iter().map(|b| b.len()).collect();
    assert_eq!(sizes, vec![100, 100, 50]);
    assert_eq!(batches.concat(), suites);
    assert!(discovery_batches(&vec![]).is_empty());
}

#[test]
fn an_answer_of_the_wrong_length_is_dropped() {
    let mut proxy = new_proxy();
    let batch = texts(&["suite_a", "suite_b"]);
    let docs = vec![doc("suite_a", &["a.js"])];
    let problem = BatchProblem::WrongCount { requested: 2, parsed: 1 };
    assert_eq!(proxy.record_batch(&batch, &docs, &vec![vec![true]]), Err(problem));
    assert_eq!(proxy.cached_tests("suite_a"), None);
}

#[test]
fn an_answer_out_of_order_is_dropped() {
    let mut proxy = new_proxy();
    let batch = texts(&["suite_a", "suite_b", "suite_c"]);
    let docs = vec![
        doc("suite_a", &["a.js"]),
        doc("suite_c", &["c.js"]),
        doc("suite_b", &["b.js"]),
    ];
    let existing = vec![vec![true], vec![true], vec![true]];
    assert_eq!(
        proxy.record_batch(&batch, &docs, &existing),
        Err(BatchProblem::OutOfOrder {
            expected: "suite_b".to_string(),
            actual: "suite_c".to_string(),
        })
    );
    for suite in ["suite_a", "suite_b", "suite_c"] {
        assert_eq!(proxy.cached_tests(suite), None);
    }
}

#[test]
fn seeding_keeps_existing_tests_and_other_suites() {
    let mut proxy = ResmokeProxy::new("resmoke", false, false, bazel_configs());
    proxy.record_tests("other", &texts(&["o.js"]), &vec![true]);
    let batch = texts(&["//suites:core", "suite_b"]);
    let docs = vec![
        doc("bazel-out/core_config.yml", &["a.js", "gone.js", "b.js"]),
        doc("suite_b", &["c.js"]),
    ];
    assert_eq!(proxy.check_batch(&batch, &docs), Ok(()));
    let existing = vec![vec![true, false, true], vec![false]];
    assert_eq!(proxy.record_batch(&batch, &docs, &existing), Ok(2));
    assert_eq!(proxy.cached_tests("//suites:core"), Some(texts(&["a.js", "b.js"])));
    assert_eq!(proxy.cached_tests("suite_b"), Some(vec![]));
    assert_eq!(proxy.cached_tests("other"), Some(texts(&["o.js"])));
    assert_eq!(proxy.cached_tests("unknown"), None);
}

#[test]
fn nothing_of_a_useless_answer_is_used() {
    let batch = texts(&["suite_a", "suite_b"]);
    let outcomes = vec![
        (BatchOutcome::Failed, BatchProblem::Failed),
        (BatchOutcome::Unparsable, BatchProblem::Unparsable),
        (
            BatchOutcome::Parsed {
                docs: vec![doc("suite_a", &["a.js"])],
                existing: vec![vec![true]],
            },
            BatchProblem::WrongCount { requested: 2, parsed: 1 },
        ),
    ];
    for (outcome, problem) in outcomes {
        let mut proxy = new_proxy();
        let before = proxy.next_discovery("suite_a");
        assert_eq!(
            before,
            DiscoveryStep::Ask { command: proxy.test_discovery_command(&texts(&["suite_a"])) }
        );
        assert_eq!(proxy.record_outcome(&batch, &outcome), Err(problem));
        assert_eq!(proxy.next_discovery("suite_a"), before);
        assert_eq!(proxy.cached_tests("suite_a"), None);
    }
    let mut proxy = new_proxy();
    let outcome = BatchOutcome::Parsed {
        docs: vec![doc("suite_a", &["a.js"]), doc("suite_b", &["b.js"])],
        existing: vec![vec![true], vec![false]],
    };
    assert_eq!(proxy.record_outcome(&batch, &outcome), Ok(2));
    assert_eq!(
        proxy.next_discovery("suite_a"),
        DiscoveryStep::Known { tests: texts(&["a.js"]) }
    );
    assert_eq!(proxy.next_discovery("suite_b"), DiscoveryStep::Known { tests: vec![] });
}

// The end of a command.
fn end(timed_out: bool, success: bool) -> CommandEnd {
    CommandEnd {
        timed_out,
        success,
        stdout: "out".to_string(),
        stderr: "err".to_string(),
    }
}

#[test]
fn a_command_gives_its_output() {
    assert_eq!(command_output(end(false, true), DEFAULT_TIMEOUT_SECS), Ok("out".to_string()));
}

#[test]
fn a_command_that_times_out_is_an_error() {
    assert_eq!(
        command_output(end(true, true), 0),
        Err("Command timed out after 0 seconds.".to_string())
    );
    assert_eq!(
        command_output(end(true, false), 120),
        Err("Command timed out after 120 seconds.".to_string())
    );
}

#[test]
fn a_command_that_fails_is_an_error() {
    assert_eq!(command_output(end(false, false), 120), Err("err".to_string()));
}
