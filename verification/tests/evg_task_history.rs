use mongo_task_generator::evergreen::evg_task_history::{
    can_total_durations, gather_hook_stats, gather_test_stats, get_test_name, hook_hook_name,
    hook_test_name, is_hook, normalize_test_file, stats_key, task_history_from_stats,
    HookRuntimeHistory, S3TestStats,
};

#[test]
fn test_is_hook() {
    assert_eq!(is_hook("some/random/test"), false);
    assert_eq!(is_hook("some/random/test:hook1"), true);
}

#[test]
fn test_hook_test_name() {
    assert_eq!(hook_test_name("my_test:my_hook"), "my_test");
}

#[test]
fn test_hook_hook_name() {
    assert_eq!(hook_hook_name("my_test:my_hook"), "my_hook");
}

// normalize test name tests.
#[test]
fn test_normalize_tests() {
    let cases = [
        ("jstests\\core\\add1.js", "jstests/core/add1.js"),
        ("jstests\\core\\add1", "jstests/core/add1"),
        ("jstests/core/add1.js", "jstests/core/add1.js"),
        ("jstests/core/add1", "jstests/core/add1"),
    ];
    for (test_file, expected_name) in cases {
        let normalized_name = normalize_test_file(test_file);

        assert_eq!(&normalized_name, expected_name);
    }
}

// get_test_name tests.
#[test]
fn test_get_test_name() {
    let cases = [
        ("jstests/core/add1.js", "add1"),
        ("jstests/core/add1", "add1"),
        ("add1.js", "add1"),
    ];
    for (test_file, expected_name) in cases {
        assert_eq!(get_test_name(test_file), expected_name.to_string());
    }
}

fn stats(test_name: &str, avg_duration_pass: i64) -> S3TestStats {
    S3TestStats {
        test_name: test_name.to_string(),
        avg_duration_pass,
    }
}

#[test]
fn the_stats_of_hooks_go_to_the_tests_they_ran_with() {
    let list = vec![
        stats("jstests\\core\\add1.js", 10),
        stats("add1:CheckReplDBHash", 3),
        stats("add1:CleanEveryN", 4),
        stats("jstests/core/add2.js", 20),
        stats("jstests/sharding/add2.js", 5),
    ];
    let hooks = gather_hook_stats(&list);
    assert_eq!(hooks.len(), 1);
    let tests = gather_test_stats(&list, &hooks);
    assert_eq!(tests.len(), 2);
    let first = tests.get("add1").unwrap();
    assert_eq!(first.test_name, "jstests/core/add1.js");
    assert_eq!(first.average_runtime, 10);
    assert_eq!(
        first.hooks,
        vec![
            HookRuntimeHistory {
                test_name: "add1".to_string(),
                hook_name: "CheckReplDBHash".to_string(),
                average_runtime: 3,
            },
            HookRuntimeHistory {
                test_name: "add1".to_string(),
                hook_name: "CleanEveryN".to_string(),
                average_runtime: 4,
            },
        ]
    );
    let second = tests.get("add2").unwrap();
    assert_eq!(second.test_name, "jstests/sharding/add2.js");
    assert_eq!(second.average_runtime, 25);
    assert!(second.hooks.is_empty());

    let history = task_history_from_stats("my_task", &list);
    assert_eq!(history.task_name, "my_task");
    assert_eq!(history.test_map.len(), 2);
}

#[test]
fn stats_are_stored_by_project_variant_and_task() {
    assert_eq!(stats_key("project", "variant", "task"), "project/variant/task");
}

#[test]
fn durations_are_summed_up_for_each_test() {
    let max = i64::MAX;
    assert!(can_total_durations(&vec![]));
    assert!(can_total_durations(&vec![stats("a.js", max), stats("b.js", max), stats("a:h", 1)]));
    assert!(!can_total_durations(&vec![stats("a.js", max), stats("dir/a.js", 1)]));
    assert!(can_total_durations(&vec![stats("a.js", max), stats("a.js", -1), stats("a.js", 1)]));
}
