use mongo_task_generator::resmoke::resmoke_suite::{
    ResmokeExecutor, ResmokeSelector, ResmokeSuiteConfig, TestRoot,
};
use mongo_task_generator::task_types::resmoke_config_writer::{
    ResmokeConfigCache, RoundRobbin, SuiteFileWriter, WriterAction,
};
use mongo_task_generator::task_types::resmoke_tasks::{ResmokeSuiteGenerationInfo, SubSuite};

fn suite_config() -> ResmokeSuiteConfig {
    ResmokeSuiteConfig {
        test_kind: "js_test".to_string(),
        selector: ResmokeSelector {
            exclude_tags: None,
            exclude_files: Some(vec!["excluded.js".to_string()]),
            exclude_with_any_tags: None,
            group_size: None,
            group_count_multiplier: None,
            include_with_any_tags: None,
            include_files: None,
            include_tags: None,
            test_root: Some(TestRoot::Root { root: "jstests/**/*.js".to_string() }),
            tag_file: None,
            test: None,
        },
        executor: ResmokeExecutor {
            archive: None,
            hooks: None,
            config: None,
            fixture: None,
        },
    }
}

fn texts(items: &[&str]) -> Vec<String> {
    items.iter().map(|t| t.to_string()).collect()
}

fn sub_suite(index: Option<usize>, name: &str, tests: &[&str]) -> SubSuite {
    SubSuite {
        index,
        name: name.to_string(),
        origin_suite: "suite".to_string(),
        test_list: texts(tests),
        ..Default::default()
    }
}

// The files written, and the number of configurations that were queried.
fn write_all(writer: &mut SuiteFileWriter) -> (Vec<(String, ResmokeSuiteConfig)>, usize) {
    let mut files = vec![];
    let mut queries = 0;
    loop {
        match writer.next_action() {
            WriterAction::QueryConfig { suite } => {
                queries += 1;
                writer.record_config(&suite, suite_config());
            }
            WriterAction::WriteFile { file_name, config } => {
                files.push((file_name, config));
                writer.file_written();
            }
            WriterAction::Done => return (files, queries),
        }
    }
}

#[test]
fn test_write_suite_files() {
    let suite_info = ResmokeSuiteGenerationInfo {
        task_name: "my_task".to_string(),
        origin_suite: "original_suite".to_string(),
        require_multiversion_generate_tasks: false,
        sub_suites: vec![
            SubSuite {
                index: Some(0),
                name: "suite_name".to_string(),
                origin_suite: "suite".to_string(),
                test_list: vec!["test_0.js".to_string(), "test_1.js".to_string()],
                ..Default::default()
            },
            SubSuite {
                index: Some(1),
                name: "suite_name".to_string(),
                origin_suite: "suite".to_string(),
                test_list: vec!["test_2.js".to_string(), "test_3.js".to_string()],
                ..Default::default()
            },
            SubSuite {
                index: None,
                name: "suite_name".to_string(),
                origin_suite: "suite".to_string(),
                test_list: vec![],
                exclude_test_list: Some((0..4).map(|i| format!("test_{}.js", i)).collect()),
                ..Default::default()
            },
        ],
    };

    let mut writer = SuiteFileWriter::new(suite_info);
    let (files, queries) = write_all(&mut writer);

    let calls = |name: &str| files.iter().filter(|(file, _)| file == name).count();
    assert_eq!(calls("suite_name_0.yml"), 1);
    assert_eq!(calls("suite_name_1.yml"), 1);
    assert_eq!(calls("suite_name_misc.yml"), 1);
    assert_eq!(queries, 1);
}

#[test]
fn test_errors_encountered_during_execution() {
    let n_operations = 8;
    let mut turns = RoundRobbin::new(3);
    let mut errors: Vec<Vec<String>> = vec![vec![], vec![], vec![]];

    for _ in 0..n_operations {
        let suite_info = ResmokeSuiteGenerationInfo {
            task_name: "my_task".to_string(),
            origin_suite: "original_suite".to_string(),
            require_multiversion_generate_tasks: false,
            sub_suites: vec![
                sub_suite(Some(0), "suite", &["test_0.js", "test_1.js"]),
                sub_suite(Some(1), "suite", &["test_2.js", "test_3.js"]),
            ],
        };
        let mut writer = SuiteFileWriter::new(suite_info);
        writer.record_config("suite", suite_config());
        if let WriterAction::WriteFile { file_name, .. } = writer.next_action() {
            let text = writer.error_text(&format!("Error injected for {}", file_name));
            errors[turns.next()].push(text);
        }
    }

    assert_eq!(errors.concat().len(), n_operations);
    let counts: Vec<usize> = errors.iter().map(|e| e.len()).collect();
    assert_eq!(counts, vec![3, 3, 2]);
    assert_eq!(errors[0][0], "ERROR: my_task: Error injected for suite_0.yml");
}

#[test]
fn the_file_of_a_sub_suite_selects_its_tests() {
    let mut misc = sub_suite(None, "suite_name", &[]);
    misc.exclude_test_list = Some(texts(&["test_0.js"]));
    let suite_info = ResmokeSuiteGenerationInfo {
        task_name: "my_task".to_string(),
        origin_suite: "original_suite".to_string(),
        require_multiversion_generate_tasks: false,
        sub_suites: vec![misc, sub_suite(Some(0), "suite_name", &["test_0.js"])],
    };
    let (files, _) = write_all(&mut SuiteFileWriter::new(suite_info));
    assert_eq!(files[0].0, "suite_name_0.yml");
    assert_eq!(
        files[0].1.selector.test_root,
        Some(TestRoot::Roots { roots: texts(&["test_0.js"]) })
    );
    assert_eq!(files[0].1.executor, suite_config().executor);
    assert_eq!(files[1].0, "suite_name_misc.yml");
    assert_eq!(
        files[1].1.selector.exclude_files,
        Some(texts(&["excluded.js", "test_0.js"]))
    );
}

#[test]
fn each_origin_is_queried_once() {
    let mut other = sub_suite(Some(1), "suite_name", &["b.js"]);
    other.origin_suite = "other".to_string();
    let suite_info = ResmokeSuiteGenerationInfo {
        task_name: "my_task".to_string(),
        origin_suite: "original_suite".to_string(),
        require_multiversion_generate_tasks: true,
        sub_suites: vec![
            sub_suite(Some(0), "suite_name", &["a.js"]),
            other,
            sub_suite(Some(2), "suite_name", &["c.js"]),
        ],
    };
    let (files, queries) = write_all(&mut SuiteFileWriter::new(suite_info));
    assert_eq!(files.len(), 3);
    assert_eq!(queries, 2);
}

#[test]
fn a_cache_keeps_what_it_was_given() {
    let mut cache = ResmokeConfigCache::new();
    assert!(cache.get_config("suite").is_none());
    cache.record_config("suite", suite_config());
    assert_eq!(cache.get_config("suite"), Some(&suite_config()));
    assert!(cache.get_config("other").is_none());
}

#[test]
fn workers_take_turns() {
    let mut turns = RoundRobbin::new(3);
    let order: Vec<usize> = (0..7).map(|_| turns.next()).collect();
    assert_eq!(order, vec![0, 1, 2, 0, 1, 2, 0]);
}
