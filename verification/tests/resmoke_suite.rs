use mongo_task_generator::resmoke::resmoke_suite::{
    fixture_type, ResmokeExecutor, ResmokeFixture, ResmokeSelector, ResmokeSuiteConfig,
    SuiteFixtureType, TestRoot,
};
use mongo_task_generator::utils::string_set::StringSet;
use serde_yaml::Value;

fn text(node: &Value, key: &str) -> Option<String> {
    node.get(key).and_then(|v| v.as_str()).map(|t| t.to_string())
}

fn texts(node: &Value, key: &str) -> Option<Vec<String>> {
    node.get(key).and_then(|v| v.as_sequence()).map(|items| {
        items.iter().map(|i| i.as_str().unwrap().to_string()).collect()
    })
}

fn number(node: &Value, key: &str) -> Option<usize> {
    node.get(key).and_then(|v| v.as_u64()).map(|n| n as usize)
}

fn parse_suite(yaml: &str) -> ResmokeSuiteConfig {
    let suite: Value = serde_yaml::from_str(yaml).unwrap();
    let selector = suite.get("selector").unwrap();
    let executor = suite.get("executor").unwrap();
    ResmokeSuiteConfig {
        test_kind: text(&suite, "test_kind").unwrap(),
        selector: ResmokeSelector {
            exclude_tags: text(selector, "exclude_tags"),
            exclude_files: texts(selector, "exclude_files"),
            exclude_with_any_tags: texts(selector, "exclude_with_any_tags").map(|tags| {
                let mut set = StringSet::new();
                for tag in tags {
                    set.insert(tag);
                }
                set
            }),
            group_size: number(selector, "group_size"),
            group_count_multiplier: None,
            include_with_any_tags: texts(selector, "include_with_any_tags"),
            include_files: texts(selector, "include_files"),
            include_tags: text(selector, "include_tags"),
            test_root: match texts(selector, "roots") {
                Some(roots) => Some(TestRoot::Roots { roots }),
                None => text(selector, "root").map(|root| TestRoot::Root { root }),
            },
            tag_file: text(selector, "tag_file"),
            test: text(selector, "test"),
        },
        executor: ResmokeExecutor {
            archive: executor.get("archive").cloned(),
            hooks: executor.get("hooks").and_then(|h| h.as_sequence()).cloned(),
            config: executor.get("config").cloned(),
            fixture: executor.get("fixture").map(|fixture| ResmokeFixture {
                class: text(fixture, "class").unwrap(),
                mongod_options: fixture.get("mongod_options").cloned(),
                mongos_options: fixture.get("mongos_options").cloned(),
                num_nodes: number(fixture, "num_nodes"),
                use_replica_set_connection_string: None,
                mixed_bin_versions: text(fixture, "mixed_bin_versions"),
                old_bin_version: text(fixture, "old_bin_version"),
                num_rs_nodes_per_shard: number(fixture, "num_rs_nodes_per_shard"),
                num_shards: number(fixture, "num_shards"),
                shard_options: fixture.get("shard_options").cloned(),
                configsvr_options: fixture.get("configsvr_options").cloned(),
            }),
        },
    }
}

// get_fixture_type tests.
#[test]
fn resmoke_suite_test_no_fixture_defined_should_return_shell() {
    let config_yaml = "
        test_kind: js_test

        selector:
          roots:
            - jstests/auth/*.js
          exclude_files:
            - jstests/auth/repl.js
    
        executor:
          config:
            shell_options:
              global_vars:
                TestData:
                  roleGraphInvalidationIsFatal: true
              nodb: '' 
    ";

    let config = parse_suite(config_yaml);

    assert_eq!(config.get_fixture_type(), SuiteFixtureType::Shell);
}

#[test]
fn resmoke_suite_test_shared_cluster_fixture_should_return_sharded() {
    let config_yaml = "
        test_kind: js_test

        selector:
          roots:
            - jstests/auth/*.js
          exclude_files:
            - jstests/auth/repl.js
    
        executor:
          config:
            shell_options:
              global_vars:
                TestData:
                  roleGraphInvalidationIsFatal: true
              nodb: '' 
          fixture:
            class: ShardedClusterFixture
            num_shards: 2
    ";

    let config = parse_suite(config_yaml);

    assert_eq!(config.get_fixture_type(), SuiteFixtureType::Shard);
}

#[test]
fn resmoke_suite_test_replica_set_fixture_should_return_repl() {
    let config_yaml = "
        test_kind: js_test

        selector:
          roots:
            - jstests/auth/*.js
          exclude_files:
            - jstests/auth/repl.js
    
        executor:
          config:
            shell_options:
              global_vars:
                TestData:
                  roleGraphInvalidationIsFatal: true
              nodb: '' 
          fixture:
            class: ReplicaSetFixture
            num_nodes: 3
    ";

    let config = parse_suite(config_yaml);

    assert_eq!(config.get_fixture_type(), SuiteFixtureType::Repl);
}

#[test]
fn resmoke_suite_test_other_fixture_should_return_other() {
    let config_yaml = "
        test_kind: js_test

        selector:
          roots:
            - jstests/auth/*.js
          exclude_files:
            - jstests/auth/repl.js
    
        executor:
          config:
            shell_options:
              global_vars:
                TestData:
                  roleGraphInvalidationIsFatal: true
              nodb: '' 
          fixture:
            class: SomeOtherFixture
            num_nodes: 3
    ";

    let config = parse_suite(config_yaml);

    assert_eq!(config.get_fixture_type(), SuiteFixtureType::Other);
}

// with_new_tests tests
#[test]
fn test_with_new_tests_can_add_tests_to_exclude_list() {
    let config_yaml = "
        test_kind: js_test

        selector:
          roots:
            - jstests/auth/*.js
          exclude_files:
            - jstests/auth/repl.js
            - jstests/core/add1.js
    
        executor:
          config:
            value
          fixture:
            class: MyFixture
            num_nodes: 3
    ";

    let exclude_test_list = vec!["test0.js".to_string(), "test1.js".to_string()];

    let resmoke_suite = parse_suite(config_yaml);
    let new_config = resmoke_suite.with_new_tests(None, Some(&exclude_test_list));

    assert!(new_config.selector.exclude_files.is_some());
    if let Some(excluded_files) = new_config.selector.exclude_files {
        for test in exclude_test_list {
            assert!(excluded_files.contains(&test));
        }
    }
}

#[test]
fn test_with_new_tests_can_add_tests_to_test_root() {
    let config_yaml = "
        test_kind: js_test

        selector:
          roots:
            - jstests/auth/*.js
          exclude_files:
            - jstests/auth/repl.js
            - jstests/core/add1.js
    
        executor:
          config:
            value
          fixture:
            class: MyFixture
            num_nodes: 3
    ";

    let new_test_list = vec!["test0.js".to_string(), "test1.js".to_string()];

    let resmoke_suite = parse_suite(config_yaml);
    let new_config = resmoke_suite.with_new_tests(Some(&new_test_list), None);

    if let Some(TestRoot::Roots { roots: test_roots }) = new_config.selector.test_root {
        for test in new_test_list {
            assert!(test_roots.contains(&test));
        }
    } else {
        panic!(
            "New test root is not expected: {:?}",
            new_config.selector.test_root
        );
    }
}

const FULL_SUITE: &str = "
test_kind: js_test
selector:
  roots:
    - jstests/auth/*.js
  exclude_files:
    - jstests/auth/repl.js
  exclude_with_any_tags:
    - slow
  include_files:
    - jstests/auth/a.js
  group_size: 3
executor:
  archive:
    hooks: [a, b]
  hooks:
    - class: MyHook
      number: 1
    - other
  config:
    shell_options: {nodb: ''}
  fixture:
    class: ReplicaSetFixture
    num_nodes: 3
    mongod_options:
      set_parameters: {enableTestCommands: 1}
";

#[test]
fn a_suite_keeps_everything_but_its_tests() {
    let suite = parse_suite(FULL_SUITE);
    let run_tests = vec!["test0.js".to_string()];
    let new_config = suite.with_new_tests(Some(&run_tests), None);
    assert_eq!(new_config.test_kind, suite.test_kind);
    assert_eq!(new_config.executor, suite.executor);
    assert_eq!(new_config.executor.hooks.as_ref().unwrap().len(), 2);
    assert_eq!(
        new_config.executor.archive,
        Some(serde_yaml::from_str("hooks: [a, b]").unwrap())
    );
    assert_eq!(
        new_config.selector.test_root,
        Some(TestRoot::Roots { roots: run_tests })
    );
    assert_eq!(new_config.selector.group_size, Some(3));
}

#[test]
fn excluded_tests_come_behind_those_already_excluded() {
    let suite = parse_suite(FULL_SUITE);
    let new_config = suite.with_new_tests(None, Some(&vec!["test0.js".to_string()]));
    assert_eq!(
        new_config.selector.exclude_files,
        Some(vec!["jstests/auth/repl.js".to_string(), "test0.js".to_string()])
    );
    assert_eq!(
        new_config.selector.test_root,
        Some(TestRoot::Roots { roots: vec!["jstests/auth/*.js".to_string()] })
    );
    let unchanged = suite.with_new_tests(None, None);
    assert_eq!(unchanged, suite);
}

#[test]
fn tests_to_run_and_tests_to_exclude_can_be_given_together() {
    let suite = parse_suite(FULL_SUITE);
    let run_tests = vec!["test0.js".to_string(), "test1.js".to_string()];
    let exclude_tests = vec!["test1.js".to_string()];
    let new_config = suite.with_new_tests(Some(&run_tests), Some(&exclude_tests));
    assert_eq!(
        new_config.selector.test_root,
        Some(TestRoot::Roots { roots: run_tests })
    );
    assert_eq!(new_config.selector.exclude_files, Some(exclude_tests));
}

#[test]
fn fixtures_are_told_by_their_class() {
    assert_eq!(fixture_type("ShardedClusterFixture"), SuiteFixtureType::Shard);
    assert_eq!(fixture_type("ReplicaSetFixture"), SuiteFixtureType::Repl);
    assert_eq!(fixture_type(""), SuiteFixtureType::Other);
}
