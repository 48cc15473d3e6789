use mongo_task_generator::resmoke::resmoke_suite::SuiteFixtureType;
use mongo_task_generator::resmoke::yaml_node::YamlNode;
use mongo_task_generator::resmoke::yaml_suite::{YamlSuiteConfig, YamlSuiteError};
use mongo_task_generator::utils::yaml_events::{
    can_load, check_loading, weigh, Loading, Weight, YamlEvent,
};
// get_fixture_type tests.
#[test]
fn resmoke_proxy_test_no_fixture_defined_should_return_shell() {
    let config_yaml = "
        test_kind: js_test

        selector:
          roots:
            - jstests/auth/*.js
          exclude_files:
            - jstests/auth/repl.js
    
        executor:
          config:
            shell_options:
              global_vars:
                TestData:
                  roleGraphInvalidationIsFatal: true
              nodb: '' 
    ";

    let config = YamlSuiteConfig::from_str(config_yaml).unwrap();

    assert_eq!(config.get_fixture_type().unwrap(), SuiteFixtureType::Shell);
}

#[test]
fn resmoke_proxy_test_shared_cluster_fixture_should_return_sharded() {
    let config_yaml = "
        test_kind: js_test

        selector:
          roots:
            - jstests/auth/*.js
          exclude_files:
            - jstests/auth/repl.js
    
        executor:
          config:
            shell_options:
              global_vars:
                TestData:
                  roleGraphInvalidationIsFatal: true
              nodb: '' 
          fixture:
            class: ShardedClusterFixture
            num_shards: 2
    ";

    let config = YamlSuiteConfig::from_str(config_yaml).unwrap();

    assert_eq!(config.get_fixture_type().unwrap(), SuiteFixtureType::Shard);
}

#[test]
fn resmoke_proxy_test_replica_set_fixture_should_return_repl() {
    let config_yaml = "
        test_kind: js_test

        selector:
          roots:
            - jstests/auth/*.js
          exclude_files:
            - jstests/auth/repl.js
    
        executor:
          config:
            shell_options:
              global_vars:
                TestData:
                  roleGraphInvalidationIsFatal: true
              nodb: '' 
          fixture:
            class: ReplicaSetFixture
            num_nodes: 3
    ";

    let config = YamlSuiteConfig::from_str(config_yaml).unwrap();

    assert_eq!(config.get_fixture_type().unwrap(), SuiteFixtureType::Repl);
}

#[test]
fn resmoke_proxy_test_other_fixture_should_return_other() {
    let config_yaml = "
        test_kind: js_test

        selector:
          roots:
            - jstests/auth/*.js
          exclude_files:
            - jstests/auth/repl.js
    
        executor:
          config:
            shell_options:
              global_vars:
                TestData:
                  roleGraphInvalidationIsFatal: true
              nodb: '' 
          fixture:
            num_nodes: 3
    ";

    let config = YamlSuiteConfig::from_str(config_yaml).unwrap();

    assert_eq!(config.get_fixture_type().unwrap(), SuiteFixtureType::Other);
}

fn text(text: &str) -> YamlNode {
    YamlNode::String(text.to_string())
}

#[test]
fn a_document_that_is_no_map_is_told() {
    let config = YamlSuiteConfig::from_str("- a\n- b\n").unwrap();
    assert!(config.names_executor());
    assert_eq!(config.get_fixture_type(), Err(YamlSuiteError::RootNotMap));
    assert_eq!(
        YamlSuiteError::RootNotMap.message(),
        Some("Expected map at root of resmoke config")
    );
    assert_eq!(YamlSuiteConfig::default().config, YamlNode::Null);
}

#[test]
fn an_executor_that_is_no_map_is_told() {
    let config = YamlSuiteConfig::from_str("executor: text\n").unwrap();
    assert!(config.names_executor());
    assert_eq!(config.get_executor(), Ok(&text("text")));
    assert_eq!(config.get_fixture_type(), Err(YamlSuiteError::ExecutorNotMap));
    assert_eq!(YamlSuiteError::ExecutorNotMap.message(), Some("Expected map as executor"));
}

#[test]
fn a_missing_executor_is_told() {
    assert!(!YamlSuiteConfig::from_str("selector: text\n").unwrap().names_executor());
}

#[test]
fn a_text_that_is_no_yaml_is_told() {
    let expected = yaml_rust::YamlLoader::load_from_str("executor: [a").unwrap_err();
    let error = YamlSuiteConfig::from_str("executor: [a").unwrap_err();
    assert_eq!(error.message(), None);
    assert_eq!(error, YamlSuiteError::NotYaml(expected));
    assert!(matches!(
        YamlSuiteConfig::find_in("executor: [a"),
        Err(YamlSuiteError::NotYaml(_))
    ));
}

#[test]
fn a_text_without_a_document_holds_no_suite() {
    assert_eq!(YamlSuiteConfig::find_in(""), Ok(None));
    assert_eq!(YamlSuiteConfig::find_in("# nothing here\n"), Ok(None));
    assert_eq!(YamlSuiteConfig::first_of(vec![]), None);
}

#[test]
fn nodes_are_read_one_for_one() {
    let yaml = "[1, 1.5, true, ~, word, {a: [], 2: !!int x}, &n here, *n]\n---\nsecond\n";
    let config = YamlSuiteConfig::find_in(yaml).unwrap().unwrap().config;
    assert_eq!(
        config,
        YamlNode::Array(vec![
            YamlNode::Integer(1),
            YamlNode::Real("1.5".to_string()),
            YamlNode::Boolean(true),
            YamlNode::Null,
            text("word"),
            YamlNode::Hash(vec![
                (text("a"), YamlNode::Array(vec![])),
                (YamlNode::Integer(2), YamlNode::BadValue),
            ]),
            text("here"),
            text("here"),
        ])
    );
}

#[test]
fn the_fixture_is_that_of_the_executor() {
    let yaml = "fixture:\n  class: ReplicaSetFixture\nexecutor:\n  class: ReplicaSetFixture\n";
    let config = YamlSuiteConfig::from_str(yaml).unwrap();
    assert_eq!(config.get_fixture_type(), Ok(SuiteFixtureType::Shell));
    let config = YamlSuiteConfig::from_str("executor:\n  fixture: [a]\n").unwrap();
    assert_eq!(config.get_fixture_type(), Ok(SuiteFixtureType::Other));
    let config = YamlSuiteConfig::from_str("executor:\n  fixture:\n    class: 1\n").unwrap();
    assert_eq!(config.get_fixture_type(), Ok(SuiteFixtureType::Other));
}

#[test]
fn entries_are_found_by_their_text() {
    let map = YamlNode::Hash(vec![
        (YamlNode::Integer(1), text("number")),
        (text("1"), text("text")),
        (text("a"), text("first")),
        (text("a"), text("second")),
    ]);
    assert_eq!(map.get("1"), Some(&text("text")));
    assert_eq!(map.get("a"), Some(&text("first")));
    assert_eq!(map.get("b"), None);
    assert!(map.is_map());
    assert_eq!(text("a").get("a"), None);
    assert!(!YamlNode::Array(vec![]).is_map());
}

fn is_loadable(text: &str) -> bool {
    check_loading(text) == Loading::Possible
}

fn nested_maps(levels: usize) -> String {
    (0..levels).map(|i| " ".repeat(i) + "a:\n").collect()
}

#[test]
fn deep_texts_are_refused_and_those_at_the_limit_are_read() {
    // The innermost key has a value that holds no others.
    let deepest = nested_maps(149);
    assert!(is_loadable(&deepest));
    let mut node = &YamlSuiteConfig::from_str(&deepest).unwrap().config;
    let mut levels: usize = 0;
    while let Some(inner) = node.get("a") {
        node = inner;
        levels += 1;
    }
    assert_eq!(levels, 149);
    assert_eq!(check_loading(&nested_maps(150)), Loading::TooHeavy);
    let error = YamlSuiteConfig::find_in(&nested_maps(5000)).unwrap_err();
    assert_eq!(error, YamlSuiteError::TooLarge);
    assert_eq!(
        error.message(),
        Some("Resmoke config is too large or too deeply nested")
    );
    assert_eq!(check_loading(&"- ".repeat(50_000)), Loading::TooHeavy);
    let lists: String = (0..149).map(|i| " ".repeat(i) + "-\n").collect();
    assert!(YamlSuiteConfig::find_in(&lists).unwrap().is_some());
    let brackets = "[a: ".repeat(74) + &"]".repeat(74);
    assert!(YamlSuiteConfig::find_in(&brackets).unwrap().is_some());
    // What is wrong further inside is not come to.
    assert!(matches!(
        check_loading(&("- ".repeat(50_000) + "[")),
        Loading::NotYaml(_)
    ));
}

#[test]
fn long_lines_and_marks_inside_texts_do_not_matter() {
    assert!(is_loadable(&("key: ".to_string() + &"a & b ".repeat(100))));
    assert!(is_loadable(&("script: |\n  ".to_string() + &"if [ -f x ]; then { y && z; } ".repeat(1_000))));
    assert!(is_loadable(&format!("a: &name {}\nb: *name\n", "x".repeat(2_000))));
    assert!(is_loadable(&"- jstests/core/**/*.js\n".repeat(5_000)));
    assert!(is_loadable(&"- {a: [1, 2]}\n".repeat(2_000)));
}

#[test]
fn copies_of_named_nodes_are_limited() {
    let chain = |n: usize| {
        let mut text = "a0: &a0 [x]\n".to_string();
        for i in 1..n {
            text.push_str(&format!("a{}: &a{} [*a{}]\n", i, i, i - 1));
        }
        text
    };
    assert!(is_loadable(&chain(40)));
    assert_eq!(check_loading(&chain(300)), Loading::TooHeavy);
    let mut laughs = "a0: &a0 [x, x, x, x, x, x, x, x, x]\n".to_string();
    for i in 1..10 {
        let alias = format!("*a{}", i - 1);
        laughs.push_str(&format!("a{}: &a{} [{}]\n", i, i, vec![alias; 9].join(", ")));
    }
    assert_eq!(check_loading(&laughs), Loading::TooHeavy);
}

#[test]
fn nodes_are_weighed_with_their_copies() {
    // {a: &1 [x, y], b: *1}
    let events = vec![
        YamlEvent::StreamStart,
        YamlEvent::DocumentStart,
        YamlEvent::MappingStart(0),
        YamlEvent::Scalar(0),
        YamlEvent::SequenceStart(1),
        YamlEvent::Scalar(0),
        YamlEvent::Scalar(0),
        YamlEvent::SequenceEnd,
        YamlEvent::Scalar(0),
        YamlEvent::Alias(1),
        YamlEvent::MappingEnd,
        YamlEvent::DocumentEnd,
    ];
    // The map, two keys, the list twice, and the list as it is kept for its name.
    assert_eq!(weigh(&events), Weight { levels: 3, nodes: 12 });
    assert_eq!(weigh(&vec![YamlEvent::Alias(7)]), Weight { levels: 1, nodes: 1 });
    assert_eq!(weigh(&vec![]), Weight { levels: 0, nodes: 0 });
    assert!(can_load(Weight { levels: 150, nodes: 50_000_000 }));
    assert!(!can_load(Weight { levels: 151, nodes: 1 }));
    assert!(!can_load(Weight { levels: 1, nodes: 50_000_001 }));
}
