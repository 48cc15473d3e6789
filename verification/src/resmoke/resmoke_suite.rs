//! Representation of a resmoke suite file.

use serde_yaml::Value;
use vstd::prelude::*;

use crate::utils::string_set::StringSet;
use crate::utils::text::str_eq;

verus! {

/// A value of YAML, which is carried along unread.
#[verifier::external_type_specification]
#[verifier::external_body]
pub struct ExValue(serde_yaml::Value);

/// `serde_yaml::Value::clone` gives back a value equal to the one that is cloned.
pub assume_specification[ <serde_yaml::Value as Clone>::clone ](value: &serde_yaml::Value) -> (copy:
    serde_yaml::Value)
    ensures
        copy == *value,
;

/// What the class of a sharded cluster is called.
pub const SHARDED_CLUSTER_FIXTURE_NAME: &'static str = "ShardedClusterFixture";

/// What the class of a replica set is called.
pub const REPLICA_SET_FIXTURE_NAME: &'static str = "ReplicaSetFixture";

/// Types of fixtures used by resmoke suites.
#[derive(Debug, PartialEq, Eq, Structural, Clone, Copy)]
pub enum SuiteFixtureType {
    /// A suite with no fixtures defined.
    Shell,
    /// A ReplicaSet fixture.
    Repl,
    /// A Sharded fixture.
    Shard,
    /// Some other fixture.
    Other,
}

/// The tests that a suite starts from.
#[derive(Debug, PartialEq)]
pub enum TestRoot {
    /// The path to a file containing the list of root tests.
    Root { root: String },
    /// A list of root tests.
    Roots { roots: Vec<String> },
}

/// What a [`TestRoot`] holds.
pub enum TestRootView {
    Root { root: Seq<char> },
    Roots { roots: Seq<Seq<char>> },
}

impl DeepView for TestRoot {
    type V = TestRootView;

    open spec fn deep_view(&self) -> TestRootView {
        match self {
            TestRoot::Root { root } => TestRootView::Root { root: root@ },
            TestRoot::Roots { roots } => TestRootView::Roots { roots: roots.deep_view() },
        }
    }
}

impl Clone for TestRoot {
    fn clone(&self) -> (copy: Self)
        ensures
            copy.deep_view() == self.deep_view(),
    {
        let copy = match self {
            TestRoot::Root { root } => TestRoot::Root { root: root.clone() },
            TestRoot::Roots { roots } => TestRoot::Roots { roots: roots.clone() },
        };
        assert(copy.deep_view() =~~= self.deep_view());
        copy
    }
}

/// How the tests of a suite are selected.
#[derive(Debug, PartialEq)]
pub struct ResmokeSelector {
    /// A tag matching expression that the tags of the selected tests must not match.
    pub exclude_tags: Option<String>,
    /// A list of paths or glob patterns the tests must not be among.
    pub exclude_files: Option<Vec<String>>,
    /// A list of tags. No selected tests can have any of them.
    pub exclude_with_any_tags: Option<StringSet>,
    /// Number of tests in a group.
    pub group_size: Option<usize>,
    /// Factor for the number of groups, by the bits of its IEEE 754 double.
    pub group_count_multiplier: Option<u64>,
    /// A list of tags. All selected tests must have at least one them.
    pub include_with_any_tags: Option<Vec<String>>,
    /// A list of paths or glob patterns the tests must be among.
    pub include_files: Option<Vec<String>>,
    /// A tag matching expression that the tags of the selected tests must match.
    pub include_tags: Option<String>,
    /// The tests that the suite starts from.
    pub test_root: Option<TestRoot>,
    /// Filename of a tag file associating tests to tags.
    pub tag_file: Option<String>,
    /// Name of a single test.
    pub test: Option<String>,
}

/// What a [`ResmokeSelector`] holds.
pub struct ResmokeSelectorView {
    pub exclude_tags: Option<Seq<char>>,
    pub exclude_files: Option<Seq<Seq<char>>>,
    pub exclude_with_any_tags: Option<Set<Seq<char>>>,
    pub group_size: Option<usize>,
    pub group_count_multiplier: Option<u64>,
    pub include_with_any_tags: Option<Seq<Seq<char>>>,
    pub include_files: Option<Seq<Seq<char>>>,
    pub include_tags: Option<Seq<char>>,
    pub test_root: Option<TestRootView>,
    pub tag_file: Option<Seq<char>>,
    pub test: Option<Seq<char>>,
}

impl DeepView for ResmokeSelector {
    type V = ResmokeSelectorView;

    open spec fn deep_view(&self) -> ResmokeSelectorView {
        ResmokeSelectorView {
            exclude_tags: self.exclude_tags.deep_view(),
            exclude_files: self.exclude_files.deep_view(),
            exclude_with_any_tags: self.exclude_with_any_tags.deep_view(),
            group_size: self.group_size,
            group_count_multiplier: self.group_count_multiplier,
            include_with_any_tags: self.include_with_any_tags.deep_view(),
            include_files: self.include_files.deep_view(),
            include_tags: self.include_tags.deep_view(),
            test_root: self.test_root.deep_view(),
            tag_file: self.tag_file.deep_view(),
            test: self.test.deep_view(),
        }
    }
}

impl Clone for ResmokeSelector {
    fn clone(&self) -> (copy: Self)
        ensures
            copy.deep_view() == self.deep_view(),
    {
        let exclude_files = self.exclude_files.clone();
        assert(exclude_files.deep_view() =~~= self.exclude_files.deep_view());
        let include_with_any_tags = self.include_with_any_tags.clone();
        assert(include_with_any_tags.deep_view() =~~= self.include_with_any_tags.deep_view());
        let include_files = self.include_files.clone();
        assert(include_files.deep_view() =~~= self.include_files.deep_view());
        let test_root = self.test_root.clone();
        assert(test_root.deep_view() =~~= self.test_root.deep_view());
        ResmokeSelector {
            exclude_tags: self.exclude_tags.clone(),
            exclude_files,
            exclude_with_any_tags: self.exclude_with_any_tags.clone(),
            group_size: self.group_size,
            group_count_multiplier: self.group_count_multiplier,
            include_with_any_tags,
            include_files,
            include_tags: self.include_tags.clone(),
            test_root,
            tag_file: self.tag_file.clone(),
            test: self.test.clone(),
        }
    }
}

/// The servers that the tests of a suite run against.
#[derive(Debug, PartialEq)]
pub struct ResmokeFixture {
    /// Class of the fixture.
    pub class: String,
    /// Options for mongod.
    pub mongod_options: Option<Value>,
    /// Options for mongos.
    pub mongos_options: Option<Value>,
    /// Number of nodes.
    pub num_nodes: Option<usize>,
    /// Should tests connect to the replica set.
    pub use_replica_set_connection_string: Option<bool>,
    /// Versions of the nodes.
    pub mixed_bin_versions: Option<String>,
    /// The old version among them.
    pub old_bin_version: Option<String>,
    /// Number of nodes of each shard.
    pub num_rs_nodes_per_shard: Option<usize>,
    /// Number of shards.
    pub num_shards: Option<usize>,
    /// Options for the shards.
    pub shard_options: Option<Value>,
    /// Options for the config servers.
    pub configsvr_options: Option<Value>,
}

/// What a [`ResmokeFixture`] holds.
pub struct ResmokeFixtureView {
    pub class: Seq<char>,
    pub mongod_options: Option<Value>,
    pub mongos_options: Option<Value>,
    pub num_nodes: Option<usize>,
    pub use_replica_set_connection_string: Option<bool>,
    pub mixed_bin_versions: Option<Seq<char>>,
    pub old_bin_version: Option<Seq<char>>,
    pub num_rs_nodes_per_shard: Option<usize>,
    pub num_shards: Option<usize>,
    pub shard_options: Option<Value>,
    pub configsvr_options: Option<Value>,
}

impl DeepView for ResmokeFixture {
    type V = ResmokeFixtureView;

    open spec fn deep_view(&self) -> ResmokeFixtureView {
        ResmokeFixtureView {
            class: self.class@,
            mongod_options: self.mongod_options,
            mongos_options: self.mongos_options,
            num_nodes: self.num_nodes,
            use_replica_set_connection_string: self.use_replica_set_connection_string,
            mixed_bin_versions: self.mixed_bin_versions.deep_view(),
            old_bin_version: self.old_bin_version.deep_view(),
            num_rs_nodes_per_shard: self.num_rs_nodes_per_shard,
            num_shards: self.num_shards,
            shard_options: self.shard_options,
            configsvr_options: self.configsvr_options,
        }
    }
}

impl Clone for ResmokeFixture {
    fn clone(&self) -> (copy: Self)
        ensures
            copy.deep_view() == self.deep_view(),
    {
        let mongod_options = self.mongod_options.clone();
        assert(mongod_options == self.mongod_options);
        let mongos_options = self.mongos_options.clone();
        assert(mongos_options == self.mongos_options);
        let shard_options = self.shard_options.clone();
        assert(shard_options == self.shard_options);
        let configsvr_options = self.configsvr_options.clone();
        assert(configsvr_options == self.configsvr_options);
        ResmokeFixture {
            class: self.class.clone(),
            mongod_options,
            mongos_options,
            num_nodes: self.num_nodes,
            use_replica_set_connection_string: self.use_replica_set_connection_string,
            mixed_bin_versions: self.mixed_bin_versions.clone(),
            old_bin_version: self.old_bin_version.clone(),
            num_rs_nodes_per_shard: self.num_rs_nodes_per_shard,
            num_shards: self.num_shards,
            shard_options,
            configsvr_options,
        }
    }
}

/// The values of a list, if there is one.
pub open spec fn values_of(list: Option<Vec<Value>>) -> Option<Seq<Value>> {
    match list {
        Some(values) => Some(values@),
        None => None,
    }
}

/// How the tests of a suite are executed.
#[derive(Debug, PartialEq)]
pub struct ResmokeExecutor {
    /// What to archive.
    pub archive: Option<Value>,
    /// Hooks that run with the tests.
    pub hooks: Option<Vec<Value>>,
    /// Configuration of the tests.
    pub config: Option<Value>,
    /// The servers that the tests run against.
    pub fixture: Option<ResmokeFixture>,
}

/// What a [`ResmokeExecutor`] holds.
pub struct ResmokeExecutorView {
    pub archive: Option<Value>,
    pub hooks: Option<Seq<Value>>,
    pub config: Option<Value>,
    pub fixture: Option<ResmokeFixtureView>,
}

impl DeepView for ResmokeExecutor {
    type V = ResmokeExecutorView;

    open spec fn deep_view(&self) -> ResmokeExecutorView {
        ResmokeExecutorView {
            archive: self.archive,
            hooks: values_of(self.hooks),
            config: self.config,
            fixture: self.fixture.deep_view(),
        }
    }
}

impl Clone for ResmokeExecutor {
    fn clone(&self) -> (copy: Self)
        ensures
            copy.deep_view() == self.deep_view(),
    {
        let archive = self.archive.clone();
        assert(archive == self.archive);
        let hooks = self.hooks.clone();
        assert(values_of(hooks) =~~= values_of(self.hooks));
        let config = self.config.clone();
        assert(config == self.config);
        let fixture = self.fixture.clone();
        assert(fixture.deep_view() =~~= self.fixture.deep_view());
        ResmokeExecutor {
            archive,
            hooks,
            config,
            fixture,
        }
    }
}

/// Configuration of a resmoke test suite.
#[derive(Debug, PartialEq)]
pub struct ResmokeSuiteConfig {
    /// Kind of the tests.
    pub test_kind: String,
    /// How the tests are selected.
    pub selector: ResmokeSelector,
    /// How the tests are executed.
    pub executor: ResmokeExecutor,
}

/// What a [`ResmokeSuiteConfig`] holds.
pub struct ResmokeSuiteConfigView {
    pub test_kind: Seq<char>,
    pub selector: ResmokeSelectorView,
    pub executor: ResmokeExecutorView,
}

impl DeepView for ResmokeSuiteConfig {
    type V = ResmokeSuiteConfigView;

    open spec fn deep_view(&self) -> ResmokeSuiteConfigView {
        ResmokeSuiteConfigView {
            test_kind: self.test_kind@,
            selector: self.selector.deep_view(),
            executor: self.executor.deep_view(),
        }
    }
}

impl Clone for ResmokeSuiteConfig {
    fn clone(&self) -> (copy: Self)
        ensures
            copy.deep_view() == self.deep_view(),
    {
        ResmokeSuiteConfig {
            test_kind: self.test_kind.clone(),
            selector: self.selector.clone(),
            executor: self.executor.clone(),
        }
    }
}

/// The type of a class of fixtures.
pub open spec fn fixture_type_of(class: Seq<char>) -> SuiteFixtureType {
    if class == SHARDED_CLUSTER_FIXTURE_NAME@ {
        SuiteFixtureType::Shard
    } else if class == REPLICA_SET_FIXTURE_NAME@ {
        SuiteFixtureType::Repl
    } else {
        SuiteFixtureType::Other
    }
}

/// The selection of tests with other tests to run, and with more tests excluded. What was excluded
/// from other tests is not excluded from those that are given.
pub open spec fn reselected(
    selector: ResmokeSelectorView,
    run_tests: Option<Seq<Seq<char>>>,
    exclude_tests: Option<Seq<Seq<char>>>,
) -> ResmokeSelectorView {
    let selected = match run_tests {
        Some(tests) => ResmokeSelectorView {
            exclude_files: None,
            test_root: Some(TestRootView::Roots { roots: tests }),
            ..selector
        },
        None => selector,
    };
    match exclude_tests {
        Some(excluded) => ResmokeSelectorView {
            exclude_files: Some(
                match selected.exclude_files {
                    Some(files) => files + excluded,
                    None => excluded,
                },
            ),
            ..selected
        },
        None => selected,
    }
}

/// The type of the named class of fixtures.
pub fn fixture_type(class: &str) -> (fixture_type: SuiteFixtureType)
    ensures
        fixture_type == fixture_type_of(class@),
{
    if str_eq(class, SHARDED_CLUSTER_FIXTURE_NAME) {
        SuiteFixtureType::Shard
    } else if str_eq(class, REPLICA_SET_FIXTURE_NAME) {
        SuiteFixtureType::Repl
    } else {
        SuiteFixtureType::Other
    }
}

impl ResmokeSuiteConfigView {
    /// The fixture type of the suite.
    pub open spec fn suite_fixture(self) -> SuiteFixtureType {
        match self.executor.fixture {
            Some(fixture) => fixture_type_of(fixture.class),
            None => SuiteFixtureType::Shell,
        }
    }
}

impl ResmokeSuiteConfig {
    /// Get the fixture type of this suite.
    pub fn get_fixture_type(&self) -> (fixture_type: SuiteFixtureType)
        ensures
            fixture_type == self.deep_view().suite_fixture(),
    {
        match &self.executor.fixture {
            Some(fixture) => Self::get_type_from_fixture_class(fixture),
            None => SuiteFixtureType::Shell,
        }
    }

    /// Get the type of the given fixture class.
    ///
    /// # Arguments
    ///
    /// * `fixture` - Fixture configuration.
    ///
    /// # Returns
    ///
    /// Type of fixture the suite uses.
    pub fn get_type_from_fixture_class(fixture: &ResmokeFixture) -> (fixture_type: SuiteFixtureType)
        ensures
            fixture_type == fixture_type_of(fixture.class@),
    {
        fixture_type(fixture.class.as_str())
    }

    /// Create a new resmoke suite configuration based on this one but running certain tests.
    ///
    /// # Arguments
    ///
    /// * `run_tests` - When provided, the new configuration should only run these tests.
    /// * `exclude_tests` - When provided, the new configuration should exclude these tests.
    ///
    /// # Returns
    ///
    /// New resmoke configuration with a selector based on provided parameters.
    pub fn with_new_tests(
        &self,
        run_tests: Option<&Vec<String>>,
        exclude_tests: Option<&Vec<String>>,
    ) -> (config: Self)
        ensures
            config.deep_view() == (ResmokeSuiteConfigView {
                selector: reselected(
                    self.deep_view().selector,
                    run_tests.deep_view(),
                    exclude_tests.deep_view(),
                ),
                ..self.deep_view()
            }),
    {
        let mut selector: ResmokeSelector = self.selector.clone();
        if let Some(run_tests) = run_tests {
            let roots: Vec<String> = run_tests.clone();
            assert(roots.deep_view() =~~= run_tests.deep_view());
            selector.exclude_files = None;
            selector.test_root = Some(TestRoot::Roots { roots });
        }
        if let Some(exclude_tests) = exclude_tests {
            let ghost selected = selector.deep_view();
            let mut files: Vec<String> = match &selector.exclude_files {
                Some(files) => files.clone(),
                None => Vec::new(),
            };
            let mut more: Vec<String> = exclude_tests.clone();
            proof {
                if let Some(old_files) = &selector.exclude_files {
                    assert(files.deep_view() =~~= old_files.deep_view());
                }
                assert(more.deep_view() =~~= exclude_tests.deep_view());
            }
            let ghost before = files.deep_view();
            let ghost added = more.deep_view();
            files.append(&mut more);
            assert(files.deep_view() =~= before + added);
            assert(Seq::<Seq<char>>::empty() + added =~= added);
            assert(before + added =~= reselected(
                self.deep_view().selector,
                run_tests.deep_view(),
                Some(added),
            ).exclude_files.unwrap());
            selector.exclude_files = Some(files);
        }
        ResmokeSuiteConfig {
            test_kind: self.test_kind.clone(),
            selector,
            executor: self.executor.clone(),
        }
    }
}

} // verus!
