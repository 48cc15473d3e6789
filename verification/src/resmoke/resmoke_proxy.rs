//! Command lines for resmoke, and what it has answered so far.

use vstd::prelude::*;

use crate::evergreen::evg_config_utils::{is_bazel_suite, BAZEL_PREFIX};
use crate::resmoke::resmoke_suite::{ResmokeSuiteConfig, ResmokeSuiteConfigView};
use crate::utils::lists::{clone_texts, keep_flagged, kept, push_text, split_command};
use crate::utils::string_map::StringMap;
use crate::utils::text::{split_on, str_eq};

verus! {

/// The greatest number of suites to ask resmoke for at once.
pub const BATCH_SIZE: usize = 100;

/// What the name of a bazel target for a suite configuration ends with.
pub const BAZEL_CONFIG_SUFFIX: &'static str = "_config";

/// Where resmoke writes the multiversion configuration.
pub const MULTIVERSION_CONFIG_FILE: &'static str = "multiversion-config.yml";

/// The generated configurations of bazel suites.
#[derive(Debug, PartialEq)]
pub struct BazelConfigs {
    /// Map of bazel resmoke config targets to their generated suite config YAMLs.
    pub configs: StringMap<String>,
}

impl Default for BazelConfigs {
    fn default() -> (configs: Self)
        ensures
            configs.configs.deep_view() == Map::<Seq<char>, Seq<char>>::empty(),
    {
        let configs = BazelConfigs { configs: StringMap::new() };
        assert(configs.configs.deep_view() =~= Map::<Seq<char>, Seq<char>>::empty());
        configs
    }
}

/// There is a configuration for a suite, if it is a bazel target.
pub open spec fn has_suite_arg(configs: Map<Seq<char>, Seq<char>>, suite: Seq<char>) -> bool {
    BAZEL_PREFIX@.is_prefix_of(suite) ==> configs.contains_key(suite + BAZEL_CONFIG_SUFFIX@)
}

/// What to call a suite when resmoke is invoked.
pub open spec fn suite_arg_of(configs: Map<Seq<char>, Seq<char>>, suite: Seq<char>) -> Seq<char> {
    if BAZEL_PREFIX@.is_prefix_of(suite) {
        configs[suite + BAZEL_CONFIG_SUFFIX@]
    } else {
        suite
    }
}

/// The arguments that name the given suites.
pub open spec fn suite_args_of(
    configs: Map<Seq<char>, Seq<char>>,
    suites: Seq<Seq<char>>,
) -> Seq<Seq<char>>
    decreases suites.len(),
{
    if suites.len() == 0 {
        Seq::empty()
    } else {
        suite_args_of(configs, suites.drop_last()) + seq![
            "--suite"@,
            suite_arg_of(configs, suites.last()),
        ]
    }
}

impl BazelConfigs {
    /// Get the generated suite config for a bazel resmoke target.
    ///
    /// # Arguments
    ///
    /// * `target` - Bazel resmoke test target, like "//buildscripts/resmoke:core".
    ///
    /// # Returns
    ///
    /// The path the the generated suite config YAML, like
    /// "bazel-out/buildscripts/resmoke/core_config.yml".
    pub fn get(&self, target: &str) -> (path: &str)
        requires
            self.configs.deep_view().contains_key(target@ + BAZEL_CONFIG_SUFFIX@),
        ensures
            path@ == self.configs.deep_view()[target@ + BAZEL_CONFIG_SUFFIX@],
    {
        let mut key: String = target.to_owned();
        key.append(BAZEL_CONFIG_SUFFIX);
        self.configs.get(key.as_str()).unwrap().as_str()
    }

    /// Is there a configuration for the suite, if it is a bazel target?
    ///
    /// # Arguments
    ///
    /// * `suite_name` - Name of suite.
    pub fn covers(&self, suite_name: &str) -> (covered: bool)
        ensures
            covered == has_suite_arg(self.configs.deep_view(), suite_name@),
    {
        if !is_bazel_suite(suite_name) {
            return true;
        }
        let mut key: String = suite_name.to_owned();
        key.append(BAZEL_CONFIG_SUFFIX);
        self.configs.contains_key(key.as_str())
    }
}

/// Details about tests comprising a test suite.
#[derive(Debug, PartialEq)]
pub struct TestDiscoveryOutput {
    /// Name of suite.
    pub suite_name: String,
    /// Name of tests comprising suite.
    pub tests: Vec<String>,
}

/// What a [`TestDiscoveryOutput`] holds.
pub struct TestDiscoveryOutputView {
    pub suite_name: Seq<char>,
    pub tests: Seq<Seq<char>>,
}

impl DeepView for TestDiscoveryOutput {
    type V = TestDiscoveryOutputView;

    open spec fn deep_view(&self) -> TestDiscoveryOutputView {
        TestDiscoveryOutputView { suite_name: self.suite_name@, tests: self.tests.deep_view() }
    }
}

/// Why the answer to a request for several suites is of no use.
#[derive(Debug, PartialEq)]
pub enum BatchProblem {
    /// Resmoke failed.
    Failed,
    /// The answer could not be parsed.
    Unparsable,
    /// The answer holds another number of suites than were asked for.
    WrongCount { requested: usize, parsed: usize },
    /// The answer holds another suite than was asked for at that position.
    OutOfOrder { expected: String, actual: String },
}

/// What a [`BatchProblem`] holds.
pub enum BatchProblemView {
    Failed,
    Unparsable,
    WrongCount { requested: usize, parsed: usize },
    OutOfOrder { expected: Seq<char>, actual: Seq<char> },
}

impl DeepView for BatchProblem {
    type V = BatchProblemView;

    open spec fn deep_view(&self) -> BatchProblemView {
        match self {
            BatchProblem::Failed => BatchProblemView::Failed,
            BatchProblem::Unparsable => BatchProblemView::Unparsable,
            BatchProblem::WrongCount { requested, parsed } => BatchProblemView::WrongCount {
                requested: *requested,
                parsed: *parsed,
            },
            BatchProblem::OutOfOrder { expected, actual } => BatchProblemView::OutOfOrder {
                expected: expected@,
                actual: actual@,
            },
        }
    }
}

/// The first suite in an answer that is not the one that was asked for at its position.
pub open spec fn first_out_of_order(
    configs: Map<Seq<char>, Seq<char>>,
    batch: Seq<Seq<char>>,
    docs: Seq<TestDiscoveryOutputView>,
) -> Option<BatchProblemView>
    decreases batch.len(),
{
    if batch.len() == 0 || docs.len() == 0 {
        None
    } else if suite_arg_of(configs, batch.first()) != docs.first().suite_name {
        Some(
            BatchProblemView::OutOfOrder {
                expected: suite_arg_of(configs, batch.first()),
                actual: docs.first().suite_name,
            },
        )
    } else {
        first_out_of_order(configs, batch.drop_first(), docs.drop_first())
    }
}

/// What makes the answer to a request for several suites useless, if anything does.
pub open spec fn batch_problem(
    configs: Map<Seq<char>, Seq<char>>,
    batch: Seq<Seq<char>>,
    docs: Seq<TestDiscoveryOutputView>,
) -> Option<BatchProblemView> {
    if docs.len() != batch.len() {
        Some(
            BatchProblemView::WrongCount {
                requested: batch.len() as usize,
                parsed: docs.len() as usize,
            },
        )
    } else {
        first_out_of_order(configs, batch, docs)
    }
}

/// The discovered tests after an answer for several suites has been added, with the tests that
/// exist under the name of each suite.
pub open spec fn seeded(
    cache: Map<Seq<char>, Seq<Seq<char>>>,
    batch: Seq<Seq<char>>,
    docs: Seq<TestDiscoveryOutputView>,
    existing: Seq<Seq<bool>>,
) -> Map<Seq<char>, Seq<Seq<char>>>
    decreases batch.len(),
{
    if batch.len() == 0 {
        cache
    } else {
        seeded(cache, batch.drop_last(), docs.drop_last(), existing.drop_last()).insert(
            batch.last(),
            kept(docs.last().tests, existing.last()),
        )
    }
}

/// There is one flag for each test of each suite.
pub open spec fn flags_match(docs: Seq<TestDiscoveryOutputView>, existing: Seq<Seq<bool>>) -> bool {
    &&& docs.len() == existing.len()
    &&& forall|i: int|
        #![trigger docs[i]]
        #![trigger existing[i]]
        0 <= i < docs.len() ==> docs[i].tests.len() == existing[i].len()
}

/// What came of asking resmoke for several suites.
#[derive(Debug, PartialEq)]
pub enum BatchOutcome {
    /// Resmoke failed.
    Failed,
    /// The answer could not be parsed.
    Unparsable,
    /// The answer, and for each of the tests in it, is there such a file.
    Parsed { docs: Vec<TestDiscoveryOutput>, existing: Vec<Vec<bool>> },
}

/// What a [`BatchOutcome`] holds.
pub enum BatchOutcomeView {
    Failed,
    Unparsable,
    Parsed { docs: Seq<TestDiscoveryOutputView>, existing: Seq<Seq<bool>> },
}

impl DeepView for BatchOutcome {
    type V = BatchOutcomeView;

    open spec fn deep_view(&self) -> BatchOutcomeView {
        match self {
            BatchOutcome::Failed => BatchOutcomeView::Failed,
            BatchOutcome::Unparsable => BatchOutcomeView::Unparsable,
            BatchOutcome::Parsed { docs, existing } => BatchOutcomeView::Parsed {
                docs: docs.deep_view(),
                existing: existing.deep_view(),
            },
        }
    }
}

/// There is a flag for each of the tests, if there is an answer.
pub open spec fn outcome_has_flags(outcome: BatchOutcomeView) -> bool {
    match outcome {
        BatchOutcomeView::Parsed { docs, existing } => flags_match(docs, existing),
        _ => true,
    }
}

/// What makes an outcome useless, if anything does.
pub open spec fn outcome_problem(
    configs: Map<Seq<char>, Seq<char>>,
    batch: Seq<Seq<char>>,
    outcome: BatchOutcomeView,
) -> Option<BatchProblemView> {
    match outcome {
        BatchOutcomeView::Failed => Some(BatchProblemView::Failed),
        BatchOutcomeView::Unparsable => Some(BatchProblemView::Unparsable),
        BatchOutcomeView::Parsed { docs, existing } => batch_problem(configs, batch, docs),
    }
}

/// What is known of the tests of suites after several were asked for. An outcome that is useless
/// changes nothing.
pub open spec fn after_batch(
    cache: Map<Seq<char>, Seq<Seq<char>>>,
    configs: Map<Seq<char>, Seq<char>>,
    batch: Seq<Seq<char>>,
    outcome: BatchOutcomeView,
) -> Map<Seq<char>, Seq<Seq<char>>> {
    match (outcome, outcome_problem(configs, batch, outcome)) {
        (BatchOutcomeView::Parsed { docs, existing }, None) => seeded(cache, batch, docs, existing),
        _ => cache,
    }
}

/// How to get at the tests of a suite.
#[derive(Debug, PartialEq)]
pub enum DiscoveryStep {
    /// The tests have been discovered before.
    Known { tests: Vec<String> },
    /// Resmoke has to be asked with a command.
    Ask { command: Vec<String> },
}

/// What a [`DiscoveryStep`] holds.
pub enum DiscoveryStepView {
    Known { tests: Seq<Seq<char>> },
    Ask { command: Seq<Seq<char>> },
}

impl DeepView for DiscoveryStep {
    type V = DiscoveryStepView;

    open spec fn deep_view(&self) -> DiscoveryStepView {
        match self {
            DiscoveryStep::Known { tests } => DiscoveryStepView::Known { tests: tests.deep_view() },
            DiscoveryStep::Ask { command } => DiscoveryStepView::Ask {
                command: command.deep_view(),
            },
        }
    }
}

/// How to query details from resmoke, and the answers so far.
pub struct ResmokeProxy {
    /// Primary command to invoke resmoke (usually `python`).
    pub resmoke_cmd: String,
    /// Script to invoke resmoke.
    pub resmoke_script: Vec<String>,
    /// True if the generator should skip tests already run in more complex suites.
    pub skip_covered_tests: bool,
    /// True if test discovery should keep tests that are tagged with fully disabled features.
    pub include_fully_disabled_feature_tests: bool,
    /// The generated configurations of bazel suites.
    pub bazel_suite_configs: BazelConfigs,
    /// Test discovery results, keyed by suite name.
    pub discovery_cache: StringMap<Vec<String>>,
    /// Suite configurations, keyed by suite name.
    pub suite_config_cache: StringMap<ResmokeSuiteConfig>,
}

impl ResmokeProxy {
    /// The configurations of bazel suites.
    pub open spec fn configs(&self) -> Map<Seq<char>, Seq<char>> {
        self.bazel_suite_configs.configs.deep_view()
    }

    /// Everything but what has been discovered is the same.
    pub open spec fn same_setup(&self, other: &ResmokeProxy) -> bool {
        &&& self.resmoke_cmd == other.resmoke_cmd
        &&& self.resmoke_script == other.resmoke_script
        &&& self.skip_covered_tests == other.skip_covered_tests
        &&& self.include_fully_disabled_feature_tests == other.include_fully_disabled_feature_tests
        &&& self.bazel_suite_configs == other.bazel_suite_configs
    }

    /// The command that invokes resmoke.
    pub open spec fn base_command(&self) -> Seq<Seq<char>> {
        seq![self.resmoke_cmd@] + self.resmoke_script.deep_view()
    }

    /// The command that asks resmoke for the tests of suites.
    pub open spec fn discovery_command(&self, suites: Seq<Seq<char>>) -> Seq<Seq<char>> {
        self.base_command() + seq!["test-discovery"@] + suite_args_of(self.configs(), suites) + (
        if self.skip_covered_tests {
            seq!["--skipTestsCoveredByMoreComplexSuites"@]
        } else {
            Seq::empty()
        }) + (if self.include_fully_disabled_feature_tests {
            seq!["--includeFullyDisabledFeatureTests"@]
        } else {
            Seq::empty()
        })
    }

    /// How to get at the tests of a suite.
    pub open spec fn step_for(&self, suite: Seq<char>) -> DiscoveryStepView {
        if self.discovery_cache.deep_view().contains_key(suite) {
            DiscoveryStepView::Known { tests: self.discovery_cache.deep_view()[suite] }
        } else {
            DiscoveryStepView::Ask { command: self.discovery_command(seq![suite]) }
        }
    }

    /// Create a new `ResmokeProxy` instance.
    ///
    /// # Arguments
    ///
    /// * `resmoke_cmd` - Command to invoke resmoke. * `skip_covered_tests` - Whether the generator
    /// should skip tests run in more complex suites. * `include_fully_disabled_feature_tests` - If
    /// the generator should keep tests that are tagged with fully disabled features. *
    /// `bazel_suite_configs` - Optional bazel suite configurations.
    pub fn new(
        resmoke_cmd: &str,
        skip_covered_tests: bool,
        include_fully_disabled_feature_tests: bool,
        bazel_suite_configs: BazelConfigs,
    ) -> (proxy: Self)
        ensures
            proxy.resmoke_cmd@ == split_on(resmoke_cmd@, ' ').first(),
            proxy.resmoke_script.deep_view() == split_on(resmoke_cmd@, ' ').drop_first(),
            proxy.skip_covered_tests == skip_covered_tests,
            proxy.include_fully_disabled_feature_tests == include_fully_disabled_feature_tests,
            proxy.bazel_suite_configs == bazel_suite_configs,
            proxy.discovery_cache.deep_view() == Map::<Seq<char>, Seq<Seq<char>>>::empty(),
            proxy.suite_config_cache.deep_view() == Map::<
                Seq<char>,
                ResmokeSuiteConfigView,
            >::empty(),
    {
        let (command, script) = split_command(resmoke_cmd);
        let proxy = ResmokeProxy {
            resmoke_cmd: command,
            resmoke_script: script,
            skip_covered_tests,
            include_fully_disabled_feature_tests,
            bazel_suite_configs,
            discovery_cache: StringMap::new(),
            suite_config_cache: StringMap::new(),
        };
        assert(proxy.discovery_cache.deep_view() =~= Map::<Seq<char>, Seq<Seq<char>>>::empty());
        assert(proxy.suite_config_cache.deep_view() =~= Map::<
            Seq<char>,
            ResmokeSuiteConfigView,
        >::empty());
        proxy
    }

    /// Resolve the value passed as resmoke's `--suite` argument for the given suite.
    /// For bazel suites this is the generated suite config path; otherwise the suite name.
    pub fn suite_arg<'a>(&'a self, suite_name: &'a str) -> (arg: &'a str)
        requires
            has_suite_arg(self.configs(), suite_name@),
        ensures
            arg@ == suite_arg_of(self.configs(), suite_name@),
    {
        if is_bazel_suite(suite_name) {
            self.bazel_suite_configs.get(suite_name)
        } else {
            suite_name
        }
    }

    fn new_command(&self) -> (command: Vec<String>)
        ensures
            command.deep_view() == self.base_command(),
    {
        let mut command: Vec<String> = Vec::new();
        push_text(&mut command, self.resmoke_cmd.as_str());
        let mut script: Vec<String> = clone_texts(&self.resmoke_script);
        let ghost first = command.deep_view();
        let ghost rest = script.deep_view();
        command.append(&mut script);
        assert(first =~= seq![self.resmoke_cmd@]);
        assert(command.deep_view() =~= first + rest);
        command
    }

    /// Build a `test-discovery` command line covering the given suites.
    ///
    /// # Arguments
    ///
    /// * `suite_names` - Suites to discover the tests of.
    pub fn test_discovery_command(&self, suite_names: &Vec<String>) -> (command: Vec<String>)
        requires
            forall|i: int|
                0 <= i < suite_names@.len() ==> has_suite_arg(
                    self.configs(),
                    #[trigger] suite_names.deep_view()[i],
                ),
        ensures
            command.deep_view() == self.discovery_command(suite_names.deep_view()),
    {
        let mut command: Vec<String> = self.new_command();
        push_text(&mut command, "test-discovery");
        let ghost head = command.deep_view();
        let ghost all = suite_names.deep_view();
        let mut i: usize = 0;
        assert(head + suite_args_of(self.configs(), all.take(0)) =~= head);
        while i < suite_names.len()
            invariant
                i <= suite_names@.len(),
                all == suite_names.deep_view(),
                forall|j: int|
                    0 <= j < all.len() ==> has_suite_arg(self.configs(), #[trigger] all[j]),
                command.deep_view() == head + suite_args_of(self.configs(), all.take(i as int)),
            decreases suite_names@.len() - i,
        {
            assert(all[i as int] == suite_names[i as int]@);
            assert(all.take(i + 1).drop_last() =~= all.take(i as int));
            push_text(&mut command, "--suite");
            push_text(&mut command, self.suite_arg(suite_names[i].as_str()));
            i += 1;
            assert(command.deep_view() =~= head + suite_args_of(
                self.configs(),
                all.take(i as int),
            ));
        }
        assert(all.take(i as int) =~= all);
        // In a patch build, tests that a more complex suite also runs are left out.
        if self.skip_covered_tests {
            push_text(&mut command, "--skipTestsCoveredByMoreComplexSuites");
        }
        if self.include_fully_disabled_feature_tests {
            push_text(&mut command, "--includeFullyDisabledFeatureTests");
        }
        assert(command.deep_view() =~= head + suite_args_of(self.configs(), all) + (
        if self.skip_covered_tests {
            seq!["--skipTestsCoveredByMoreComplexSuites"@]
        } else {
            Seq::empty()
        }) + (if self.include_fully_disabled_feature_tests {
            seq!["--includeFullyDisabledFeatureTests"@]
        } else {
            Seq::empty()
        }));
        command
    }

    /// The command line that asks for the configuration of a suite.
    pub open spec fn config_query(&self, suite: Seq<char>) -> Seq<Seq<char>> {
        self.base_command() + seq![
            "suiteconfig"@,
            "--suite"@,
            suite_arg_of(self.configs(), suite),
        ]
    }

    /// The command line that makes resmoke write the multiversion configuration.
    pub open spec fn multiversion_query(&self) -> Seq<Seq<char>> {
        self.base_command() + seq![
            "multiversion-config"@,
            "--config-file-output="@ + MULTIVERSION_CONFIG_FILE@,
        ]
    }

    /// Build a `suiteconfig` command line for the given suite.
    ///
    /// # Arguments
    ///
    /// * `suite_name` - Suite to get the configuration of.
    pub fn suite_config_command(&self, suite_name: &str) -> (command: Vec<String>)
        requires
            has_suite_arg(self.configs(), suite_name@),
        ensures
            command.deep_view() == self.config_query(suite_name@),
    {
        let mut command: Vec<String> = self.new_command();
        push_text(&mut command, "suiteconfig");
        push_text(&mut command, "--suite");
        push_text(&mut command, self.suite_arg(suite_name));
        command
    }

    /// Build the command line that makes resmoke write the multiversion configuration.
    pub fn multiversion_config_command(&self) -> (command: Vec<String>)
        ensures
            command.deep_view() == self.multiversion_query(),
    {
        let mut command: Vec<String> = self.new_command();
        push_text(&mut command, "multiversion-config");
        let mut file_arg: String = "--config-file-output=".to_owned();
        file_arg.append(MULTIVERSION_CONFIG_FILE);
        push_text(&mut command, file_arg.as_str());
        command
    }

    /// The tests of a suite, if they have been discovered before.
    ///
    /// # Arguments
    ///
    /// * `suite_name` - Name of test suite to query.
    pub fn cached_tests(&self, suite_name: &str) -> (tests: Option<Vec<String>>)
        ensures
            tests.deep_view() == (if self.discovery_cache.deep_view().contains_key(suite_name@) {
                Some(self.discovery_cache.deep_view()[suite_name@])
            } else {
                None
            }),
    {
        match self.discovery_cache.get(suite_name) {
            Some(tests) => Some(clone_texts(tests)),
            None => None,
        }
    }

    /// How to get at the tests of a suite: from what has been discovered before, or by asking
    /// resmoke for this suite alone.
    ///
    /// # Arguments
    ///
    /// * `suite_name` - Name of test suite to query.
    pub fn next_discovery(&self, suite_name: &str) -> (step: DiscoveryStep)
        requires
            has_suite_arg(self.configs(), suite_name@),
        ensures
            step.deep_view() == self.step_for(suite_name@),
    {
        match self.cached_tests(suite_name) {
            Some(tests) => DiscoveryStep::Known { tests },
            None => {
                let mut suite_names: Vec<String> = Vec::new();
                push_text(&mut suite_names, suite_name);
                assert(suite_names.deep_view() =~= seq![suite_name@]);
                DiscoveryStep::Ask { command: self.test_discovery_command(&suite_names) }
            },
        }
    }

    /// Remember the tests of a suite that exist.
    ///
    /// # Arguments
    ///
    /// * `suite_name` - Name of test suite that was queried.
    /// * `tests` - Tests that resmoke named.
    /// * `existing` - For each of the tests, is there such a file.
    ///
    /// # Returns
    ///
    /// The tests that exist.
    pub fn record_tests(&mut self, suite_name: &str, tests: &Vec<String>, existing: &Vec<bool>) -> (found:
        Vec<String>)
        requires
            tests@.len() == existing@.len(),
        ensures
            found.deep_view() == kept(tests.deep_view(), existing@),
            final(self).same_setup(old(self)),
            final(self).suite_config_cache == old(self).suite_config_cache,
            final(self).discovery_cache.deep_view() == old(self).discovery_cache.deep_view().insert(
                suite_name@,
                kept(tests.deep_view(), existing@),
            ),
    {
        let found: Vec<String> = keep_flagged(tests, existing);
        let copy: Vec<String> = clone_texts(&found);
        let ghost before = self.discovery_cache.deep_view();
        self.discovery_cache.insert(suite_name.to_owned(), copy);
        assert(self.discovery_cache.deep_view() =~= before.insert(suite_name@, found.deep_view()));
        found
    }

    /// Verify that each part of an answer lines up with the suite that was requested at that
    /// position. Resmoke echoes back the `--suite` value as `suite_name`.
    ///
    /// # Arguments
    ///
    /// * `batch` - Suites that were asked for.
    /// * `docs` - What resmoke answered.
    pub fn check_batch(&self, batch: &Vec<String>, docs: &Vec<TestDiscoveryOutput>) -> (checked:
        Result<(), BatchProblem>)
        requires
            forall|i: int|
                0 <= i < batch@.len() ==> has_suite_arg(
                    self.configs(),
                    #[trigger] batch.deep_view()[i],
                ),
        ensures
            (match checked {
                Ok(_) => None,
                Err(problem) => Some(problem.deep_view()),
            }) == batch_problem(self.configs(), batch.deep_view(), docs.deep_view()),
    {
        if docs.len() != batch.len() {
            return Err(BatchProblem::WrongCount { requested: batch.len(), parsed: docs.len() });
        }
        let ghost configs = self.configs();
        let ghost suites = batch.deep_view();
        let ghost answers = docs.deep_view();
        let mut i: usize = 0;
        assert(suites.skip(0) =~= suites);
        assert(answers.skip(0) =~= answers);
        while i < batch.len()
            invariant
                i <= batch@.len(),
                batch@.len() == docs@.len(),
                configs == self.configs(),
                suites == batch.deep_view(),
                answers == docs.deep_view(),
                forall|j: int|
                    0 <= j < suites.len() ==> has_suite_arg(configs, #[trigger] suites[j]),
                first_out_of_order(configs, suites, answers) == first_out_of_order(
                    configs,
                    suites.skip(i as int),
                    answers.skip(i as int),
                ),
            decreases batch@.len() - i,
        {
            assert(suites[i as int] == batch[i as int]@);
            assert(suites.skip(i as int).drop_first() =~= suites.skip(i + 1));
            assert(answers.skip(i as int).drop_first() =~= answers.skip(i + 1));
            let expected: &str = self.suite_arg(batch[i].as_str());
            if !str_eq(expected, docs[i].suite_name.as_str()) {
                return Err(
                    BatchProblem::OutOfOrder {
                        expected: expected.to_owned(),
                        actual: docs[i].suite_name.clone(),
                    },
                );
            }
            i += 1;
        }
        Ok(())
    }

    /// Remember the tests of several suites, if the answer lines up with the request. Otherwise
    /// nothing is remembered, rather than risk results under the wrong suite name.
    ///
    /// # Arguments
    ///
    /// * `batch` - Suites that were asked for.
    /// * `docs` - What resmoke answered.
    /// * `existing` - For each of the tests in the answer, is there such a file.
    ///
    /// # Returns
    ///
    /// The number of suites that are remembered, or why there are none.
    pub fn record_batch(
        &mut self,
        batch: &Vec<String>,
        docs: &Vec<TestDiscoveryOutput>,
        existing: &Vec<Vec<bool>>,
    ) -> (recorded: Result<usize, BatchProblem>)
        requires
            forall|i: int|
                0 <= i < batch@.len() ==> has_suite_arg(
                    old(self).configs(),
                    #[trigger] batch.deep_view()[i],
                ),
            flags_match(docs.deep_view(), existing.deep_view()),
        ensures
            final(self).same_setup(old(self)),
            final(self).suite_config_cache == old(self).suite_config_cache,
            match batch_problem(old(self).configs(), batch.deep_view(), docs.deep_view()) {
                Some(problem) => {
                    &&& recorded matches Err(e) && e.deep_view() == problem
                    &&& final(self).discovery_cache.deep_view() == old(
                        self,
                    ).discovery_cache.deep_view()
                },
                None => {
                    &&& recorded == Ok::<usize, BatchProblem>(batch.len())
                    &&& final(self).discovery_cache.deep_view() == seeded(
                        old(self).discovery_cache.deep_view(),
                        batch.deep_view(),
                        docs.deep_view(),
                        existing.deep_view(),
                    )
                },
            },
    {
        if let Err(problem) = self.check_batch(batch, docs) {
            return Err(problem);
        }
        let ghost start = *self;
        let ghost cache = self.discovery_cache.deep_view();
        let ghost suites = batch.deep_view();
        let ghost answers = docs.deep_view();
        let ghost flags = existing.deep_view();
        let mut i: usize = 0;
        while i < batch.len()
            invariant
                i <= batch@.len(),
                batch@.len() == docs@.len(),
                suites == batch.deep_view(),
                answers == docs.deep_view(),
                flags == existing.deep_view(),
                flags_match(answers, flags),
                self.same_setup(&start),
                self.suite_config_cache == start.suite_config_cache,
                self.discovery_cache.deep_view() == seeded(
                    cache,
                    suites.take(i as int),
                    answers.take(i as int),
                    flags.take(i as int),
                ),
            decreases batch@.len() - i,
        {
            assert(answers[i as int].tests.len() == flags[i as int].len());
            assert(flags[i as int] =~= existing[i as int]@);
            assert(suites.take(i + 1).drop_last() =~= suites.take(i as int));
            assert(answers.take(i + 1).drop_last() =~= answers.take(i as int));
            assert(flags.take(i + 1).drop_last() =~= flags.take(i as int));
            self.record_tests(batch[i].as_str(), &docs[i].tests, &existing[i]);
            i += 1;
        }
        assert(suites.take(i as int) =~= suites);
        assert(answers.take(i as int) =~= answers);
        assert(flags.take(i as int) =~= flags);
        Ok(batch.len())
    }

    /// Remember what came of asking for several suites, if it is of use. Nothing is remembered
    /// where resmoke failed, or where its answer could not be parsed or does not line up with the
    /// request.
    ///
    /// # Arguments
    ///
    /// * `batch` - Suites that were asked for.
    /// * `outcome` - What came of it.
    ///
    /// # Returns
    ///
    /// The number of suites that are remembered, or why there are none.
    pub fn record_outcome(&mut self, batch: &Vec<String>, outcome: &BatchOutcome) -> (recorded:
        Result<usize, BatchProblem>)
        requires
            forall|i: int|
                0 <= i < batch@.len() ==> has_suite_arg(
                    old(self).configs(),
                    #[trigger] batch.deep_view()[i],
                ),
            outcome_has_flags(outcome.deep_view()),
        ensures
            final(self).same_setup(old(self)),
            final(self).suite_config_cache == old(self).suite_config_cache,
            final(self).discovery_cache.deep_view() == after_batch(
                old(self).discovery_cache.deep_view(),
                old(self).configs(),
                batch.deep_view(),
                outcome.deep_view(),
            ),
            match outcome_problem(old(self).configs(), batch.deep_view(), outcome.deep_view()) {
                Some(problem) => recorded matches Err(e) && e.deep_view() == problem,
                None => recorded == Ok::<usize, BatchProblem>(batch.len()),
            },
    {
        match outcome {
            BatchOutcome::Failed => Err(BatchProblem::Failed),
            BatchOutcome::Unparsable => Err(BatchProblem::Unparsable),
            BatchOutcome::Parsed { docs, existing } => self.record_batch(batch, docs, existing),
        }
    }

    /// The configuration of a suite, if it has been queried before.
    ///
    /// # Arguments
    ///
    /// * `suite_name` - Name of test suite to query.
    pub fn cached_suite_config(&self, suite_name: &str) -> (config: Option<ResmokeSuiteConfig>)
        ensures
            config.deep_view() == (if self.suite_config_cache.deep_view().contains_key(
                suite_name@,
            ) {
                Some(self.suite_config_cache.deep_view()[suite_name@])
            } else {
                None
            }),
    {
        match self.suite_config_cache.get(suite_name) {
            Some(config) => Some(config.clone()),
            None => None,
        }
    }

    /// Remember the configuration of a suite.
    ///
    /// # Arguments
    ///
    /// * `suite_name` - Name of test suite that was queried.
    /// * `config` - Configuration of the suite.
    pub fn record_suite_config(&mut self, suite_name: &str, config: &ResmokeSuiteConfig)
        ensures
            final(self).same_setup(old(self)),
            final(self).discovery_cache == old(self).discovery_cache,
            final(self).suite_config_cache.deep_view() == old(
                self,
            ).suite_config_cache.deep_view().insert(suite_name@, config.deep_view()),
    {
        let ghost before = self.suite_config_cache.deep_view();
        let copy: ResmokeSuiteConfig = config.clone();
        self.suite_config_cache.insert(suite_name.to_owned(), copy);
        assert(self.suite_config_cache.deep_view() =~= before.insert(
            suite_name@,
            config.deep_view(),
        ));
    }
}

/// The number of batches that a number of suites is divided into.
pub open spec fn batch_count(suites: nat) -> int {
    (suites + BATCH_SIZE - 1) / (BATCH_SIZE as int)
}

/// The suites of a batch, given its number.
pub open spec fn batch_of(suites: Seq<Seq<char>>, k: int) -> Seq<Seq<char>> {
    let start = k * BATCH_SIZE;
    let end = (k + 1) * BATCH_SIZE;
    suites.subrange(start, if end < suites.len() { end } else { suites.len() as int })
}

/// Divide suites into batches that resmoke can be asked for at once.
///
/// # Arguments
///
/// * `suite_names` - Suites to divide.
pub fn discovery_batches(suite_names: &Vec<String>) -> (batches: Vec<Vec<String>>)
    ensures
        batches@.len() == batch_count(suite_names@.len()),
        forall|k: int|
            0 <= k < batches@.len() ==> #[trigger] batches.deep_view()[k] == batch_of(
                suite_names.deep_view(),
                k,
            ),
{
    let mut batches: Vec<Vec<String>> = Vec::new();
    let ghost all = suite_names.deep_view();
    let mut i: usize = 0;
    while i < suite_names.len()
        invariant
            i <= suite_names@.len(),
            all == suite_names.deep_view(),
            i == batches@.len() * BATCH_SIZE || i == all.len(),
            batches@.len() == (i + BATCH_SIZE - 1) / (BATCH_SIZE as int),
            forall|k: int|
                0 <= k < batches@.len() ==> (#[trigger] batches@[k]).deep_view() == batch_of(
                    all,
                    k,
                ),
        decreases suite_names@.len() - i,
    {
        let end: usize = if suite_names.len() - i < BATCH_SIZE {
            suite_names.len()
        } else {
            i + BATCH_SIZE
        };
        let mut batch: Vec<String> = Vec::new();
        let ghost start = i as int;
        while i < end
            invariant
                0 <= start <= i <= end,
                end <= suite_names@.len(),
                all == suite_names.deep_view(),
                batch.deep_view() == all.subrange(start, i as int),
            decreases end - i,
        {
            push_text(&mut batch, suite_names[i].as_str());
            i += 1;
            assert(batch.deep_view() =~= all.subrange(start, i as int));
        }
        assert(batch.deep_view() == batch_of(all, batches@.len() as int));
        batches.push(batch);
    }
    batches
}

/// Multiversion configuration.
#[derive(Debug, PartialEq)]
pub struct MultiversionConfig {
    /// Previous version of MongoDB to test against.
    pub last_versions: Vec<String>,
    /// Tags for required FCV version.
    pub requires_fcv_tag: String,
    /// Tags for last LTS FCV versions.
    pub requires_fcv_tag_lts: Option<String>,
    /// Tags for last continuous FCV versions.
    pub requires_fcv_tag_continuous: Option<String>,
}

impl MultiversionConfig {
    /// The required FCV tag for the lts version.
    pub open spec fn lts_tags(&self) -> Seq<char> {
        match self.requires_fcv_tag_lts {
            Some(tags) => tags@,
            None => self.requires_fcv_tag@,
        }
    }

    /// The required FCV tag for the continuous version.
    pub open spec fn continuous_tags(&self) -> Seq<char> {
        match self.requires_fcv_tag_continuous {
            Some(tags) => tags@,
            None => self.requires_fcv_tag@,
        }
    }

    /// Get the required FCV tag for the lts version.
    pub fn get_fcv_tags_for_lts(&self) -> (tags: String)
        ensures
            tags@ == self.lts_tags(),
    {
        match &self.requires_fcv_tag_lts {
            Some(tags) => tags.clone(),
            None => self.requires_fcv_tag.clone(),
        }
    }

    /// Get the required FCV tag for the continuous version.
    pub fn get_fcv_tags_for_continuous(&self) -> (tags: String)
        ensures
            tags@ == self.continuous_tags(),
    {
        match &self.requires_fcv_tag_continuous {
            Some(tags) => tags.clone(),
            None => self.requires_fcv_tag.clone(),
        }
    }

    /// Get the required FCV tag for the last patch version.
    ///
    /// `last_patch` runs against the latest patch release of the current version, whose FCV
    /// matches the version under test, so the default `requires_fcv_tag` set applies.
    pub fn get_fcv_tags_for_patch(&self) -> (tags: String)
        ensures
            tags@ == self.requires_fcv_tag@,
    {
        self.requires_fcv_tag.clone()
    }
}

} // verus!
