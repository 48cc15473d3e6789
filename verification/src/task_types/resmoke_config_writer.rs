//! Building and writing resmoke configuration files.
//!
//! Whoever writes the files asks a [`SuiteFileWriter`] what to do next, does it, and reports what
//! came of it. The work is handed to several workers in a round-robbin pattern.

use vstd::arithmetic::div_mod::{
    lemma_add_mod_noop_right, lemma_mod_self_0, lemma_mod_sub_multiples_vanish, lemma_small_mod,
};
use vstd::prelude::*;

use crate::resmoke::resmoke_suite::{reselected, ResmokeSuiteConfig, ResmokeSuiteConfigView};
use crate::task_types::resmoke_tasks::{ResmokeSuiteGenerationInfo, SubSuite, SubSuiteView};
use crate::utils::string_map::StringMap;
use crate::utils::task_name::{generated_task_name, name_generated_task};

verus! {

/// What the names of resmoke configuration files end with.
pub const SUITE_FILE_EXTENSION: &'static str = ".yml";

/// A cache for querying resmoke suite configurations.
pub struct ResmokeConfigCache {
    /// Resmoke suite configurations that have already been queried.
    pub resmoke_configs: StringMap<ResmokeSuiteConfig>,
}

impl DeepView for ResmokeConfigCache {
    type V = Map<Seq<char>, ResmokeSuiteConfigView>;

    open spec fn deep_view(&self) -> Map<Seq<char>, ResmokeSuiteConfigView> {
        self.resmoke_configs.deep_view()
    }
}

impl ResmokeConfigCache {
    /// Create a new instance of a cache.
    pub fn new() -> (cache: Self)
        ensures
            cache.deep_view() == Map::<Seq<char>, ResmokeSuiteConfigView>::empty(),
    {
        let cache = ResmokeConfigCache { resmoke_configs: StringMap::new() };
        assert(cache.deep_view() =~= Map::<Seq<char>, ResmokeSuiteConfigView>::empty());
        cache
    }

    /// Get the resmoke suite configuration for the given suite, if it has already been queried.
    ///
    /// # Arguments
    ///
    /// * `suite_name` - Name of suite to retrieve.
    ///
    /// # Returns
    ///
    /// Resmoke suite configuration for given suite.
    pub fn get_config(&self, suite_name: &str) -> (config: Option<&ResmokeSuiteConfig>)
        ensures
            config.deep_view() == (if self.deep_view().contains_key(suite_name@) {
                Some(self.deep_view()[suite_name@])
            } else {
                None
            }),
    {
        self.resmoke_configs.get(suite_name)
    }

    /// Keep a resmoke suite configuration that has been queried.
    ///
    /// # Arguments
    ///
    /// * `suite_name` - Name of suite that was queried.
    /// * `config` - Resmoke suite configuration for given suite.
    pub fn record_config(&mut self, suite_name: &str, config: ResmokeSuiteConfig)
        ensures
            final(self).deep_view() == old(self).deep_view().insert(
                suite_name@,
                config.deep_view(),
            ),
    {
        let ghost before = self.deep_view();
        self.resmoke_configs.insert(suite_name.to_owned(), config);
        assert(self.deep_view() =~= before.insert(suite_name@, config.deep_view()));
    }
}

/// The name of the configuration file of a sub-suite.
pub open spec fn suite_file_name(sub_suite: SubSuiteView, total_tasks: nat) -> Seq<char> {
    generated_task_name(sub_suite.name, sub_suite.index, total_tasks, sub_suite.is_enterprise)
        + SUITE_FILE_EXTENSION@
}

/// The configuration of a sub-suite: its tests, or for the '_misc' sub-task all but the excluded
/// tests of the suite it is based on.
pub open spec fn suite_file_config(
    sub_suite: SubSuiteView,
    origin: ResmokeSuiteConfigView,
) -> ResmokeSuiteConfigView {
    ResmokeSuiteConfigView {
        selector: match sub_suite.exclude_test_list {
            Some(excluded) => reselected(origin.selector, None, Some(excluded)),
            None => reselected(origin.selector, Some(sub_suite.test_list), None),
        },
        ..origin
    }
}

/// The positions among the first `n` sub-suites of those with, or of those without, tests to exclude.
pub open spec fn positions_of(sub_suites: Seq<SubSuiteView>, misc: bool, n: int) -> Seq<usize>
    decreases n,
{
    if n <= 0 {
        Seq::empty()
    } else {
        let rest = positions_of(sub_suites, misc, n - 1);
        if sub_suites[n - 1].exclude_test_list is Some == misc {
            rest.push((n - 1) as usize)
        } else {
            rest
        }
    }
}

/// The order in which the configuration files are written: the '_misc' sub-tasks come last.
pub open spec fn write_order(sub_suites: Seq<SubSuiteView>) -> Seq<usize> {
    let n = sub_suites.len() as int;
    positions_of(sub_suites, false, n) + positions_of(sub_suites, true, n)
}

/// Each position is one of a sub-suite of its sort.
proof fn lemma_positions_in_range(sub_suites: Seq<SubSuiteView>, misc: bool, n: int, k: int)
    requires
        0 <= n <= sub_suites.len() <= usize::MAX,
        0 <= k < positions_of(sub_suites, misc, n).len(),
    ensures
        positions_of(sub_suites, misc, n)[k] < n,
        sub_suites[positions_of(sub_suites, misc, n)[k] as int].exclude_test_list is Some == misc,
    decreases n,
{
    if n > 0 {
        let rest = positions_of(sub_suites, misc, n - 1);
        if k < rest.len() {
            lemma_positions_in_range(sub_suites, misc, n - 1, k);
        }
    }
}

/// What to do next to write the configuration files of a task.
pub enum WriterAction {
    /// Query the configuration of a suite.
    QueryConfig { suite: String },
    /// Write a configuration file.
    WriteFile { file_name: String, config: ResmokeSuiteConfig },
    /// All files are written.
    Done,
}

/// What a [`WriterAction`] holds.
pub enum WriterActionView {
    QueryConfig { suite: Seq<char> },
    WriteFile { file_name: Seq<char>, config: ResmokeSuiteConfigView },
    Done,
}

impl DeepView for WriterAction {
    type V = WriterActionView;

    open spec fn deep_view(&self) -> WriterActionView {
        match self {
            WriterAction::QueryConfig { suite } => WriterActionView::QueryConfig { suite: suite@ },
            WriterAction::WriteFile { file_name, config } => WriterActionView::WriteFile {
                file_name: file_name@,
                config: config.deep_view(),
            },
            WriterAction::Done => WriterActionView::Done,
        }
    }
}

/// Writes the configuration files of a generated task.
pub struct SuiteFileWriter {
    suite_info: ResmokeSuiteGenerationInfo,
    order: Vec<usize>,
    written: usize,
    cache: ResmokeConfigCache,
}

impl SuiteFileWriter {
    #[verifier::type_invariant]
    spec fn is_consistent(self) -> bool {
        &&& self.order@ == write_order(self.sub_suites())
        &&& self.written <= self.order@.len()
        &&& forall|k: int|
            0 <= k < self.order@.len() ==> (#[trigger] self.order@[k])
                < self.suite_info.sub_suites@.len()
    }

    /// The name of the generated task.
    pub closed spec fn task_name(&self) -> Seq<char> {
        self.suite_info.task_name@
    }

    /// The sub-suites to write files for.
    pub closed spec fn sub_suites(&self) -> Seq<SubSuiteView> {
        self.suite_info.sub_suites.deep_view()
    }

    /// How many files have been written.
    pub closed spec fn written(&self) -> nat {
        self.written as nat
    }

    /// The configurations of suites that have been queried.
    pub closed spec fn configs(&self) -> Map<Seq<char>, ResmokeSuiteConfigView> {
        self.cache.deep_view()
    }

    /// The sub-suite whose file is to be written next.
    pub open spec fn current(&self) -> SubSuiteView {
        self.sub_suites()[write_order(self.sub_suites())[self.written() as int] as int]
    }

    /// What to do next.
    pub open spec fn action(&self) -> WriterActionView {
        if self.written() >= write_order(self.sub_suites()).len() {
            WriterActionView::Done
        } else if self.configs().contains_key(self.current().origin_suite) {
            WriterActionView::WriteFile {
                file_name: suite_file_name(self.current(), self.sub_suites().len()),
                config: suite_file_config(
                    self.current(),
                    self.configs()[self.current().origin_suite],
                ),
            }
        } else {
            WriterActionView::QueryConfig { suite: self.current().origin_suite }
        }
    }

    /// Start to write the configuration files of a generated task.
    ///
    /// # Arguments
    ///
    /// * `suite_info` - Details about the suite that was generated.
    pub fn new(suite_info: ResmokeSuiteGenerationInfo) -> (writer: Self)
        ensures
            writer.task_name() == suite_info.task_name@,
            writer.sub_suites() == suite_info.sub_suites.deep_view(),
            writer.written() == 0,
            writer.configs() == Map::<Seq<char>, ResmokeSuiteConfigView>::empty(),
    {
        let ghost sub_suites = suite_info.sub_suites.deep_view();
        let mut order: Vec<usize> = find_positions(&suite_info.sub_suites, false);
        let mut misc: Vec<usize> = find_positions(&suite_info.sub_suites, true);
        order.append(&mut misc);
        proof {
            let n = sub_suites.len() as int;
            assert(n == suite_info.sub_suites.len());
            let first = positions_of(sub_suites, false, n);
            let second = positions_of(sub_suites, true, n);
            assert(order@ =~= write_order(sub_suites));
            assert forall|k: int| 0 <= k < order@.len() implies (#[trigger] order@[k]) < n by {
                if k < first.len() {
                    lemma_positions_in_range(sub_suites, false, n, k);
                } else {
                    lemma_positions_in_range(sub_suites, true, n, k - first.len());
                    assert(order@[k] == second[k - first.len()]);
                }
            }
        }
        SuiteFileWriter { suite_info, order, written: 0, cache: ResmokeConfigCache::new() }
    }

    /// Find out what to do next.
    pub fn next_action(&self) -> (action: WriterAction)
        ensures
            action.deep_view() == self.action(),
    {
        proof {
            use_type_invariant(self);
        }
        if self.written >= self.order.len() {
            return WriterAction::Done;
        }
        let sub_suite: &SubSuite = &self.suite_info.sub_suites[self.order[self.written]];
        assert(sub_suite.deep_view() == self.current());
        match self.cache.get_config(sub_suite.origin_suite.as_str()) {
            Some(origin) => {
                let config: ResmokeSuiteConfig = match &sub_suite.exclude_test_list {
                    Some(excluded) => origin.with_new_tests(None, Some(excluded)),
                    None => origin.with_new_tests(Some(&sub_suite.test_list), None),
                };
                let mut file_name: String = name_generated_task(
                    sub_suite.name.as_str(),
                    sub_suite.index,
                    self.suite_info.sub_suites.len(),
                    sub_suite.is_enterprise,
                );
                file_name.append(SUITE_FILE_EXTENSION);
                WriterAction::WriteFile { file_name, config }
            },
            None => WriterAction::QueryConfig { suite: sub_suite.origin_suite.clone() },
        }
    }

    /// Report the configuration of a suite that was queried.
    ///
    /// # Arguments
    ///
    /// * `suite` - Name of suite that was queried.
    /// * `config` - Resmoke suite configuration for given suite.
    pub fn record_config(&mut self, suite: &str, config: ResmokeSuiteConfig)
        ensures
            final(self).task_name() == old(self).task_name(),
            final(self).sub_suites() == old(self).sub_suites(),
            final(self).written() == old(self).written(),
            final(self).configs() == old(self).configs().insert(suite@, config.deep_view()),
    {
        proof {
            use_type_invariant(&*self);
        }
        let mut cache = ResmokeConfigCache::new();
        std::mem::swap(&mut cache, &mut self.cache);
        cache.record_config(suite, config);
        self.cache = cache;
    }

    /// Report that the file that was due has been written.
    pub fn file_written(&mut self)
        requires
            old(self).action() is WriteFile,
        ensures
            final(self).task_name() == old(self).task_name(),
            final(self).sub_suites() == old(self).sub_suites(),
            final(self).written() == old(self).written() + 1,
            final(self).configs() == old(self).configs(),
    {
        proof {
            use_type_invariant(&*self);
            assert(self.written < self.order.len());
        }
        self.written = self.written + 1;
    }

    /// The text in which an error on the way is reported.
    ///
    /// # Arguments
    ///
    /// * `error` - What went wrong.
    pub fn error_text(&self, error: &str) -> (text: String)
        ensures
            text@ == "ERROR: "@ + self.task_name() + ": "@ + error@,
    {
        let mut text: String = "ERROR: ".to_owned();
        text.append(self.suite_info.task_name.as_str());
        text.append(": ");
        text.append(error);
        text
    }
}

/// Find the positions of the sub-suites with, or of those without, tests to exclude.
fn find_positions(sub_suites: &Vec<SubSuite>, misc: bool) -> (positions: Vec<usize>)
    ensures
        positions@ == positions_of(
            sub_suites.deep_view(),
            misc,
            sub_suites.deep_view().len() as int,
        ),
{
    let ghost all = sub_suites.deep_view();
    let mut positions: Vec<usize> = Vec::new();
    let mut i: usize = 0;
    while i < sub_suites.len()
        invariant
            i <= sub_suites@.len(),
            all == sub_suites.deep_view(),
            positions@ == positions_of(all, misc, i as int),
        decreases sub_suites@.len() - i,
    {
        assert(all[i as int] == sub_suites[i as int].deep_view());
        if sub_suites[i].exclude_test_list.is_some() == misc {
            positions.push(i);
        }
        i += 1;
    }
    positions
}

/// Hands out work to a number of workers in turn.
pub struct RoundRobbin {
    /// Next worker to hand work to.
    pub index: usize,
    /// Number of workers.
    pub n_workers: usize,
}

impl RoundRobbin {
    /// Start with the first of the given number of workers.
    pub fn new(n_workers: usize) -> (turns: Self)
        ensures
            turns.index == 0,
            turns.n_workers == n_workers,
    {
        RoundRobbin { index: 0, n_workers }
    }

    /// Find the worker whose turn it is, and move on to the one after it.
    pub fn next(&mut self) -> (worker: usize)
        requires
            old(self).index < old(self).n_workers,
        ensures
            worker == old(self).index,
            final(self).n_workers == old(self).n_workers,
            final(self).index == (old(self).index + 1) % (old(self).n_workers as int),
            final(self).index < final(self).n_workers,
    {
        let worker: usize = self.index;
        self.index = if worker + 1 == self.n_workers {
            0
        } else {
            worker + 1
        };
        proof {
            let n = self.n_workers as int;
            if worker + 1 == n {
                lemma_mod_self_0(n);
            } else {
                lemma_small_mod((worker + 1) as nat, n as nat);
            }
        }
        worker
    }
}

/// A sub-suite of a sort has exactly one place among the positions of its sort.
proof fn lemma_positions_complete(sub_suites: Seq<SubSuiteView>, misc: bool, n: int, p: int)
    requires
        0 <= p < n <= sub_suites.len() <= usize::MAX,
        sub_suites[p].exclude_test_list is Some == misc,
    ensures
        exists|k: int|
            0 <= k < positions_of(sub_suites, misc, n).len() && #[trigger] positions_of(
                sub_suites,
                misc,
                n,
            )[k] == p,
    decreases n,
{
    let rest = positions_of(sub_suites, misc, n - 1);
    let all = positions_of(sub_suites, misc, n);
    if p == n - 1 {
        assert(all[rest.len() as int] == p);
    } else {
        lemma_positions_complete(sub_suites, misc, n - 1, p);
        let k = choose|k: int| 0 <= k < rest.len() && #[trigger] rest[k] == p;
        assert(all[k] == p);
    }
}

/// The positions of a sort ascend.
proof fn lemma_positions_ascend(sub_suites: Seq<SubSuiteView>, misc: bool, n: int, j: int, k: int)
    requires
        0 <= n <= sub_suites.len() <= usize::MAX,
        0 <= j < k < positions_of(sub_suites, misc, n).len(),
    ensures
        positions_of(sub_suites, misc, n)[j] < positions_of(sub_suites, misc, n)[k],
    decreases n,
{
    let rest = positions_of(sub_suites, misc, n - 1);
    if k < rest.len() {
        lemma_positions_ascend(sub_suites, misc, n - 1, j, k);
    } else {
        lemma_positions_in_range(sub_suites, misc, n - 1, j);
    }
}

/// Each sub-suite gets one configuration file, and the files of the '_misc' sub-tasks come last.
pub proof fn law_each_sub_suite_is_written_once(sub_suites: Seq<SubSuiteView>)
    requires
        sub_suites.len() <= usize::MAX,
    ensures
        write_order(sub_suites).no_duplicates(),
        forall|k: int|
            0 <= k < write_order(sub_suites).len() ==> (#[trigger] write_order(sub_suites)[k])
                < sub_suites.len(),
        forall|p: usize|
            p < sub_suites.len() ==> #[trigger] write_order(sub_suites).contains(p),
        forall|j: int, k: int|
            0 <= j < k < write_order(sub_suites).len() && sub_suites[(
            #[trigger] write_order(sub_suites)[j]) as int].exclude_test_list is Some ==> sub_suites[(
            #[trigger] write_order(sub_suites)[k]) as int].exclude_test_list is Some,
{
    let n = sub_suites.len() as int;
    let first = positions_of(sub_suites, false, n);
    let second = positions_of(sub_suites, true, n);
    let order = write_order(sub_suites);
    assert forall|k: int| 0 <= k < order.len() implies (#[trigger] order[k]) < n && sub_suites[
        order[k] as int
    ].exclude_test_list is Some == (k >= first.len()) by {
        if k < first.len() {
            lemma_positions_in_range(sub_suites, false, n, k);
        } else {
            lemma_positions_in_range(sub_suites, true, n, k - first.len());
            assert(order[k] == second[k - first.len()]);
        }
    }
    assert forall|j: int, k: int| 0 <= j < k < order.len() implies #[trigger] order[j]
        != #[trigger] order[k] by {
        if k < first.len() {
            lemma_positions_ascend(sub_suites, false, n, j, k);
        } else if j >= first.len() {
            lemma_positions_ascend(sub_suites, true, n, j - first.len(), k - first.len());
            assert(order[j] == second[j - first.len()]);
            assert(order[k] == second[k - first.len()]);
        }
    }
    assert forall|p: usize| p < sub_suites.len() implies #[trigger] order.contains(p) by {
        let misc = sub_suites[p as int].exclude_test_list is Some;
        lemma_positions_complete(sub_suites, misc, n, p as int);
        if misc {
            let k = choose|k: int| 0 <= k < second.len() && #[trigger] second[k] == p;
            assert(order[first.len() + k] == p);
        } else {
            let k = choose|k: int| 0 <= k < first.len() && #[trigger] first[k] == p;
            assert(order[k] == p);
        }
    }
}

/// A suite whose configuration has been queried is not queried again.
pub proof fn law_configs_are_queried_once(writer: SuiteFileWriter, suite: Seq<char>)
    requires
        writer.configs().contains_key(suite),
    ensures
        writer.action() != (WriterActionView::QueryConfig { suite }),
{
}

/// The workers take turns: a worker has its next turn when all the others have had theirs.
pub proof fn law_workers_take_turns(index: int, n_workers: int, turns: int)
    requires
        0 <= index < n_workers,
        0 <= turns,
    ensures
        turn_after(index, n_workers, turns) == (index + turns) % n_workers,
        0 < turns < n_workers ==> turn_after(index, n_workers, turns) != index,
        turns == n_workers ==> turn_after(index, n_workers, turns) == index,
    decreases turns,
{
    if turns > 0 {
        law_workers_take_turns(index, n_workers, turns - 1);
        lemma_add_mod_noop_right(1, index + turns - 1, n_workers);
    } else {
        lemma_small_mod(index as nat, n_workers as nat);
    }
    if turns < n_workers {
        if index + turns < n_workers {
            lemma_small_mod((index + turns) as nat, n_workers as nat);
        } else {
            lemma_mod_sub_multiples_vanish(index + turns, n_workers);
            lemma_small_mod((index + turns - n_workers) as nat, n_workers as nat);
        }
    } else if turns == n_workers {
        lemma_mod_sub_multiples_vanish(index + turns, n_workers);
        lemma_small_mod(index as nat, n_workers as nat);
    }
}

/// The worker whose turn it is after a number of turns.
pub open spec fn turn_after(index: int, n_workers: int, turns: int) -> int
    decreases turns,
{
    if turns <= 0 {
        index
    } else {
        (turn_after(index, n_workers, turns - 1) + 1) % n_workers
    }
}

} // verus!
