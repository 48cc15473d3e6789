//! Generating only some of the tasks.

use vstd::arithmetic::div_mod::{
    lemma_div_basics, lemma_div_is_ordered_by_denominator, lemma_fundamental_div_mod,
};
use vstd::prelude::*;

use crate::evergreen::evg_config_utils::{
    MultiversionGenerateTaskConfig, MultiversionGenerateTaskConfigView,
};
use crate::evergreen::model::BuildVariantView;
use crate::task_types::fuzzer_tasks::{
    fuzzer_tasks, multiversion_fuzzer_tasks, FuzzerGenTaskParams, FuzzerGenTaskParamsView,
};
use crate::task_types::resmoke_tasks::{
    all_sub_suites, can_create, multiversion_sub_suites, sub_suites_for, subtask_count,
    suites_needed, total_runtime, GenResmokeConfig, GeneratedResmokeSuite,
    GeneratedResmokeSuiteView, ResmokeGenParams, ResmokeGenParamsView, SubtaskLimits, SuiteTests,
};
use crate::task_types::test_splitting_laws::law_split_keeps_tests;
use crate::utils::task_name::{remove_gen_suffix, without_gen_suffix};
use crate::utils::text::str_eq;

verus! {

/// The tasks to generate, if not all of them.
#[derive(Debug, Default)]
pub struct TaskTargets {
    /// Name of the only build variant to generate tasks for.
    pub variant: Option<String>,
    /// Name of the only task to generate, with or without the suffix of generating tasks.
    pub task: Option<String>,
}

/// What a [`TaskTargets`] holds.
pub struct TaskTargetsView {
    pub variant: Option<Seq<char>>,
    pub task: Option<Seq<char>>,
}

impl DeepView for TaskTargets {
    type V = TaskTargetsView;

    open spec fn deep_view(&self) -> TaskTargetsView {
        TaskTargetsView { variant: self.variant.deep_view(), task: self.task.deep_view() }
    }
}

/// The task of the build variant is one to generate.
pub open spec fn is_target(
    targets: TaskTargetsView,
    variant_name: Seq<char>,
    task_name: Seq<char>,
) -> bool {
    &&& targets.variant matches Some(variant) ==> variant_name == variant
    &&& targets.task matches Some(task) ==> task_name == task || without_gen_suffix(task_name)
        == task
}

impl TaskTargets {
    /// Is the task of the build variant one to generate?
    ///
    /// # Arguments
    ///
    /// * `variant_name` - Name of build variant that runs the task.
    /// * `task_name` - Name of task.
    pub fn wants(&self, variant_name: &str, task_name: &str) -> (wanted: bool)
        ensures
            wanted == is_target(self.deep_view(), variant_name@, task_name@),
    {
        if let Some(variant) = &self.variant {
            if !str_eq(variant_name, variant.as_str()) {
                return false;
            }
        }
        if let Some(task) = &self.task {
            return str_eq(task_name, task.as_str()) || str_eq(
                remove_gen_suffix(task_name),
                task.as_str(),
            );
        }
        true
    }
}

/// How many tasks may still be generated, if there is a limit.
#[derive(Debug, PartialEq)]
pub struct TaskBudget {
    /// The number of tasks that may still be generated.
    pub remaining: Option<usize>,
}

/// How many of `suites` suites tasks are generated for, where `remaining` tasks may be generated.
pub open spec fn kept_suites(suites: nat, remaining: nat) -> nat {
    if suites < remaining {
        suites
    } else {
        remaining
    }
}

/// How many tasks each of `suites` suites may have, where `remaining` tasks may be generated.
pub open spec fn share(suites: nat, remaining: nat) -> nat {
    if kept_suites(suites, remaining) == 0 {
        0
    } else {
        remaining / kept_suites(suites, remaining)
    }
}

/// The smaller number.
pub open spec fn at_most(n: int, limit: nat) -> int {
    if n < limit {
        n
    } else {
        limit as int
    }
}

/// The first of the multiversion tasks, as many as tasks may be generated for.
pub open spec fn kept_tasks(
    tasks: Option<Seq<MultiversionGenerateTaskConfigView>>,
    remaining: nat,
) -> Option<Seq<MultiversionGenerateTaskConfigView>> {
    match tasks {
        Some(tasks) => Some(tasks.take(kept_suites(tasks.len(), remaining) as int)),
        None => None,
    }
}

/// How many tasks each suite of a task may have.
pub open spec fn share_of(
    multiversion: bool,
    tasks: Option<Seq<MultiversionGenerateTaskConfigView>>,
    remaining: nat,
) -> nat {
    match tasks {
        Some(tasks) if multiversion => share(tasks.len(), remaining),
        _ => remaining,
    }
}

/// The parameters of a fuzzer that stays within what may still be generated.
pub open spec fn capped_fuzzer(
    params: FuzzerGenTaskParamsView,
    remaining: nat,
) -> FuzzerGenTaskParamsView {
    FuzzerGenTaskParamsView {
        multiversion_generate_tasks: if params.require_multiversion_setup {
            kept_tasks(params.multiversion_generate_tasks, remaining)
        } else {
            params.multiversion_generate_tasks
        },
        num_tasks: at_most(
            params.num_tasks as int,
            share_of(
                params.require_multiversion_setup,
                params.multiversion_generate_tasks,
                remaining,
            ),
        ) as u64,
        ..params
    }
}

/// The parameters of a resmoke task that stays within what may still be generated.
pub open spec fn capped_resmoke(
    params: ResmokeGenParamsView,
    remaining: nat,
) -> ResmokeGenParamsView {
    ResmokeGenParamsView {
        multiversion_generate_tasks: if params.require_multiversion_generate_tasks {
            kept_tasks(params.multiversion_generate_tasks, remaining)
        } else {
            params.multiversion_generate_tasks
        },
        num_tasks: match params.num_tasks {
            Some(num_tasks) => Some(
                at_most(
                    num_tasks as int,
                    share_of(
                        params.require_multiversion_generate_tasks,
                        params.multiversion_generate_tasks,
                        remaining,
                    ),
                ) as usize,
            ),
            None => None,
        },
        ..params
    }
}

/// A generated suite with its first sub-tasks, as many as may still be generated.
pub open spec fn capped_suite(
    suite: GeneratedResmokeSuiteView,
    remaining: nat,
) -> GeneratedResmokeSuiteView {
    GeneratedResmokeSuiteView {
        sub_suites: suite.sub_suites.take(at_most(suite.sub_suites.len() as int, remaining)),
        ..suite
    }
}

/// How many tasks may still be generated after some were.
pub open spec fn remaining_after(max_tasks: nat, used: Seq<nat>) -> nat
    decreases used.len(),
{
    if used.len() == 0 {
        max_tasks
    } else {
        let remaining = remaining_after(max_tasks, used.drop_last());
        if used.last() < remaining {
            (remaining - used.last()) as nat
        } else {
            0
        }
    }
}

/// How many tasks have been generated altogether.
pub open spec fn total_used(used: Seq<nat>) -> nat
    decreases used.len(),
{
    if used.len() == 0 {
        0
    } else {
        total_used(used.drop_last()) + used.last()
    }
}

/// The limits under which each suite of a task has no more than `share` sub-tasks.
pub open spec fn capped_limits(limits: SubtaskLimits, share: nat) -> SubtaskLimits {
    SubtaskLimits {
        default_subtasks_per_task: at_most(
            limits.default_subtasks_per_task as int,
            share,
        ) as usize,
        max_subtasks_per_task: at_most(limits.max_subtasks_per_task as int, share) as usize,
        ..limits
    }
}

/// How many tasks each of a number of suites may have.
fn find_share(suites: usize, remaining: usize) -> (found: usize)
    ensures
        found == share(suites as nat, remaining as nat),
        found <= remaining,
{
    let kept: usize = if suites < remaining {
        suites
    } else {
        remaining
    };
    if kept == 0 {
        0
    } else {
        proof {
            lemma_div_is_ordered_by_denominator(remaining as int, 1, kept as int);
            lemma_div_basics(remaining as int);
        }
        remaining / kept
    }
}

impl TaskBudget {
    /// Start with the number of tasks that may be generated, if there is a limit.
    pub fn new(max_tasks: Option<usize>) -> (budget: Self)
        ensures
            budget.remaining == max_tasks,
    {
        TaskBudget { remaining: max_tasks }
    }

    /// May no more tasks be generated?
    pub fn is_spent(&self) -> (spent: bool)
        ensures
            spent == (self.remaining == Some(0usize)),
    {
        match self.remaining {
            Some(remaining) => remaining == 0,
            None => false,
        }
    }

    /// Take account of tasks that have been generated.
    ///
    /// # Arguments
    ///
    /// * `used` - Number of tasks that have been generated.
    pub fn spend(&mut self, used: usize)
        ensures
            final(self).remaining == (match old(self).remaining {
                Some(remaining) => Some(
                    remaining_after(remaining as nat, seq![used as nat]) as usize,
                ),
                None => None,
            }),
    {
        reveal_with_fuel(remaining_after, 2);
        assert(seq![used as nat].drop_last() =~= Seq::<nat>::empty());
        if let Some(remaining) = self.remaining {
            self.remaining = Some(
                if used < remaining {
                    remaining - used
                } else {
                    0
                },
            );
        }
    }

    /// Keep a fuzzer within what may still be generated.
    ///
    /// # Arguments
    ///
    /// * `params` - Parameters for how fuzzer should be generated.
    pub fn cap_fuzzer(&self, params: &mut FuzzerGenTaskParams)
        ensures
            final(params).deep_view() == (match self.remaining {
                Some(remaining) => capped_fuzzer(old(params).deep_view(), remaining as nat),
                None => old(params).deep_view(),
            }),
    {
        let ghost before = params.deep_view();
        if let Some(remaining) = self.remaining {
            let mut limit: usize = remaining;
            if params.require_multiversion_setup {
                limit = keep_tasks(&mut params.multiversion_generate_tasks, remaining);
            }
            if params.num_tasks >= limit as u64 {
                params.num_tasks = limit as u64;
            }
            assert(params.deep_view() == capped_fuzzer(before, remaining as nat));
        }
    }

    /// Keep generated burn_in within what may still be generated.
    ///
    /// # Arguments
    ///
    /// * `suite` - Suite that has been generated.
    pub fn cap_burn_in(&self, suite: &mut GeneratedResmokeSuite)
        ensures
            final(suite).deep_view() == (match self.remaining {
                Some(remaining) => capped_suite(old(suite).deep_view(), remaining as nat),
                None => old(suite).deep_view(),
            }),
    {
        let ghost before = suite.deep_view();
        if let Some(remaining) = self.remaining {
            if suite.sub_suites.len() >= remaining {
                suite.sub_suites.truncate(remaining);
            }
            assert(suite.sub_suites.deep_view() =~= capped_suite(
                before,
                remaining as nat,
            ).sub_suites);
        }
    }

    /// Keep a resmoke task within what may still be generated.
    ///
    /// # Arguments
    ///
    /// * `params` - Parameters for how task should be generated.
    /// * `limits` - How many sub-tasks to generate for a task.
    ///
    /// # Returns
    ///
    /// How many sub-tasks to generate for the task.
    pub fn cap_resmoke(&self, params: &mut ResmokeGenParams, limits: SubtaskLimits) -> (capped:
        SubtaskLimits)
        ensures
            match self.remaining {
                Some(remaining) => {
                    &&& final(params).deep_view() == capped_resmoke(
                        old(params).deep_view(),
                        remaining as nat,
                    )
                    &&& capped == capped_limits(
                        limits,
                        share_of(
                            old(params).require_multiversion_generate_tasks,
                            old(params).deep_view().multiversion_generate_tasks,
                            remaining as nat,
                        ),
                    )
                },
                None => final(params).deep_view() == old(params).deep_view() && capped == limits,
            },
    {
        let ghost before = params.deep_view();
        match self.remaining {
            Some(remaining) => {
                let mut limit: usize = remaining;
                if params.require_multiversion_generate_tasks {
                    limit = keep_tasks(&mut params.multiversion_generate_tasks, remaining);
                }
                if let Some(num_tasks) = params.num_tasks {
                    if num_tasks >= limit {
                        params.num_tasks = Some(limit);
                    }
                }
                assert(params.deep_view() == capped_resmoke(before, remaining as nat));
                SubtaskLimits {
                    test_runtime_per_required_subtask: limits.test_runtime_per_required_subtask,
                    large_required_task_runtime_threshold:
                        limits.large_required_task_runtime_threshold,
                    default_subtasks_per_task: if limits.default_subtasks_per_task < limit {
                        limits.default_subtasks_per_task
                    } else {
                        limit
                    },
                    max_subtasks_per_task: if limits.max_subtasks_per_task < limit {
                        limits.max_subtasks_per_task
                    } else {
                        limit
                    },
                }
            },
            None => limits,
        }
    }
}

/// Keep as many multiversion tasks as tasks may be generated for.
///
/// # Returns
///
/// How many tasks each of their suites may have.
fn keep_tasks(tasks: &mut Option<Vec<MultiversionGenerateTaskConfig>>, remaining: usize) -> (limit:
    usize)
    ensures
        final(tasks).deep_view() == kept_tasks(old(tasks).deep_view(), remaining as nat),
        limit == share_of(true, old(tasks).deep_view(), remaining as nat),
        limit <= remaining,
{
    let ghost before = tasks.deep_view();
    match tasks.take() {
        Some(mut list) => {
            let ghost all = list.deep_view();
            let limit: usize = find_share(list.len(), remaining);
            if list.len() >= remaining {
                list.truncate(remaining);
            }
            assert(list.deep_view() =~= all.take(
                kept_suites(all.len(), remaining as nat) as int,
            ));
            *tasks = Some(list);
            limit
        },
        None => remaining,
    }
}

/// A fuzzer that is kept within what may still be generated has no more sub-tasks than that.
pub proof fn law_capped_fuzzer_fits(params: FuzzerGenTaskParamsView, remaining: usize)
    requires
        params.require_multiversion_setup ==> params.multiversion_generate_tasks is Some,
    ensures
        fuzzer_tasks(capped_fuzzer(params, remaining as nat)).len() <= remaining,
{
    let capped = capped_fuzzer(params, remaining as nat);
    let limit = share_of(
        params.require_multiversion_setup,
        params.multiversion_generate_tasks,
        remaining as nat,
    );
    if params.require_multiversion_setup {
        let tasks = params.multiversion_generate_tasks.unwrap();
        let kept = kept_suites(tasks.len(), remaining as nat);
        lemma_shares_fit(tasks.len(), remaining as nat);
        lemma_fuzzer_tasks_fit(capped, tasks.take(kept as int), limit);
    }
}

/// Burn_in that is kept within what may still be generated has no more sub-tasks than that, and all
/// that it has if they fit.
pub proof fn law_capped_burn_in_fits(suite: GeneratedResmokeSuiteView, remaining: usize)
    ensures
        capped_suite(suite, remaining as nat).sub_suites.len() <= remaining,
        suite.sub_suites.len() <= remaining ==> capped_suite(suite, remaining as nat) == suite,
{
    if suite.sub_suites.len() <= remaining {
        assert(suite.sub_suites.take(suite.sub_suites.len() as int) =~= suite.sub_suites);
    }
}

/// If each step generates no more tasks than may still be generated, then all of them together stay
/// within the limit.
pub proof fn law_task_limit_is_kept(max_tasks: nat, used: Seq<nat>)
    requires
        forall|i: int|
            0 <= i < used.len() ==> #[trigger] used[i] <= remaining_after(max_tasks, used.take(i)),
    ensures
        total_used(used) <= max_tasks,
        remaining_after(max_tasks, used) == max_tasks - total_used(used),
    decreases used.len(),
{
    if used.len() > 0 {
        let rest = used.drop_last();
        assert forall|i: int| 0 <= i < rest.len() implies #[trigger] rest[i] <= remaining_after(
            max_tasks,
            rest.take(i),
        ) by {
            assert(rest[i] == used[i]);
            assert(rest.take(i) =~= used.take(i));
        }
        law_task_limit_is_kept(max_tasks, rest);
        assert(used[used.len() - 1] == used.last());
        assert(used.take(used.len() - 1) =~= rest);
    }
}

/// The shares of the suites together stay within what may still be generated.
proof fn lemma_shares_fit(suites: nat, remaining: nat)
    ensures
        kept_suites(suites, remaining) * share(suites, remaining) <= remaining,
        share(suites, remaining) <= remaining,
{
    let kept = kept_suites(suites, remaining) as int;
    if kept > 0 {
        lemma_fundamental_div_mod(remaining as int, kept);
        lemma_div_is_ordered_by_denominator(remaining as int, 1, kept);
        lemma_div_basics(remaining as int);
    }
}

/// The sub-tasks of a multiversion fuzzer are as many as its suites have together.
proof fn lemma_fuzzer_tasks_fit(
    params: FuzzerGenTaskParamsView,
    configs: Seq<MultiversionGenerateTaskConfigView>,
    limit: nat,
)
    requires
        params.num_tasks <= limit <= usize::MAX,
    ensures
        multiversion_fuzzer_tasks(params, configs).len() <= configs.len() * limit,
    decreases configs.len(),
{
    if configs.len() > 0 {
        lemma_fuzzer_tasks_fit(params, configs.drop_last(), limit);
        assert((configs.len() - 1) * limit + limit == configs.len() * limit) by (nonlinear_arith);
    }
}

/// A suite that is split under limits gets no more sub-suites than they allow.
proof fn lemma_sub_suites_fit(
    config: GenResmokeConfig,
    limits: SubtaskLimits,
    params: ResmokeGenParamsView,
    variant: BuildVariantView,
    tests: SuiteTests,
    name: Option<Seq<char>>,
    tags: Option<Seq<char>>,
    limit: nat,
)
    requires
        limits.default_subtasks_per_task <= limit,
        limits.max_subtasks_per_task <= limit,
        params.num_tasks matches Some(num_tasks) ==> num_tasks <= limit,
        can_create(config, limits, params, variant, tests),
    ensures
        sub_suites_for(config, limits, params, variant, tests, name, tags).len() <= limit,
{
    let list = tests.test_list.deep_view();
    match tests.history {
        Some(history) if !config.use_task_split_fallback => {
            let count = subtask_count(
                limits,
                params.num_tasks,
                variant.display_name,
                total_runtime(history.test_map.entries(), list),
                list.len(),
            );
            law_split_keeps_tests(history.test_map.deep_view(), list, count as nat);
        },
        _ => {},
    }
}

/// The sub-suites of a multiversion task are no more than its suites may have together.
proof fn lemma_multiversion_fits(
    config: GenResmokeConfig,
    limits: SubtaskLimits,
    params: ResmokeGenParamsView,
    variant: BuildVariantView,
    tasks: Seq<MultiversionGenerateTaskConfigView>,
    tests: Seq<SuiteTests>,
    limit: nat,
)
    requires
        limits.default_subtasks_per_task <= limit,
        limits.max_subtasks_per_task <= limit,
        params.num_tasks matches Some(num_tasks) ==> num_tasks <= limit,
        tasks.len() == tests.len(),
        forall|i: int|
            0 <= i < tests.len() ==> can_create(config, limits, params, variant, #[trigger] tests[i]),
    ensures
        multiversion_sub_suites(config, limits, params, variant, tasks, tests).len() <= tasks.len()
            * limit,
    decreases tasks.len(),
{
    if tasks.len() > 0 {
        lemma_multiversion_fits(
            config,
            limits,
            params,
            variant,
            tasks.drop_last(),
            tests.drop_last(),
            limit,
        );
        lemma_sub_suites_fit(
            config,
            limits,
            params,
            variant,
            tests.last(),
            Some(tasks.last().suite_name),
            Some(tasks.last().old_version),
            limit,
        );
        assert((tasks.len() - 1) * limit + limit == tasks.len() * limit) by (nonlinear_arith);
    }
}

/// A resmoke task that is kept within what may still be generated has no more sub-tasks than that.
pub proof fn law_capped_resmoke_fits(
    config: GenResmokeConfig,
    limits: SubtaskLimits,
    params: ResmokeGenParamsView,
    variant: BuildVariantView,
    tests: Seq<SuiteTests>,
    remaining: usize,
)
    requires
        params.require_multiversion_generate_tasks ==> params.multiversion_generate_tasks is Some,
        tests.len() == suites_needed(capped_resmoke(params, remaining as nat)).len(),
        forall|i: int|
            0 <= i < tests.len() ==> can_create(
                config,
                capped_limits(
                    limits,
                    share_of(
                        params.require_multiversion_generate_tasks,
                        params.multiversion_generate_tasks,
                        remaining as nat,
                    ),
                ),
                capped_resmoke(params, remaining as nat),
                variant,
                #[trigger] tests[i],
            ),
    ensures
        all_sub_suites(
            config,
            capped_limits(
                limits,
                share_of(
                    params.require_multiversion_generate_tasks,
                    params.multiversion_generate_tasks,
                    remaining as nat,
                ),
            ),
            capped_resmoke(params, remaining as nat),
            variant,
            tests,
        ).len() <= remaining,
{
    let limit = share_of(
        params.require_multiversion_generate_tasks,
        params.multiversion_generate_tasks,
        remaining as nat,
    );
    let capped = capped_resmoke(params, remaining as nat);
    let bounds = capped_limits(limits, limit);
    if params.require_multiversion_generate_tasks {
        let tasks = params.multiversion_generate_tasks.unwrap();
        lemma_shares_fit(tasks.len(), remaining as nat);
        lemma_multiversion_fits(
            config,
            bounds,
            capped,
            variant,
            capped.multiversion_generate_tasks.unwrap(),
            tests,
            limit,
        );
    } else {
        lemma_sub_suites_fit(config, bounds, capped, variant, tests[0], None, None, limit);
    }
}

} // verus!
