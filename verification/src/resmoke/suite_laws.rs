//! What holds of the commands that ask resmoke, of its answers and of its suites.

use vstd::prelude::*;

use crate::resmoke::burn_in_proxy::BurnInProxy;
use crate::resmoke::external_cmd::{failure_message, output_of, CommandEnd};
use crate::resmoke::resmoke_proxy::{
    after_batch, batch_count, batch_of, batch_problem, first_out_of_order, seeded, suite_arg_of,
    suite_args_of, BatchOutcomeView, BatchProblemView, DiscoveryStepView, ResmokeProxy,
    TestDiscoveryOutputView,
};
use crate::resmoke::resmoke_suite::{fixture_type_of, ResmokeSuiteConfigView, SuiteFixtureType};
use crate::resmoke::yaml_node::{entry_value, value_at, YamlNodeView};
use crate::resmoke::yaml_suite::{executor_fixture_type, suite_fixture_type};
use crate::utils::number::parsed_u64;
use crate::utils::number_laws::law_written_numbers_are_read_back;

verus! {

/// A suite is asked for by its name. One that is a bazel target is asked for by the configuration
/// that is given for it.
pub proof fn law_bazel_suites_are_asked_for_by_config(
    configs: Map<Seq<char>, Seq<char>>,
    suite: Seq<char>,
)
    ensures
        "//"@.is_prefix_of(suite) ==> suite_arg_of(configs, suite) == configs[suite + "_config"@],
        !"//"@.is_prefix_of(suite) ==> suite_arg_of(configs, suite) == suite,
{
}

proof fn lemma_suite_args(configs: Map<Seq<char>, Seq<char>>, suites: Seq<Seq<char>>)
    ensures
        suite_args_of(configs, suites).len() == 2 * suites.len(),
        forall|i: int|
            0 <= i < suites.len() ==> #[trigger] suite_args_of(configs, suites)[2 * i]
                == "--suite"@,
        forall|i: int|
            0 <= i < suites.len() ==> #[trigger] suite_args_of(configs, suites)[2 * i + 1]
                == suite_arg_of(configs, suites[i]),
    decreases suites.len(),
{
    if suites.len() > 0 {
        let rest = suites.drop_last();
        lemma_suite_args(configs, rest);
        let before = suite_args_of(configs, rest);
        let all = suite_args_of(configs, suites);
        assert forall|i: int| 0 <= i < suites.len() implies #[trigger] all[2 * i] == "--suite"@ by {
            if i < rest.len() {
                assert(all[2 * i] == before[2 * i]);
            }
        }
        assert forall|i: int| 0 <= i < suites.len() implies #[trigger] all[2 * i + 1]
            == suite_arg_of(configs, suites[i]) by {
            if i < rest.len() {
                assert(all[2 * i + 1] == before[2 * i + 1]);
            }
        }
    }
}

/// The command that discovers tests is the resmoke command with its script, the discovery, each
/// suite in turn, and the flags that are switched on.
pub proof fn law_discovery_asks_for_each_suite(
    proxy: ResmokeProxy,
    suites: Seq<Seq<char>>,
    i: int,
)
    requires
        0 <= i < suites.len(),
    ensures
        ({
            let command = proxy.discovery_command(suites);
            let script = proxy.resmoke_script@.len() as int;
            let flags = 2 + script + 2 * suites.len();
            let skips: int = if proxy.skip_covered_tests {
                1
            } else {
                0
            };
            &&& command[0] == proxy.resmoke_cmd@
            &&& forall|k: int|
                0 <= k < script ==> #[trigger] command[1 + k] == proxy.resmoke_script@[k]@
            &&& command[1 + script] == "test-discovery"@
            &&& command[2 + script + 2 * i] == "--suite"@
            &&& command[2 + script + 2 * i + 1] == suite_arg_of(proxy.configs(), suites[i])
            &&& proxy.skip_covered_tests ==> command[flags]
                == "--skipTestsCoveredByMoreComplexSuites"@
            &&& proxy.include_fully_disabled_feature_tests ==> command[flags + skips]
                == "--includeFullyDisabledFeatureTests"@
            &&& command.len() == flags + skips + (if proxy.include_fully_disabled_feature_tests {
                1int
            } else {
                0
            })
        }),
{
    lemma_suite_args(proxy.configs(), suites);
    let args = suite_args_of(proxy.configs(), suites);
    let command = proxy.discovery_command(suites);
    let script = proxy.resmoke_script@.len() as int;
    assert(args[2 * i] == "--suite"@);
    assert(args[2 * i + 1] == suite_arg_of(proxy.configs(), suites[i]));
    assert(command[2 + script + 2 * i] == args[2 * i]);
    assert(command[2 + script + 2 * i + 1] == args[2 * i + 1]);
    assert forall|k: int| 0 <= k < script implies #[trigger] command[1 + k]
        == proxy.resmoke_script@[k]@ by {
        assert(proxy.resmoke_script.deep_view()[k] == proxy.resmoke_script@[k]@);
    }
}

/// Tests that are known are given back as they are known. Others are asked for, the one suite by
/// itself.
pub proof fn law_only_unknown_tests_are_asked_for(proxy: ResmokeProxy, suite: Seq<char>)
    ensures
        proxy.discovery_cache.deep_view().contains_key(suite) ==> proxy.step_for(suite) == (
        DiscoveryStepView::Known { tests: proxy.discovery_cache.deep_view()[suite] }),
        !proxy.discovery_cache.deep_view().contains_key(suite) ==> proxy.step_for(suite) == (
        DiscoveryStepView::Ask { command: proxy.discovery_command(seq![suite]) }),
{
}

/// The answer at a place is for another suite than was asked for there.
pub open spec fn answers_another(
    configs: Map<Seq<char>, Seq<char>>,
    batch: Seq<Seq<char>>,
    docs: Seq<TestDiscoveryOutputView>,
    i: int,
) -> bool {
    docs[i].suite_name != suite_arg_of(configs, batch[i])
}

proof fn lemma_first_out_of_order(
    configs: Map<Seq<char>, Seq<char>>,
    batch: Seq<Seq<char>>,
    docs: Seq<TestDiscoveryOutputView>,
    k: int,
)
    requires
        batch.len() == docs.len(),
    ensures
        first_out_of_order(configs, batch, docs) is None <==> forall|i: int|
            0 <= i < batch.len() ==> !#[trigger] answers_another(configs, batch, docs, i),
        0 <= k < batch.len() && answers_another(configs, batch, docs, k) && (forall|i: int|
            0 <= i < k ==> !#[trigger] answers_another(configs, batch, docs, i))
            ==> first_out_of_order(configs, batch, docs) == Some(
            BatchProblemView::OutOfOrder {
                expected: suite_arg_of(configs, batch[k]),
                actual: docs[k].suite_name,
            },
        ),
    decreases batch.len(),
{
    if batch.len() > 0 {
        let fewer = batch.drop_first();
        let others = docs.drop_first();
        lemma_first_out_of_order(configs, fewer, others, k - 1);
        assert forall|i: int| 0 <= i < fewer.len() implies #[trigger] answers_another(
            configs,
            fewer,
            others,
            i,
        ) == answers_another(configs, batch, docs, i + 1) by {}
        if answers_another(configs, batch, docs, 0) {
            if k > 0 {
                assert(answers_another(configs, batch, docs, 0));
            }
        } else {
            if first_out_of_order(configs, batch, docs) is None {
                assert forall|i: int| 0 <= i < batch.len() implies !#[trigger] answers_another(
                    configs,
                    batch,
                    docs,
                    i,
                ) by {
                    if i > 0 {
                        assert(!answers_another(configs, fewer, others, i - 1));
                    }
                }
            } else {
                let i = choose|i: int|
                    0 <= i < fewer.len() && #[trigger] answers_another(configs, fewer, others, i);
                assert(answers_another(configs, batch, docs, i + 1));
            }
            if 0 < k < batch.len() && answers_another(configs, batch, docs, k) {
                assert(answers_another(configs, fewer, others, k - 1));
            }
        }
    }
}

/// An answer is of use where it holds one document for each suite of the batch, in the order in
/// which they were asked for. Otherwise the counts are reported, or the first suite that is out of
/// order.
pub proof fn law_answers_match_the_batch(
    configs: Map<Seq<char>, Seq<char>>,
    batch: Seq<Seq<char>>,
    docs: Seq<TestDiscoveryOutputView>,
    k: int,
)
    ensures
        batch_problem(configs, batch, docs) is None <==> batch.len() == docs.len() && forall|i: int|
            0 <= i < batch.len() ==> !#[trigger] answers_another(configs, batch, docs, i),
        batch.len() != docs.len() ==> batch_problem(configs, batch, docs) == Some(
            BatchProblemView::WrongCount {
                requested: batch.len() as usize,
                parsed: docs.len() as usize,
            },
        ),
        batch.len() == docs.len() && 0 <= k < batch.len() && answers_another(
            configs,
            batch,
            docs,
            k,
        ) && (forall|i: int| 0 <= i < k ==> !#[trigger] answers_another(configs, batch, docs, i))
            ==> batch_problem(configs, batch, docs) == Some(
            BatchProblemView::OutOfOrder {
                expected: suite_arg_of(configs, batch[k]),
                actual: docs[k].suite_name,
            },
        ),
{
    if batch.len() == docs.len() {
        lemma_first_out_of_order(configs, batch, docs, k);
    }
}

/// Only an answer that matches the batch changes what is known.
pub proof fn law_useless_answers_change_nothing(
    cache: Map<Seq<char>, Seq<Seq<char>>>,
    configs: Map<Seq<char>, Seq<char>>,
    batch: Seq<Seq<char>>,
    docs: Seq<TestDiscoveryOutputView>,
    existing: Seq<Seq<bool>>,
)
    ensures
        after_batch(cache, configs, batch, BatchOutcomeView::Failed) == cache,
        after_batch(cache, configs, batch, BatchOutcomeView::Unparsable) == cache,
        batch_problem(configs, batch, docs) is Some ==> after_batch(
            cache,
            configs,
            batch,
            BatchOutcomeView::Parsed { docs, existing },
        ) == cache,
        batch_problem(configs, batch, docs) is None ==> after_batch(
            cache,
            configs,
            batch,
            BatchOutcomeView::Parsed { docs, existing },
        ) == seeded(cache, batch, docs, existing),
{
}

/// Suites are asked for a hundred at a time, in their order.
pub proof fn law_batches_hold_a_hundred_suites(suites: Seq<Seq<char>>, k: int, i: int)
    requires
        0 <= k,
        k * 100 < suites.len(),
    ensures
        batch_of(suites, k).len() == (if (k + 1) * 100 <= suites.len() {
            100
        } else {
            suites.len() - k * 100
        }),
        0 <= i < batch_of(suites, k).len() ==> batch_of(suites, k)[i] == suites[k * 100 + i],
        k < batch_count(suites.len()),
{
}

/// The fixture of a suite is known by its class.
pub proof fn law_fixtures_are_known_by_class(class: Seq<char>)
    ensures
        fixture_type_of(class) == SuiteFixtureType::Shard <==> class == "ShardedClusterFixture"@,
        fixture_type_of(class) == SuiteFixtureType::Repl <==> class == "ReplicaSetFixture"@,
        fixture_type_of(class) == SuiteFixtureType::Other <==> class != "ShardedClusterFixture"@
            && class != "ReplicaSetFixture"@,
{
    reveal_strlit("ShardedClusterFixture");
    reveal_strlit("ReplicaSetFixture");
    assert("ShardedClusterFixture"@.len() != "ReplicaSetFixture"@.len());
}

/// The first entry of a mapping that stands under a key.
pub open spec fn stands_under(node: YamlNodeView, key: Seq<char>, value: YamlNodeView) -> bool {
    node matches YamlNodeView::Hash(entries) && exists|i: int|
        0 <= i < entries.len() && #[trigger] entries[i] == (YamlNodeView::String(key), value)
            && forall|j: int| 0 <= j < i ==> (#[trigger] entries[j]).0 != YamlNodeView::String(key)
}

proof fn lemma_entry_value(entries: Seq<(YamlNodeView, YamlNodeView)>, key: Seq<char>)
    ensures
        forall|i: int|
            0 <= i < entries.len() && (#[trigger] entries[i]).0 == YamlNodeView::String(key) && (
            forall|j: int| 0 <= j < i ==> (#[trigger] entries[j]).0 != YamlNodeView::String(key))
                ==> entry_value(entries, key) == Some(entries[i].1),
        entry_value(entries, key) matches Some(value) ==> exists|i: int|
            0 <= i < entries.len() && #[trigger] entries[i] == (YamlNodeView::String(key), value)
                && forall|j: int|
                0 <= j < i ==> (#[trigger] entries[j]).0 != YamlNodeView::String(key),
    decreases entries.len(),
{
    if entries.len() > 0 {
        let rest = entries.drop_first();
        lemma_entry_value(rest, key);
        if entries[0].0 == YamlNodeView::String(key) {
            assert(entries[0] == (YamlNodeView::String(key), entries[0].1));
        } else {
            assert forall|i: int|
                0 <= i < entries.len() && (#[trigger] entries[i]).0 == YamlNodeView::String(key)
                    && (forall|j: int|
                    0 <= j < i ==> (#[trigger] entries[j]).0 != YamlNodeView::String(
                        key,
                    )) implies entry_value(entries, key) == Some(entries[i].1) by {
                assert(rest[i - 1] == entries[i]);
                assert forall|j: int| 0 <= j < i - 1 implies (#[trigger] rest[j]).0
                    != YamlNodeView::String(key) by {
                    assert(rest[j] == entries[j + 1]);
                }
            }
            if let Some(value) = entry_value(entries, key) {
                let i = choose|i: int|
                    0 <= i < rest.len() && #[trigger] rest[i] == (
                        YamlNodeView::String(key),
                        value,
                    ) && forall|j: int|
                        0 <= j < i ==> (#[trigger] rest[j]).0 != YamlNodeView::String(key);
                assert(entries[i + 1] == rest[i]);
                assert forall|j: int| 0 <= j < i + 1 implies (#[trigger] entries[j]).0
                    != YamlNodeView::String(key) by {
                    if j > 0 {
                        assert(rest[j - 1] == entries[j]);
                    }
                }
            }
        }
    }
}

/// The value at a key of a mapping is what stands under it first.
pub proof fn law_values_stand_under_their_key(
    node: YamlNodeView,
    key: Seq<char>,
    value: YamlNodeView,
)
    ensures
        value_at(node, key) == Some(value) <==> stands_under(node, key, value),
{
    if let YamlNodeView::Hash(entries) = node {
        lemma_entry_value(entries, key);
    }
}

/// The fixture of a suite is told by the class of the fixture of its executor. A suite whose
/// executor has no fixture runs in the shell alone.
pub proof fn law_executors_tell_the_fixture(
    executor: YamlNodeView,
    fixture: YamlNodeView,
    class: Seq<char>,
)
    ensures
        stands_under(executor, "fixture"@, fixture) && stands_under(
            fixture,
            "class"@,
            YamlNodeView::String(class),
        ) ==> executor_fixture_type(executor) == fixture_type_of(class),
        stands_under(executor, "fixture"@, fixture) && (forall|text: Seq<char>| !#[trigger]
            stands_under(fixture, "class"@, YamlNodeView::String(text)))
            ==> executor_fixture_type(executor) == SuiteFixtureType::Other,
        (forall|node: YamlNodeView| !#[trigger] stands_under(executor, "fixture"@, node))
            ==> executor_fixture_type(executor) == SuiteFixtureType::Shell,
{
    law_values_stand_under_their_key(executor, "fixture"@, fixture);
    law_values_stand_under_their_key(fixture, "class"@, YamlNodeView::String(class));
    if let Some(node) = value_at(executor, "fixture"@) {
        law_values_stand_under_their_key(executor, "fixture"@, node);
    }
    if let Some(YamlNodeView::String(text)) = value_at(fixture, "class"@) {
        law_values_stand_under_their_key(fixture, "class"@, YamlNodeView::String(text));
    }
}

/// A command gives what it wrote where it ended well and in time, and fails otherwise.
pub proof fn law_commands_end_well_or_fail(end: CommandEnd, timeout_secs: u64)
    ensures
        end.success && !end.timed_out ==> output_of(end, timeout_secs) == Ok::<_, Seq<char>>(
            end.stdout@,
        ),
        !end.success && !end.timed_out ==> output_of(end, timeout_secs) == Err::<Seq<char>, _>(
            end.stderr@,
        ),
        end.timed_out ==> output_of(end, timeout_secs) == Err::<Seq<char>, _>(
            failure_message(end, timeout_secs),
        ),
{
}

/// A command that ran out of time is reported with the time it had, and any other with what it
/// wrote.
pub proof fn law_failures_tell_what_happened(end: CommandEnd, timeout_secs: u64)
    ensures
        end.timed_out ==> exists|digits: Seq<char>| #[trigger]
            parsed_u64(digits) == Some(timeout_secs) && failure_message(end, timeout_secs)
                == "Command timed out after "@ + digits + " seconds."@,
        !end.timed_out ==> failure_message(end, timeout_secs) == end.stderr@,
{
    law_written_numbers_are_read_back(timeout_secs, 0);
    assert(parsed_u64(crate::utils::number::decimal(timeout_secs as nat)) == Some(timeout_secs));
}

/// The fixture of a suite is told by the class of its fixture. A suite without one runs in the
/// shell alone.
pub proof fn law_suites_tell_their_fixture(config: ResmokeSuiteConfigView)
    ensures
        config.executor.fixture is None <==> config.suite_fixture() == SuiteFixtureType::Shell,
        config.executor.fixture matches Some(fixture) ==> {
            &&& config.suite_fixture() == SuiteFixtureType::Shard <==> fixture.class
                == "ShardedClusterFixture"@
            &&& config.suite_fixture() == SuiteFixtureType::Repl <==> fixture.class
                == "ReplicaSetFixture"@
        },
{
    if let Some(fixture) = config.executor.fixture {
        law_fixtures_are_known_by_class(fixture.class);
    }
}

/// The command that discovers what to burn in is the command for that with its script. It names the
/// build variant and the file of the project, and asks for yaml.
pub proof fn law_burn_in_is_asked_for_by_variant(
    proxy: BurnInProxy,
    build_variant: Seq<char>,
    k: int,
)
    ensures
        ({
            let command = proxy.discovery(build_variant);
            let n = proxy.burn_in_tests_script@.len() as int;
            &&& command.len() == n + 6
            &&& command[0] == proxy.burn_in_tests_cmd@
            &&& 0 <= k < n ==> command[k + 1] == proxy.burn_in_tests_script@[k]@
            &&& command[n + 1] == "--build-variant"@
            &&& command[n + 2] == build_variant
            &&& command[n + 3] == "--yaml"@
            &&& command[n + 4] == "--evg-project-file"@
            &&& command[n + 5] == proxy.evg_project_location@
        }),
{
}

/// The commands that ask for configuration are the resmoke command with its script, and what is
/// asked for.
pub proof fn law_configuration_is_asked_for(proxy: ResmokeProxy, suite: Seq<char>, k: int)
    ensures
        ({
            let n = proxy.resmoke_script@.len() as int;
            let query = proxy.config_query(suite);
            let multiversion = proxy.multiversion_query();
            &&& query.len() == n + 4
            &&& query[0] == proxy.resmoke_cmd@
            &&& 0 <= k < n ==> query[k + 1] == proxy.resmoke_script@[k]@
            &&& query[n + 1] == "suiteconfig"@
            &&& query[n + 2] == "--suite"@
            &&& query[n + 3] == suite_arg_of(proxy.configs(), suite)
            &&& multiversion.len() == n + 3
            &&& multiversion[0] == proxy.resmoke_cmd@
            &&& 0 <= k < n ==> multiversion[k + 1] == proxy.resmoke_script@[k]@
            &&& multiversion[n + 1] == "multiversion-config"@
            &&& multiversion[n + 2] == "--config-file-output=multiversion-config.yml"@
        }),
{
    reveal_strlit("--config-file-output=");
    reveal_strlit("multiversion-config.yml");
    reveal_strlit("--config-file-output=multiversion-config.yml");
    assert("--config-file-output="@ + "multiversion-config.yml"@
        =~= "--config-file-output=multiversion-config.yml"@);
}

/// The fixture of a configuration is that of its executor.
pub proof fn law_configurations_tell_the_fixture(
    config: YamlNodeView,
    executor: YamlNodeView,
    fixture: YamlNodeView,
    class: Seq<char>,
)
    requires
        stands_under(config, "executor"@, executor),
        executor is Hash,
    ensures
        stands_under(executor, "fixture"@, fixture) && stands_under(
            fixture,
            "class"@,
            YamlNodeView::String(class),
        ) ==> {
            &&& class == "ShardedClusterFixture"@ <==> suite_fixture_type(config) == Some(
                SuiteFixtureType::Shard,
            )
            &&& class == "ReplicaSetFixture"@ <==> suite_fixture_type(config) == Some(
                SuiteFixtureType::Repl,
            )
        },
        (forall|node: YamlNodeView| !#[trigger] stands_under(executor, "fixture"@, node))
            ==> suite_fixture_type(config) == Some(SuiteFixtureType::Shell),
{
    law_values_stand_under_their_key(config, "executor"@, executor);
    law_executors_tell_the_fixture(executor, fixture, class);
    law_fixtures_are_known_by_class(class);
}

} // verus!
