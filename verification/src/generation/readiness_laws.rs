//! What holds of the conditions under which tasks can be generated, and of how problems are
//! reported.

use vstd::prelude::*;

use crate::errors::{
    error_message, ConfigErrorView, LARGE_DISTRO_HELP_HEAD, LARGE_DISTRO_HELP_MIDDLE,
    LARGE_DISTRO_HELP_TAIL,
};
use crate::evergreen::evg_config_utils::{
    burn_in_tags_resolvable, expansion, is_burn_in_tag_variant, lists_burn_in_tag_variants,
    suite_var, valid_multiversion_suites, valid_suite,
};
use crate::evergreen::evg_task_history::TaskRuntimeHistory;
use crate::evergreen::lookup_laws::{
    expands, hands_text, is_tagged, law_truth_values_are_spelled_out, sets_up_at,
};
use crate::evergreen::model::{BuildVariantView, EvgTask, ParamValue};
use crate::generation::burn_in_tags::{
    all_tags_ready, asks_for, can_add_tags, has_task, problem_message, tags_known, tags_ready,
    BurnInTagBuildVariantInfoView, BurnInTagProblemView,
};
use crate::generation::plan::every_tag_known;
use crate::generation::plan_laws::asks_for_tags;
use crate::generation::task_laws::law_fuzzers_say_so;
use crate::generation::tasks::can_plan;
use crate::resmoke::burn_in_proxy::DiscoveredTaskView;
use crate::resmoke::resmoke_proxy::has_suite_arg;
use crate::resmoke::suite_laws::{law_values_stand_under_their_key, stands_under};
use crate::resmoke::yaml_node::YamlNodeView;
use crate::resmoke::yaml_suite::has_executor;
use crate::services::config_extraction::valid_suites;
use crate::task_types::burn_in_tests::{can_burn_in, BurnInServiceImpl};
use crate::task_types::multiversion::{MultiversionService, MultiversionServiceImpl};
use crate::task_types::resmoke_tasks::{
    all_sub_suites, can_create, can_split, can_split_fallback, GenResmokeConfig,
    GenResmokeTaskServiceImpl, ResmokeGenParamsView, SubtaskLimits, SuiteTests,
};
use crate::task_types::sub_task_laws::{
    is_marked_required, law_plain_tasks_split_their_suite, law_tests_of_each_suite_are_needed,
};
use crate::utils::number::parsed_u64;

verus! {

/// A suite can be named unless it is a bazel target that names nothing behind a colon.
pub proof fn law_bazel_targets_name_a_suite(suite: Seq<char>)
    ensures
        valid_suite(suite) <==> !"//"@.is_prefix_of(suite) || suite.contains(':'),
{
}

/// All the suites of a task can be named where its own can be, and each that it lists for
/// multiversion.
pub proof fn law_all_suites_can_be_named(
    task: EvgTask,
    k: int,
    entries: Seq<(String, ParamValue)>,
)
    ensures
        valid_suites(task) <==> (suite_var(task.deep_view()) matches Some(suite) ==> valid_suite(
            suite,
        )) && valid_multiversion_suites(task),
        task.commands matches Some(commands) && sets_up_at(
            commands@,
            "initialize multiversion tasks"@,
            k,
            entries,
        ) ==> (valid_multiversion_suites(task) <==> forall|i: int|
            0 <= i < entries.len() ==> valid_suite((#[trigger] entries[i]).0@)),
{
    if task.commands matches Some(commands) && sets_up_at(
        commands@,
        "initialize multiversion tasks"@,
        k,
        entries,
    ) {
        crate::evergreen::lookup_laws::lemma_call_vars(
            task.commands.unwrap()@,
            "initialize multiversion tasks"@,
            k,
            entries,
        );
        assert(crate::evergreen::evg_config_utils::multiversion_entries(task) == Some(entries));
        if forall|i: int| 0 <= i < entries.len() ==> valid_suite((#[trigger] entries[i]).0@) {
            assert(valid_multiversion_suites(task));
        }
        if valid_multiversion_suites(task) {
            let found = crate::evergreen::evg_config_utils::multiversion_entries(task).unwrap();
            assert forall|i: int| 0 <= i < entries.len() implies valid_suite(
                (#[trigger] entries[i]).0@,
            ) by {
                assert(found[i] == entries[i]);
            }
        }
    }
}

/// A task can be planned where its suites can be named, and a multiversion fuzzer only where it
/// lists its multiversion suites.
pub proof fn law_tasks_can_be_planned(task: EvgTask)
    ensures
        can_plan(task) ==> valid_suites(task),
        valid_suites(task) && !hands_text(
            task.deep_view(),
            "generate resmoke tasks"@,
            "is_jstestfuzz"@,
            "true"@,
        ) ==> can_plan(task),
        valid_suites(task) && !is_tagged(task.deep_view(), "multiversion"@) ==> can_plan(task),
        hands_text(task.deep_view(), "generate resmoke tasks"@, "is_jstestfuzz"@, "true"@)
            && is_tagged(task.deep_view(), "multiversion"@) && valid_suites(task) ==> (can_plan(task)
            <==> crate::evergreen::evg_config_utils::multiversion_tasks_of(task) is Some),
{
    law_fuzzers_say_so(task.deep_view());
}

/// A task without a history that counts can be split where some sub-task is wanted and allowed.
pub proof fn law_fallback_needs_a_sub_task(
    limits: SubtaskLimits,
    params: ResmokeGenParamsView,
    tests: Seq<Seq<char>>,
)
    ensures
        can_split_fallback(limits, params, tests) <==> tests.len() == 0 || (
        limits.max_subtasks_per_task > 0 && match params.num_tasks {
            Some(wanted) => wanted > 0,
            None => limits.default_subtasks_per_task > 0,
        }),
{
}

/// A task can be split by its history where some sub-task is wanted and allowed. The build variant
/// has to have a display name unless the task says how many sub-tasks it wants.
pub proof fn law_splitting_needs_a_sub_task(
    limits: SubtaskLimits,
    params: ResmokeGenParamsView,
    variant: BuildVariantView,
    history: TaskRuntimeHistory,
    tests: Seq<Seq<char>>,
)
    ensures
        params.num_tasks matches Some(wanted) ==> (can_split(
            limits,
            params,
            variant,
            history,
            tests,
        ) <==> tests.len() == 0 || wanted > 0 && limits.max_subtasks_per_task > 0),
        params.num_tasks is None && variant.display_name is None ==> !can_split(
            limits,
            params,
            variant,
            history,
            tests,
        ),
        params.num_tasks is None && variant.display_name is Some && !is_marked_required(variant)
            ==> (can_split(limits, params, variant, history, tests) <==> tests.len() == 0
            || limits.default_subtasks_per_task > 0 && limits.max_subtasks_per_task > 0),
        params.num_tasks is None && variant.display_name is Some
            && crate::task_types::resmoke_tasks::total_runtime(history.test_map.entries(), tests)
            <= limits.large_required_task_runtime_threshold ==> (can_split(
            limits,
            params,
            variant,
            history,
            tests,
        ) <==> tests.len() == 0 || limits.default_subtasks_per_task > 0
            && limits.max_subtasks_per_task > 0),
{
    if let Some(name) = variant.display_name {
        crate::task_types::sub_task_laws::lemma_required_prefix(name);
    }
}

/// Burn_in can run a task whose old versions are all known.
pub proof fn law_burn_in_knows_the_versions(
    service: MultiversionServiceImpl,
    params: ResmokeGenParamsView,
)
    ensures
        !params.require_multiversion_generate_tasks ==> can_burn_in(service, params),
        params.require_multiversion_generate_tasks ==> (can_burn_in(service, params) <==> (
        params.multiversion_generate_tasks matches Some(tasks) && forall|i: int|
            0 <= i < tasks.len() ==> (#[trigger] tasks[i]).old_version == "last_lts"@
                || tasks[i].old_version == "last_continuous"@)),
{
}

/// Tags can be resolved unless what asks for all required and suggested build variants is no truth
/// value, or it asks for them and some build variant has no display name.
pub proof fn law_tags_can_be_resolved(
    variant: BuildVariantView,
    variant_map: Map<Seq<char>, BuildVariantView>,
    name: Seq<char>,
)
    ensures
        (forall|value: Seq<char>| !#[trigger]
            expands(variant, "burn_in_tag_include_all_required_and_suggested"@, value))
            ==> burn_in_tags_resolvable(variant, variant_map),
        expands(variant, "burn_in_tag_include_all_required_and_suggested"@, "false"@)
            ==> burn_in_tags_resolvable(variant, variant_map),
        expands(variant, "burn_in_tag_include_all_required_and_suggested"@, "true"@) ==> (
        burn_in_tags_resolvable(variant, variant_map) <==> forall|other: Seq<char>| #[trigger]
            variant_map.contains_key(other) ==> variant_map[other].display_name is Some),
        expands(variant, "burn_in_tag_include_all_required_and_suggested"@, name) && name
            != "true"@ && name != "false"@ ==> !burn_in_tags_resolvable(variant, variant_map),
{
    let all = "burn_in_tag_include_all_required_and_suggested"@;
    if let Some(value) = expansion(variant, all) {
        assert(expands(variant, all, value));
    }
    law_truth_values_are_spelled_out("true"@);
    law_truth_values_are_spelled_out("false"@);
    law_truth_values_are_spelled_out(name);
    reveal_strlit("true");
    reveal_strlit("false");
    assert("true"@.len() != "false"@.len());
}

/// Tags are known where they can be resolved and each build variant that is asked for exists. They
/// are ready where one is asked for and a compile task is named, and can be added where none is
/// kept for another compile task.
pub proof fn law_tags_are_ready(
    infos: Map<Seq<char>, BurnInTagBuildVariantInfoView>,
    variant: BuildVariantView,
    variant_map: Map<Seq<char>, BuildVariantView>,
    compile: Seq<char>,
)
    requires
        expands(variant, "burn_in_tag_compile_task_dependency"@, compile),
    ensures
        tags_known(variant, variant_map) <==> burn_in_tags_resolvable(variant, variant_map)
            && forall|name: Seq<char>| #[trigger]
            is_burn_in_tag_variant(variant, variant_map, name) ==> variant_map.contains_key(name),
        tags_ready(variant, variant_map) <==> tags_known(variant, variant_map) && exists|
            name: Seq<char>,
        | #[trigger] is_burn_in_tag_variant(variant, variant_map, name),
        can_add_tags(infos, variant, variant_map) <==> tags_ready(variant, variant_map) && forall|
            name: Seq<char>,
        | #[trigger]
            is_burn_in_tag_variant(variant, variant_map, name) && infos.contains_key(name)
                ==> infos[name].compile_task_dependency == compile,
{
}

/// Without a compile task no tags are ready.
pub proof fn law_tags_need_a_compile_task(
    variant: BuildVariantView,
    variant_map: Map<Seq<char>, BuildVariantView>,
)
    requires
        forall|value: Seq<char>| !#[trigger]
            expands(variant, "burn_in_tag_compile_task_dependency"@, value),
    ensures
        !tags_ready(variant, variant_map),
{
    if let Some(value) = expansion(variant, "burn_in_tag_compile_task_dependency"@) {
        assert(expands(variant, "burn_in_tag_compile_task_dependency"@, value));
    }
}

/// All tags are known where those of each build variant are that runs the task for them.
pub proof fn law_only_asking_variants_need_tags(
    variant_map: Map<Seq<char>, BuildVariantView>,
    name: Seq<char>,
    i: int,
)
    ensures
        every_tag_known(variant_map) && variant_map.contains_key(name) && 0 <= i
            < variant_map[name].tasks.len() && variant_map[name].tasks[i].name
            == "burn_in_tags_gen"@ ==> tags_known(variant_map[name], variant_map),
        (forall|other: Seq<char>, k: int|
            #![trigger variant_map[other].tasks[k]]
            variant_map.contains_key(other) && 0 <= k < variant_map[other].tasks.len()
                ==> variant_map[other].tasks[k].name != "burn_in_tags_gen"@) ==> every_tag_known(
            variant_map,
        ),
{
}

/// The build variants for tags are listed once each, and are those that are asked for.
pub proof fn law_tag_variants_are_listed_once(
    variant: BuildVariantView,
    variant_map: Map<Seq<char>, BuildVariantView>,
    names: Seq<Seq<char>>,
    i: int,
    j: int,
    name: Seq<char>,
)
    requires
        lists_burn_in_tag_variants(variant, variant_map, names),
        0 <= i < j < names.len(),
    ensures
        names[i] != names[j],
        is_burn_in_tag_variant(variant, variant_map, names[i]),
        is_burn_in_tag_variant(variant, variant_map, name) ==> names.contains(name),
{
    assert(names.contains(names[i]));
}

/// A bazel target can be asked for where a configuration is given for it. Any other suite can be.
pub proof fn law_suites_can_be_asked_for(configs: Map<Seq<char>, Seq<char>>, suite: Seq<char>)
    ensures
        has_suite_arg(configs, suite) <==> !"//"@.is_prefix_of(suite) || configs.contains_key(
            suite + "_config"@,
        ),
{
}

/// A suite configuration that is a mapping names an executor where one stands under that key.
pub proof fn law_configurations_name_an_executor(config: YamlNodeView)
    ensures
        config is Hash ==> (has_executor(config) <==> exists|node: YamlNodeView| #[trigger]
            stands_under(config, "executor"@, node)),
        !(config is Hash) ==> has_executor(config),
{
    if let Some(node) = crate::resmoke::yaml_node::value_at(config, "executor"@) {
        law_values_stand_under_their_key(config, "executor"@, node);
    }
    if exists|node: YamlNodeView| #[trigger] stands_under(config, "executor"@, node) {
        let node = choose|node: YamlNodeView| #[trigger] stands_under(config, "executor"@, node);
        law_values_stand_under_their_key(config, "executor"@, node);
    }
}

/// The text of an error names what it is about: the variable that is missing and its task, or the
/// build variant that lacks a large distro. A text that is no number is told to be empty or not to
/// be made of digits.
pub proof fn law_errors_say_what_is_wrong(
    var: Seq<char>,
    task: Seq<char>,
    value: Seq<char>,
)
    ensures
        error_message(ConfigErrorView::MissingVar { var, task }) == "Missing var '"@ + var
            + "' for task '"@ + task + "'"@,
        error_message(ConfigErrorView::NotABool { value })
            == "provided string was not `true` or `false`"@,
        error_message(ConfigErrorView::NotANumber { value: Seq::empty() })
            == "cannot parse integer from empty string"@,
        value.len() > 0 && !('0' <= value[0] <= '9') && value[0] != '+' ==> error_message(
            ConfigErrorView::NotANumber { value },
        ) == "invalid digit found in string"@,
{
    if value.len() > 0 && !('0' <= value[0] <= '9') && value[0] != '+' {
        assert(!crate::utils::number::starts_too_large(value)) by {
            if crate::utils::number::starts_too_large(value) {
                let n = choose|n: int| #[trigger]
                    crate::utils::number::is_too_large(
                        crate::utils::number::unsigned_digits(value),
                        n,
                    );
                assert(crate::utils::number::unsigned_digits(value) == value);
                if n > 0 {
                    assert(crate::utils::number::is_digit(value[0]));
                } else {
                    assert(value.take(0) =~= Seq::<char>::empty());
                }
            }
        }
    }
}

/// A text of digits that stand for more than a number can hold is told to be too large.
pub proof fn law_large_numbers_are_told(digits: Seq<char>)
    requires
        digits.len() > 0,
        forall|i: int| 0 <= i < digits.len() ==> '0' <= #[trigger] digits[i] <= '9',
        crate::utils::number::digits_value(digits) > u64::MAX,
    ensures
        parsed_u64(digits) is None,
        error_message(ConfigErrorView::NotANumber { value: digits })
            == "number too large to fit in target type"@,
{
    assert('0' <= digits[0] <= '9');
    assert(crate::utils::number::unsigned_digits(digits) == digits);
    let n = digits.len() as int;
    assert(digits.take(n) =~= digits);
    assert forall|i: int| 0 <= i < n implies crate::utils::number::is_digit(
        #[trigger] digits[i],
    ) by {
        assert('0' <= digits[i] <= '9');
    }
    assert(crate::utils::number::is_too_large(digits, n));
}

/// The text on a missing large distro names the build variant at both places where it can be
/// mended.
pub proof fn law_missing_distros_name_the_variant(build_variant: Seq<char>)
    ensures
        error_message(ConfigErrorView::MissingLargeDistro { build_variant })
            == LARGE_DISTRO_HELP_HEAD@ + build_variant + LARGE_DISTRO_HELP_MIDDLE@ + build_variant
            + LARGE_DISTRO_HELP_TAIL@,
{
}

/// The text of a problem with tags begins with the build variant that asks for them.
pub proof fn law_tag_problems_name_the_variant(
    build_variant: Seq<char>,
    variant: Seq<char>,
)
    ensures
        ("`"@ + build_variant + "`"@).is_prefix_of(
            problem_message(BurnInTagProblemView::Unresolved { build_variant }),
        ),
        ("`"@ + build_variant + "`"@).is_prefix_of(
            problem_message(BurnInTagProblemView::NoVariants { build_variant }),
        ),
        ("`"@ + build_variant + "`"@).is_prefix_of(
            problem_message(BurnInTagProblemView::MissingCompileTask { build_variant }),
        ),
        problem_message(BurnInTagProblemView::UnknownVariant { build_variant, variant }) == "`"@
            + build_variant + "` is trying to create a build variant that does not exist: "@
            + variant
            + ". Check the burn_in_tag_include_build_variants expansion in this variant."@,
        problem_message(BurnInTagProblemView::OtherCompileTask { build_variant, variant }) == "`"@
            + build_variant
            + "` is trying to set a different compile task dependency than already exists for `"@
            + variant
            + "`. Check the `burn_in_tag_compile_task_dependency` expansions in your config."@,
{
    reveal_strlit("`");
    let front = "`"@ + build_variant + "`"@;
    reveal_strlit("` build variant has burn in tag expansions that cannot be resolved.");
    let unresolved = problem_message(BurnInTagProblemView::Unresolved { build_variant });
    assert(unresolved.take(front.len() as int) =~= front);
    reveal_strlit("` build variant is either missing or has an empty list for the `");
    let none = problem_message(BurnInTagProblemView::NoVariants { build_variant });
    assert(none.take(front.len() as int) =~= front);
    reveal_strlit("` build variant is missing the `");
    let missing = problem_message(BurnInTagProblemView::MissingCompileTask { build_variant });
    assert(missing.take(front.len() as int) =~= front);
    reveal_strlit(". Check the ");
    reveal_strlit("burn_in_tag_include_build_variants");
    reveal_strlit(" expansion in this variant.");
    reveal_strlit(". Check the burn_in_tag_include_build_variants expansion in this variant.");
    assert(". Check the "@ + "burn_in_tag_include_build_variants"@ + " expansion in this variant."@
        =~= ". Check the burn_in_tag_include_build_variants expansion in this variant."@);
    assert(problem_message(BurnInTagProblemView::UnknownVariant { build_variant, variant }) =~= "`"@
        + build_variant + "` is trying to create a build variant that does not exist: "@ + variant
        + (". Check the "@ + "burn_in_tag_include_build_variants"@
        + " expansion in this variant."@));
    reveal_strlit("`. Check the `");
    reveal_strlit("burn_in_tag_compile_task_dependency");
    reveal_strlit("` expansions in your config.");
    reveal_strlit("`. Check the `burn_in_tag_compile_task_dependency` expansions in your config.");
    assert("`. Check the `"@ + "burn_in_tag_compile_task_dependency"@
        + "` expansions in your config."@
        =~= "`. Check the `burn_in_tag_compile_task_dependency` expansions in your config."@);
    assert(problem_message(BurnInTagProblemView::OtherCompileTask { build_variant, variant })
        =~= "`"@ + build_variant
        + "` is trying to set a different compile task dependency than already exists for `"@
        + variant + ("`. Check the `"@ + "burn_in_tag_compile_task_dependency"@
        + "` expansions in your config."@));
}

/// A task without multiversion sub-tasks can be generated from the tests of its one suite where
/// these can be split.
pub proof fn law_plain_tasks_can_be_generated(
    service: GenResmokeTaskServiceImpl<MultiversionServiceImpl>,
    params: ResmokeGenParamsView,
    variant: BuildVariantView,
    tests: Seq<SuiteTests>,
)
    requires
        !params.require_multiversion_generate_tasks,
    ensures
        service.accepts(params, variant, tests) <==> tests.len() == 1 && can_create(
            service.config,
            service.subtask_limits,
            params,
            variant,
            tests[0],
        ),
{
    law_tests_of_each_suite_are_needed(params, 0);
    if tests.len() == 1 && can_create(
        service.config,
        service.subtask_limits,
        params,
        variant,
        tests[0],
    ) {
        let all = all_sub_suites(service.config, service.subtask_limits, params, variant, tests);
        assert forall|i: int|
            0 <= i < all.len() implies service.multiversion_service.knows_mode(
            (#[trigger] all[i]).mv_exclude_tags,
        ) by {
            law_plain_tasks_split_their_suite(
                service.config,
                service.subtask_limits,
                params,
                variant,
                tests,
                i,
            );
        }
    }
    if service.accepts(params, variant, tests) {
        assert(can_create(
            service.config,
            service.subtask_limits,
            params,
            variant,
            tests[0],
        ));
    }
}

/// A task with multiversion sub-tasks has to list them, and the tests of each of their suites have
/// to be such that they can be split.
pub proof fn law_multiversion_tasks_need_all_tests(
    service: GenResmokeTaskServiceImpl<MultiversionServiceImpl>,
    params: ResmokeGenParamsView,
    variant: BuildVariantView,
    tests: Seq<SuiteTests>,
    i: int,
)
    requires
        params.require_multiversion_generate_tasks,
        service.accepts(params, variant, tests),
    ensures
        params.multiversion_generate_tasks is Some,
        tests.len() == params.multiversion_generate_tasks.unwrap().len(),
        0 <= i < tests.len() ==> can_create(
            service.config,
            service.subtask_limits,
            params,
            variant,
            tests[i],
        ),
{
    law_tests_of_each_suite_are_needed(params, 0);
}

/// Tests can be split by their history where there is one that counts, and evenly otherwise.
pub proof fn law_history_decides_how_to_split(
    config: GenResmokeConfig,
    limits: SubtaskLimits,
    params: ResmokeGenParamsView,
    variant: BuildVariantView,
    tests: SuiteTests,
)
    ensures
        config.use_task_split_fallback || tests.history is None ==> (can_create(
            config,
            limits,
            params,
            variant,
            tests,
        ) <==> can_split_fallback(limits, params, tests.test_list.deep_view())),
        !config.use_task_split_fallback ==> (tests.history matches Some(history) ==> (can_create(
            config,
            limits,
            params,
            variant,
            tests,
        ) <==> can_split(limits, params, variant, history, tests.test_list.deep_view()))),
{
}

/// Burn_in can run a task whose suites can be named, unless it is meant for versions that are not
/// known. A task that was discovered has to be such only where it is known and has tests.
pub proof fn law_burn_in_accepts_tasks_of_known_versions(
    service: BurnInServiceImpl<MultiversionServiceImpl>,
    task_def: EvgTask,
    discovered: DiscoveredTaskView,
    task_map: Map<Seq<char>, EvgTask>,
)
    ensures
        service.accepts(task_def) ==> valid_suites(task_def),
        valid_suites(task_def) && service.params_of(task_def) is Err ==> service.accepts(task_def),
        valid_suites(task_def) ==> (service.params_of(task_def) matches Ok(params) ==> (
        service.accepts(task_def) <==> can_burn_in(
            service.gen_resmoke_task_service.multiversion_service,
            params,
        ))),
        !task_map.contains_key(discovered.task_name) || discovered.test_list.len() == 0
            ==> service.accepts_discovered(discovered, task_map),
        task_map.contains_key(discovered.task_name) && discovered.test_list.len() > 0 ==> (
        service.accepts_discovered(discovered, task_map) <==> service.accepts(
            task_map[discovered.task_name],
        )),
{
}

/// All tags are ready where those of each build variant are that runs the task for them, and no two
/// of these name different compile tasks for one build variant.
pub proof fn law_compile_tasks_agree(
    variant_map: Map<Seq<char>, BuildVariantView>,
    one: Seq<char>,
    other: Seq<char>,
    name: Seq<char>,
    compile: Seq<char>,
)
    requires
        all_tags_ready(variant_map),
        asks_for_tags(variant_map, one, name),
        asks_for_tags(variant_map, other, name),
    ensures
        tags_ready(variant_map[one], variant_map),
        expands(variant_map[one], "burn_in_tag_compile_task_dependency"@, compile) <==> expands(
            variant_map[other],
            "burn_in_tag_compile_task_dependency"@,
            compile,
        ),
{
    let i = choose|i: int|
        0 <= i < variant_map[one].tasks.len() && (#[trigger] variant_map[one].tasks[i]).name
            == "burn_in_tags_gen"@;
    assert(has_task(variant_map[one], "burn_in_tags_gen"@));
    let j = choose|j: int|
        0 <= j < variant_map[other].tasks.len() && (#[trigger] variant_map[other].tasks[j]).name
            == "burn_in_tags_gen"@;
    assert(has_task(variant_map[other], "burn_in_tags_gen"@));
    assert(asks_for(variant_map, one, name));
    assert(asks_for(variant_map, other, name));
    assert(variant_map.dom().contains(one) && variant_map.dom().contains(other));
}

} // verus!
