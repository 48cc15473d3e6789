//! What holds of the parameters that are read from a task.

use vstd::prelude::*;

use crate::errors::ConfigErrorView;
use crate::evergreen::evg_config_utils::{
    default_bool, dependency_names, gen_task_var, multiversion_tasks_of, optional_u64,
    required_bool, required_str, required_u64, suite_name_of, variant_platform,
};
use crate::evergreen::lookup_laws::{
    expands, hands_no_text, hands_over, hands_text, is_tagged,
    law_enterprise_is_switched_off_by_expansions, law_expansions_in_variables_are_replaced,
    law_generating_call_gives_variables, law_variables_are_those_of_first_call,
};
use crate::evergreen::model::{BuildVariantView, EvgTask, EvgTaskView, TaskDependencyView, VarsView};
use crate::services::config_extraction::{
    fuzzer_params_of, large_distro_of, law_dependencies_without_generating_task, num_files_of,
    resmoke_params_of, without_text,
};
use crate::task_types::fuzzer_tasks::FuzzerGenTaskParamsView;
use crate::task_types::generated_suite::{task_refs_of, SuiteView};
use crate::task_types::resmoke_tasks::ResmokeGenParamsView;
use crate::utils::number::parsed_u64;
use crate::utils::pattern::{regex_is_match, regex_named_groups};

verus! {

/// The generating call of a task hands over a text under a name.
pub open spec fn is_given(task: EvgTaskView, name: Seq<char>, text: Seq<char>) -> bool {
    hands_text(task, "generate resmoke tasks"@, name, text)
}

/// The generating call of a task hands over no text under a name.
pub open spec fn is_missing(task: EvgTaskView, name: Seq<char>) -> bool {
    hands_no_text(task, "generate resmoke tasks"@, name)
}

/// The generating call of a task hands over a number under a name.
pub open spec fn is_given_number(task: EvgTaskView, name: Seq<char>, number: u64) -> bool {
    exists|text: Seq<char>| #[trigger]
        is_given(task, name, text) && parsed_u64(text) == Some(number)
}

/// The generating call of a task hands over a truth value under a name.
pub open spec fn is_given_truth(task: EvgTaskView, name: Seq<char>, truth: bool) -> bool {
    is_given(task, name, if truth {
            "true"@
        } else {
            "false"@
        })
}

/// A task depends on another.
pub open spec fn depends_on(task: EvgTaskView, name: Seq<char>) -> bool {
    task.depends_on matches Some(dependencies) && exists|i: int|
        0 <= i < dependencies.len() && (#[trigger] dependencies[i]).name == name
}

/// A task generates tasks of a name.
pub open spec fn generates(task: EvgTaskView, name: Seq<char>) -> bool {
    ||| task.name == name + "_gen"@
    ||| task.name == name && !"_gen"@.is_suffix_of(name)
}

/// The tests of the enterprise module run on a build variant.
pub open spec fn has_enterprise(variant: BuildVariantView) -> bool {
    forall|name: Seq<char>, value: Seq<char>| #[trigger]
        expands(variant, name, value) ==> !regex_is_match(
            r"--enableEnterpriseTests\s*=?\s*off"@,
            value,
        )
}

/// What is handed over under a name is what is looked up.
proof fn lemma_given(task: EvgTaskView, name: Seq<char>)
    ensures
        forall|text: Seq<char>| #[trigger]
            is_given(task, name, text) <==> gen_task_var(task, name) == Some(text),
        is_missing(task, name) <==> gen_task_var(task, name) is None,
{
    assert forall|text: Seq<char>| #[trigger] is_given(task, name, text) <==> gen_task_var(
        task,
        name,
    ) == Some(text) by {
        law_generating_call_gives_variables(task, name, text);
    }
    if let Some(text) = gen_task_var(task, name) {
        assert(is_given(task, name, text));
        assert(hands_text(task, "generate resmoke tasks"@, name, text));
    }
    if gen_task_var(task, name) is None {
        assert forall|text: Seq<char>| !#[trigger] hands_text(
            task,
            "generate resmoke tasks"@,
            name,
            text,
        ) by {
            assert(!is_given(task, name, text));
        }
    }
}

/// A number that is handed over is the one that is read.
proof fn lemma_given_number(task: EvgTaskView, name: Seq<char>, number: u64)
    ensures
        is_given_number(task, name, number) <==> gen_task_var(task, name) is Some && parsed_u64(
            gen_task_var(task, name).unwrap(),
        ) == Some(number),
{
    lemma_given(task, name);
    if let Some(text) = gen_task_var(task, name) {
        assert(is_given(task, name, text));
    }
}

/// A truth value that is handed over is the one that is read.
proof fn lemma_given_truth(task: EvgTaskView, name: Seq<char>)
    ensures
        forall|truth: bool| #[trigger]
            is_given_truth(task, name, truth) <==> gen_task_var(task, name) is Some
                && crate::utils::number::parsed_bool(gen_task_var(task, name).unwrap()) == Some(
                truth,
            ),
{
    lemma_given(task, name);
    reveal_strlit("true");
    reveal_strlit("false");
    assert("true"@.len() != "false"@.len());
}

proof fn lemma_dependencies(task: EvgTaskView, generating_task: Seq<char>, name: Seq<char>)
    ensures
        without_text(dependency_names(task), generating_task).contains(name) <==> name
            != generating_task && depends_on(task, name),
{
    law_dependencies_without_generating_task(dependency_names(task), generating_task, name);
    if let Some(dependencies) = task.depends_on {
        let names = dependency_names(task);
        if names.contains(name) {
            let i = names.index_of(name);
            assert(dependencies[i].name == name);
        }
        if depends_on(task, name) {
            let i = choose|i: int|
                0 <= i < dependencies.len() && (#[trigger] dependencies[i]).name == name;
            assert(names[i] == name);
        }
    }
}

proof fn lemma_generates(task: EvgTaskView)
    ensures
        generates(task, crate::utils::task_name::without_gen_suffix(task.name)),
{
    let suffix = "_gen"@;
    if suffix.is_suffix_of(task.name) {
        let name = task.name.take(task.name.len() - suffix.len());
        assert(task.name =~= name + suffix);
    }
}

proof fn lemma_enterprise(variant: BuildVariantView)
    ensures
        has_enterprise(variant) <==> !crate::evergreen::evg_config_utils::enterprise_switched_off(
            variant,
        ),
{
    law_enterprise_is_switched_off_by_expansions(variant);
}

/// The parameters of a fuzzer task are those that its generating call hands over, each under its
/// own name, and those that the task and its build variant tell.
pub proof fn law_fuzzer_parameters_are_those_given(
    generating_task: Seq<char>,
    config_location: Seq<char>,
    task_def: EvgTask,
    variant: BuildVariantView,
    num_files: Seq<char>,
    params: FuzzerGenTaskParamsView,
)
    requires
        fuzzer_params_of(generating_task, config_location, task_def, variant, num_files) == Ok::<
            _,
            ConfigErrorView,
        >(params),
    ensures
        is_given_number(task_def.deep_view(), "num_tasks"@, params.num_tasks),
        is_given(task_def.deep_view(), "resmoke_args"@, params.resmoke_args),
        is_given_truth(task_def.deep_view(), "continue_on_failure"@, params.continue_on_failure),
        is_given_number(task_def.deep_view(), "resmoke_jobs_max"@, params.resmoke_jobs_max),
        is_given_truth(task_def.deep_view(), "should_shuffle"@, params.should_shuffle),
        is_given_number(task_def.deep_view(), "timeout_secs"@, params.timeout_secs),
        is_given(task_def.deep_view(), "npm_command"@, params.npm_command) || is_missing(
            task_def.deep_view(),
            "npm_command"@,
        ) && params.npm_command == "jstestfuzz"@,
        params.jstestfuzz_vars matches Some(vars) ==> is_given(
            task_def.deep_view(),
            "jstestfuzz_vars"@,
            vars,
        ),
        params.jstestfuzz_vars is None ==> is_missing(task_def.deep_view(), "jstestfuzz_vars"@),
        params.num_files == num_files,
        params.require_multiversion_setup <==> is_tagged(task_def.deep_view(), "multiversion"@),
        params.multiversion_generate_tasks == multiversion_tasks_of(task_def),
        params.suite == suite_name_of(task_def.deep_view()),
        generates(task_def.deep_view(), params.task_name),
        params.variant == variant.name,
        params.config_location == config_location,
        forall|name: Seq<char>| #[trigger]
            params.dependencies.contains(name) <==> name != generating_task && depends_on(
                task_def.deep_view(),
                name,
            ),
        params.is_enterprise <==> has_enterprise(variant),
        params.platform == Some(variant_platform(variant)),
{
    let task = task_def.deep_view();
    lemma_given_number(task, "num_tasks"@, params.num_tasks);
    lemma_given(task, "resmoke_args"@);
    lemma_given_truth(task, "continue_on_failure"@);
    lemma_given_number(task, "resmoke_jobs_max"@, params.resmoke_jobs_max);
    lemma_given_truth(task, "should_shuffle"@);
    lemma_given_number(task, "timeout_secs"@, params.timeout_secs);
    lemma_given(task, "npm_command"@);
    lemma_given(task, "jstestfuzz_vars"@);
    lemma_generates(task);
    lemma_enterprise(variant);
    assert forall|name: Seq<char>| #[trigger] params.dependencies.contains(name) <==> name
        != generating_task && depends_on(task, name) by {
        lemma_dependencies(task, generating_task, name);
    }
}

/// The parameters of a fuzzer task are found where its generating call hands over all that has to
/// be given.
pub proof fn law_complete_fuzzer_tasks_have_parameters(
    generating_task: Seq<char>,
    config_location: Seq<char>,
    task_def: EvgTask,
    variant: BuildVariantView,
    num_files: Seq<char>,
    num_tasks: u64,
    resmoke_args: Seq<char>,
    continue_on_failure: bool,
    resmoke_jobs_max: u64,
    should_shuffle: bool,
    timeout_secs: u64,
)
    requires
        is_given_number(task_def.deep_view(), "num_tasks"@, num_tasks),
        is_given(task_def.deep_view(), "resmoke_args"@, resmoke_args),
        is_given_truth(task_def.deep_view(), "continue_on_failure"@, continue_on_failure),
        is_given_number(task_def.deep_view(), "resmoke_jobs_max"@, resmoke_jobs_max),
        is_given_truth(task_def.deep_view(), "should_shuffle"@, should_shuffle),
        is_given_number(task_def.deep_view(), "timeout_secs"@, timeout_secs),
    ensures
        fuzzer_params_of(
            generating_task,
            config_location,
            task_def,
            variant,
            num_files,
        ) matches Ok(params) && params.num_tasks == num_tasks && params.resmoke_args == resmoke_args
            && params.continue_on_failure == continue_on_failure && params.resmoke_jobs_max
            == resmoke_jobs_max && params.should_shuffle == should_shuffle && params.timeout_secs
            == timeout_secs,
{
    let task = task_def.deep_view();
    lemma_given_number(task, "num_tasks"@, num_tasks);
    lemma_given(task, "resmoke_args"@);
    lemma_given_truth(task, "continue_on_failure"@);
    lemma_given_number(task, "resmoke_jobs_max"@, resmoke_jobs_max);
    lemma_given_truth(task, "should_shuffle"@);
    lemma_given_number(task, "timeout_secs"@, timeout_secs);
}

/// Where the parameters of a fuzzer task are not found, the error names what is missing from the
/// task, or the text that is no number or no truth value.
pub proof fn law_fuzzer_errors_tell_the_cause(
    generating_task: Seq<char>,
    config_location: Seq<char>,
    task_def: EvgTask,
    variant: BuildVariantView,
    num_files: Seq<char>,
)
    ensures
        fuzzer_params_of(
            generating_task,
            config_location,
            task_def,
            variant,
            num_files,
        ) matches Err(error) ==> match error {
            ConfigErrorView::MissingVar { var, task } => task == task_def.deep_view().name
                && is_missing(task_def.deep_view(), var),
            ConfigErrorView::NotANumber { value } => parsed_u64(value) is None && exists|
                name: Seq<char>,
            | #[trigger] is_given(task_def.deep_view(), name, value),
            ConfigErrorView::NotABool { value } => value != "true"@ && value != "false"@
                && exists|name: Seq<char>| #[trigger]
                is_given(task_def.deep_view(), name, value),
            ConfigErrorView::MissingLargeDistro { .. } => false,
        },
{
    let task = task_def.deep_view();
    lemma_given(task, "num_tasks"@);
    lemma_given(task, "resmoke_args"@);
    lemma_given(task, "continue_on_failure"@);
    lemma_given(task, "resmoke_jobs_max"@);
    lemma_given(task, "should_shuffle"@);
    lemma_given(task, "timeout_secs"@);
    let result = fuzzer_params_of(generating_task, config_location, task_def, variant, num_files);
    if let Err(error) = result {
        match error {
            ConfigErrorView::NotANumber { value } => {
                assert(is_given(task, "num_tasks"@, value) || is_given(
                    task,
                    "resmoke_jobs_max"@,
                    value,
                ) || is_given(task, "timeout_secs"@, value));
            },
            ConfigErrorView::NotABool { value } => {
                assert(is_given(task, "continue_on_failure"@, value) || is_given(
                    task,
                    "should_shuffle"@,
                    value,
                ));
            },
            _ => {},
        }
    }
}

/// The files that a fuzzer task generates are counted by its generating call, or by the build
/// variant where the call refers to one of its expansions.
pub proof fn law_number_of_files_is_the_one_given(
    task: EvgTaskView,
    variant: BuildVariantView,
    text: Seq<char>,
)
    requires
        is_given(task, "num_files"@, text),
    ensures
        ({
            let groups = regex_named_groups(
                r"\$\{(?P<id>[a-zA-Z0-9_]+)(\|(?P<default>.*))?}"@,
                text,
                "id"@,
                "default"@,
            );
            &&& groups is None ==> num_files_of(task, variant) == Some(text)
            &&& groups matches Some((id, default)) ==> {
                &&& forall|value: Seq<char>| #[trigger]
                    expands(variant, id, value) ==> num_files_of(task, variant) == Some(value)
                &&& (forall|value: Seq<char>| !#[trigger] expands(variant, id, value))
                    ==> num_files_of(task, variant) == default
            }
        }),
{
    lemma_given(task, "num_files"@);
    let groups = regex_named_groups(
        r"\$\{(?P<id>[a-zA-Z0-9_]+)(\|(?P<default>.*))?}"@,
        text,
        "id"@,
        "default"@,
    );
    if let Some((id, default)) = groups {
        law_expansions_in_variables_are_replaced(text, id, default, variant);
    }
}

/// The parameters of a resmoke task are those that its generating call hands over, each under its
/// own name, and those that the task and its build variant tell.
pub proof fn law_resmoke_parameters_are_those_given(
    generating_task: Seq<char>,
    config_location: Seq<char>,
    task_def: EvgTask,
    is_enterprise: bool,
    variant: Option<BuildVariantView>,
    platform: Option<Seq<char>>,
    params: ResmokeGenParamsView,
)
    requires
        resmoke_params_of(
            generating_task,
            config_location,
            task_def,
            is_enterprise,
            variant,
            platform,
        ) == Ok::<_, ConfigErrorView>(params),
    ensures
        forall|text: Seq<char>| #[trigger]
            is_given(task_def.deep_view(), "resmoke_args"@, text) ==> params.resmoke_args == text,
        is_missing(task_def.deep_view(), "resmoke_args"@) ==> params.resmoke_args.len() == 0,
        is_given_truth(task_def.deep_view(), "use_large_distro"@, params.use_large_distro)
            || is_missing(task_def.deep_view(), "use_large_distro"@) && !params.use_large_distro,
        is_given_truth(task_def.deep_view(), "use_xlarge_distro"@, params.use_xlarge_distro)
            || is_missing(task_def.deep_view(), "use_xlarge_distro"@) && !params.use_xlarge_distro,
        params.repeat_suites matches Some(number) ==> is_given_number(
            task_def.deep_view(),
            "resmoke_repeat_suites"@,
            number,
        ),
        params.repeat_suites is None <==> is_missing(
            task_def.deep_view(),
            "resmoke_repeat_suites"@,
        ),
        params.resmoke_jobs_max matches Some(number) ==> is_given_number(
            task_def.deep_view(),
            "resmoke_jobs_max"@,
            number,
        ),
        params.resmoke_jobs_max is None <==> is_missing(
            task_def.deep_view(),
            "resmoke_jobs_max"@,
        ),
        forall|number: u64| #[trigger]
            is_given_number(task_def.deep_view(), "num_tasks"@, number) ==> params.num_tasks
                == Some(number as usize),
        params.num_tasks is None <==> is_missing(task_def.deep_view(), "num_tasks"@),
        params.require_multiversion_setup <==> is_tagged(task_def.deep_view(), "multiversion"@),
        params.require_multiversion_generate_tasks <==> is_tagged(
            task_def.deep_view(),
            "multiversion"@,
        ) && !is_tagged(task_def.deep_view(), "no_multiversion_generate_tasks"@),
        params.multiversion_generate_tasks == multiversion_tasks_of(task_def),
        params.suite_name == suite_name_of(task_def.deep_view()),
        generates(task_def.deep_view(), params.task_name),
        params.config_location == config_location,
        forall|name: Seq<char>| #[trigger]
            params.dependencies.contains(name) <==> name != generating_task && depends_on(
                task_def.deep_view(),
                name,
            ),
        params.is_enterprise == is_enterprise,
        params.platform == platform,
        forall|vars: VarsView| #[trigger]
            hands_over(task_def.deep_view(), "generate resmoke tasks"@, vars)
                <==> params.pass_through_vars == Some(vars),
        forall|suffix: Seq<char>|
            params.gen_task_suffix == Some(suffix) <==> variant is Some && #[trigger] expands(
                variant.unwrap(),
                "unique_gen_suffix"@,
                suffix,
            ),
{
    let task = task_def.deep_view();
    lemma_given(task, "resmoke_args"@);
    reveal_strlit("");
    lemma_given(task, "use_large_distro"@);
    lemma_given_truth(task, "use_large_distro"@);
    lemma_given(task, "use_xlarge_distro"@);
    lemma_given_truth(task, "use_xlarge_distro"@);
    lemma_given(task, "resmoke_repeat_suites"@);
    if let Some(number) = params.repeat_suites {
        lemma_given_number(task, "resmoke_repeat_suites"@, number);
    }
    lemma_given(task, "resmoke_jobs_max"@);
    if let Some(number) = params.resmoke_jobs_max {
        lemma_given_number(task, "resmoke_jobs_max"@, number);
    }
    lemma_given(task, "num_tasks"@);
    assert forall|number: u64| #[trigger]
        is_given_number(task, "num_tasks"@, number) implies params.num_tasks == Some(
        number as usize,
    ) by {
        lemma_given_number(task, "num_tasks"@, number);
    }
    lemma_generates(task);
    assert forall|name: Seq<char>| #[trigger] params.dependencies.contains(name) <==> name
        != generating_task && depends_on(task, name) by {
        lemma_dependencies(task, generating_task, name);
    }
    assert forall|vars: VarsView| #[trigger]
        hands_over(task, "generate resmoke tasks"@, vars) <==> params.pass_through_vars == Some(
        vars,
    ) by {
        law_variables_are_those_of_first_call(task, "generate resmoke tasks"@, vars);
    }
}

/// A variable is missing, or a truth value is handed over under its name.
pub open spec fn may_be_truth(task: EvgTaskView, name: Seq<char>) -> bool {
    is_missing(task, name) || is_given_truth(task, name, true) || is_given_truth(task, name, false)
}

/// A variable is missing, or a number is handed over under its name.
pub open spec fn may_be_number(task: EvgTaskView, name: Seq<char>) -> bool {
    is_missing(task, name) || exists|number: u64| #[trigger] is_given_number(task, name, number)
}

proof fn lemma_may_be_truth(task: EvgTaskView, name: Seq<char>)
    ensures
        may_be_truth(task, name) <==> (gen_task_var(task, name) matches Some(text)
            ==> crate::utils::number::parsed_bool(text) is Some),
{
    lemma_given(task, name);
    lemma_given_truth(task, name);
    if let Some(text) = gen_task_var(task, name) {
        if let Some(truth) = crate::utils::number::parsed_bool(text) {
            assert(is_given_truth(task, name, truth));
        }
    }
}

proof fn lemma_may_be_number(task: EvgTaskView, name: Seq<char>)
    ensures
        may_be_number(task, name) <==> (gen_task_var(task, name) matches Some(text) ==> parsed_u64(
            text,
        ) is Some),
{
    lemma_given(task, name);
    if let Some(text) = gen_task_var(task, name) {
        if let Some(number) = parsed_u64(text) {
            lemma_given_number(task, name, number);
        }
        if may_be_number(task, name) {
            let number = choose|number: u64| #[trigger] is_given_number(task, name, number);
            lemma_given_number(task, name, number);
        }
    }
}

/// The parameters of a resmoke task are found unless a text that its generating call hands over is
/// no number or no truth value where one is wanted.
pub proof fn law_resmoke_parameters_are_found(
    generating_task: Seq<char>,
    config_location: Seq<char>,
    task_def: EvgTask,
    is_enterprise: bool,
    variant: Option<BuildVariantView>,
    platform: Option<Seq<char>>,
)
    ensures
        resmoke_params_of(
            generating_task,
            config_location,
            task_def,
            is_enterprise,
            variant,
            platform,
        ) is Ok <==> {
            &&& may_be_truth(task_def.deep_view(), "use_large_distro"@)
            &&& may_be_truth(task_def.deep_view(), "use_xlarge_distro"@)
            &&& may_be_number(task_def.deep_view(), "resmoke_repeat_suites"@)
            &&& may_be_number(task_def.deep_view(), "resmoke_jobs_max"@)
            &&& may_be_number(task_def.deep_view(), "num_tasks"@)
        },
{
    let task = task_def.deep_view();
    lemma_may_be_truth(task, "use_large_distro"@);
    lemma_may_be_truth(task, "use_xlarge_distro"@);
    lemma_may_be_number(task, "resmoke_repeat_suites"@);
    lemma_may_be_number(task, "resmoke_jobs_max"@);
    lemma_may_be_number(task, "num_tasks"@);
}

/// The dependencies of a generated task keep the order in which they are listed.
pub proof fn law_dependencies_keep_their_order(
    listed: Seq<Seq<char>>,
    more: Seq<Seq<char>>,
    generating_task: Seq<char>,
)
    ensures
        without_text(listed + more, generating_task) == without_text(listed, generating_task)
            + without_text(more, generating_task),
        !listed.contains(generating_task) ==> without_text(listed, generating_task) == listed,
    decreases listed.len() + more.len(),
{
    if more.len() > 0 {
        law_dependencies_keep_their_order(listed, more.drop_last(), generating_task);
        assert((listed + more).drop_last() =~= listed + more.drop_last());
    } else {
        assert(listed + more =~= listed);
        if listed.len() > 0 {
            let rest = listed.drop_last();
            law_dependencies_keep_their_order(rest, more, generating_task);
            if !listed.contains(generating_task) {
                assert(listed.contains(listed[listed.len() - 1]));
                if rest.contains(generating_task) {
                    let i = rest.index_of(generating_task);
                    assert(listed[i] == generating_task);
                }
                assert(rest.push(listed.last()) =~= listed);
            }
        } else {
            assert(listed =~= Seq::<Seq<char>>::empty());
        }
    }
    if more.len() > 0 && !listed.contains(generating_task) {
        law_dependencies_keep_their_order(listed, Seq::empty(), generating_task);
    }
}

/// A sub-task that asks for a larger distro runs on one that the build variant names: on the extra
/// large one where some sub-task asks for it and there is one, and on the large one otherwise.
pub proof fn law_larger_distros_are_those_named(
    exceptions: Option<Set<Seq<char>>>,
    suite: SuiteView,
    variant: BuildVariantView,
    depends_on: Option<Seq<TaskDependencyView>>,
    i: int,
    distro: Seq<char>,
)
    requires
        0 <= i < suite.sub_tasks.len(),
    ensures
        suite.sub_tasks[i].use_xlarge_distro && expands(variant, "xlarge_distro_name"@, distro)
            ==> large_distro_of(exceptions, suite, variant) == Ok::<_, ConfigErrorView>(
            Some(distro),
        ),
        suite.sub_tasks[i].use_xlarge_distro && expands(variant, "large_distro_name"@, distro) && (
        forall|other: Seq<char>| !#[trigger] expands(variant, "xlarge_distro_name"@, other))
            ==> large_distro_of(exceptions, suite, variant) == Ok::<_, ConfigErrorView>(
            Some(distro),
        ),
        suite.sub_tasks[i].use_large_distro && expands(variant, "large_distro_name"@, distro) && (
        forall|j: int|
            0 <= j < suite.sub_tasks.len() ==> !(#[trigger] suite.sub_tasks[j]).use_xlarge_distro)
            ==> large_distro_of(exceptions, suite, variant) == Ok::<_, ConfigErrorView>(
            Some(distro),
        ),
        (forall|j: int|
            0 <= j < suite.sub_tasks.len() ==> !(#[trigger] suite.sub_tasks[j]).use_xlarge_distro
                && !suite.sub_tasks[j].use_large_distro) ==> large_distro_of(
            exceptions,
            suite,
            variant,
        ) == Ok::<Option<Seq<char>>, ConfigErrorView>(None),
        (forall|other: Seq<char>| !#[trigger] expands(variant, "xlarge_distro_name"@, other)) && (
        forall|other: Seq<char>| !#[trigger] expands(variant, "large_distro_name"@, other))
            && suite.sub_tasks[i].use_large_distro ==> (if exceptions matches Some(names)
            && names.contains(variant.name) {
            large_distro_of(exceptions, suite, variant) == Ok::<Option<Seq<char>>, ConfigErrorView>(None)
        } else {
            large_distro_of(exceptions, suite, variant) == Err::<Option<Seq<char>>, _>(
                ConfigErrorView::MissingLargeDistro { build_variant: variant.name },
            )
        }),
        suite.sub_tasks[i].use_large_distro || suite.sub_tasks[i].use_xlarge_distro
            ==> task_refs_of(suite, Some(distro), depends_on)[i].distros == Some(seq![distro]),
        task_refs_of(suite, None, depends_on)[i].distros is None,
        !suite.sub_tasks[i].use_large_distro && !suite.sub_tasks[i].use_xlarge_distro
            ==> task_refs_of(suite, Some(distro), depends_on)[i].distros is None,
{
    lemma_expands(variant, "xlarge_distro_name"@);
    lemma_expands(variant, "large_distro_name"@);
    if suite.sub_tasks[i].use_large_distro {
        assert(crate::task_types::generated_suite::any_large(suite.sub_tasks));
    }
    if suite.sub_tasks[i].use_xlarge_distro {
        assert(crate::task_types::generated_suite::any_xlarge(suite.sub_tasks));
    }
}

proof fn lemma_expands(variant: BuildVariantView, name: Seq<char>)
    ensures
        match crate::evergreen::evg_config_utils::expansion(variant, name) {
            Some(value) => expands(variant, name, value),
            None => forall|value: Seq<char>| !#[trigger] expands(variant, name, value),
        },
{
}

/// Where the parameters of a resmoke task are not found, the error names the text that is no
/// number or no truth value.
pub proof fn law_resmoke_errors_tell_the_cause(
    generating_task: Seq<char>,
    config_location: Seq<char>,
    task_def: EvgTask,
    is_enterprise: bool,
    variant: Option<BuildVariantView>,
    platform: Option<Seq<char>>,
)
    ensures
        resmoke_params_of(
            generating_task,
            config_location,
            task_def,
            is_enterprise,
            variant,
            platform,
        ) matches Err(error) ==> match error {
            ConfigErrorView::NotANumber { value } => parsed_u64(value) is None && exists|
                name: Seq<char>,
            | #[trigger] is_given(task_def.deep_view(), name, value),
            ConfigErrorView::NotABool { value } => value != "true"@ && value != "false"@
                && exists|name: Seq<char>| #[trigger]
                is_given(task_def.deep_view(), name, value),
            _ => false,
        },
{
    let task = task_def.deep_view();
    lemma_given(task, "use_large_distro"@);
    lemma_given(task, "use_xlarge_distro"@);
    lemma_given(task, "resmoke_repeat_suites"@);
    lemma_given(task, "resmoke_jobs_max"@);
    lemma_given(task, "num_tasks"@);
    let result = resmoke_params_of(
        generating_task,
        config_location,
        task_def,
        is_enterprise,
        variant,
        platform,
    );
    if let Err(error) = result {
        match error {
            ConfigErrorView::NotANumber { value } => {
                assert(is_given(task, "resmoke_repeat_suites"@, value) || is_given(
                    task,
                    "resmoke_jobs_max"@,
                    value,
                ) || is_given(task, "num_tasks"@, value));
            },
            ConfigErrorView::NotABool { value } => {
                assert(is_given(task, "use_large_distro"@, value) || is_given(
                    task,
                    "use_xlarge_distro"@,
                    value,
                ));
            },
            _ => {},
        }
    }
}

/// A text that has to be given is what is handed over under its name, and an error that names it
/// and the task where nothing is.
pub proof fn law_required_texts_are_those_given(task: EvgTaskView, name: Seq<char>)
    ensures
        forall|text: Seq<char>| #[trigger]
            is_given(task, name, text) <==> required_str(task, name) == Ok::<_, ConfigErrorView>(
                text,
            ),
        is_missing(task, name) <==> required_str(task, name) == Err::<Seq<char>, _>(
            ConfigErrorView::MissingVar { var: name, task: task.name },
        ),
{
    lemma_given(task, name);
}

/// A number that has to be given is what is handed over under its name. It is an error where
/// nothing is, or where that is no number. One that may be missing is none where nothing is handed
/// over.
pub proof fn law_numbers_are_those_given(
    task: EvgTaskView,
    name: Seq<char>,
    number: u64,
    text: Seq<char>,
)
    ensures
        is_given_number(task, name, number) <==> required_u64(task, name) == Ok::<
            _,
            ConfigErrorView,
        >(number),
        is_given_number(task, name, number) <==> optional_u64(task, name) == Ok::<
            _,
            ConfigErrorView,
        >(Some(number)),
        is_missing(task, name) <==> required_u64(task, name) == Err::<u64, _>(
            ConfigErrorView::MissingVar { var: name, task: task.name },
        ),
        is_missing(task, name) <==> optional_u64(task, name) == Ok::<Option<u64>, ConfigErrorView>(
            None,
        ),
        is_given(task, name, text) && parsed_u64(text) is None ==> required_u64(task, name)
            == Err::<u64, _>(ConfigErrorView::NotANumber { value: text }) && optional_u64(task, name)
            == Err::<Option<u64>, _>(ConfigErrorView::NotANumber { value: text }),
{
    lemma_given(task, name);
    lemma_given_number(task, name, number);
}

/// A truth value that has to be given is what is handed over under its name. It is an error where
/// nothing is, or where that is no truth value. One that may be missing is the default where
/// nothing is handed over.
pub proof fn law_truth_values_are_those_given(
    task: EvgTaskView,
    name: Seq<char>,
    truth: bool,
    default: bool,
    text: Seq<char>,
)
    ensures
        is_given_truth(task, name, truth) <==> required_bool(task, name) == Ok::<
            _,
            ConfigErrorView,
        >(truth),
        is_given_truth(task, name, truth) ==> default_bool(task, name, default) == Ok::<
            _,
            ConfigErrorView,
        >(truth),
        is_missing(task, name) <==> required_bool(task, name) == Err::<bool, _>(
            ConfigErrorView::MissingVar { var: name, task: task.name },
        ),
        is_missing(task, name) ==> default_bool(task, name, default) == Ok::<_, ConfigErrorView>(
            default,
        ),
        is_given(task, name, text) && text != "true"@ && text != "false"@ ==> required_bool(
            task,
            name,
        ) == Err::<bool, _>(ConfigErrorView::NotABool { value: text }) && default_bool(
            task,
            name,
            default,
        ) == Err::<bool, _>(ConfigErrorView::NotABool { value: text }),
{
    lemma_given(task, name);
    lemma_given_truth(task, name);
    assert(is_given_truth(task, name, truth) <==> gen_task_var(task, name) is Some
        && crate::utils::number::parsed_bool(gen_task_var(task, name).unwrap()) == Some(truth));
}

/// A larger distro is one that the build variant names: the extra large one only where some
/// sub-task asks for that, and any only where some sub-task asks for one.
pub proof fn law_larger_distros_come_from_the_variant(
    exceptions: Option<Set<Seq<char>>>,
    suite: SuiteView,
    variant: BuildVariantView,
    distro: Seq<char>,
)
    requires
        large_distro_of(exceptions, suite, variant) == Ok::<_, ConfigErrorView>(Some(distro)),
    ensures
        expands(variant, "large_distro_name"@, distro) || expands(
            variant,
            "xlarge_distro_name"@,
            distro,
        ),
        !expands(variant, "large_distro_name"@, distro) ==> exists|i: int|
            0 <= i < suite.sub_tasks.len() && (#[trigger] suite.sub_tasks[i]).use_xlarge_distro,
        exists|i: int|
            0 <= i < suite.sub_tasks.len() && ((#[trigger] suite.sub_tasks[i]).use_large_distro
                || suite.sub_tasks[i].use_xlarge_distro),
{
    lemma_expands(variant, "xlarge_distro_name"@);
    lemma_expands(variant, "large_distro_name"@);
}

} // verus!
