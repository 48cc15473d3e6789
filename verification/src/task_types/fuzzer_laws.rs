//! What holds of the sub-tasks of a fuzzer.

use vstd::prelude::*;

use crate::evergreen::evg_config_utils::MultiversionGenerateTaskConfigView;
use crate::evergreen::model::{EvgCommandView, EvgTaskView, ParamValueView, VarsView};
use crate::task_types::fuzzer_tasks::{
    fuzzer_commands, fuzzer_parameters, fuzzer_run_vars, fuzzer_sub_task, fuzzer_tasks,
    multiversion_fuzzer_tasks, FuzzerGenTaskParamsView,
};
use crate::task_types::sub_task_laws::{
    depends_on_all, has_no_more, holds, is_set_up, lemma_depends_on_all, runs_plainly, runs_with,
};
use crate::utils::number_laws::{is_numbered_name, law_sub_task_names_hold_their_index};

verus! {

/// The variables under which the generated tests of a fuzzer run.
pub open spec fn are_fuzzer_variables(
    vars: VarsView,
    params: FuzzerGenTaskParamsView,
    suite: Seq<char>,
    old_version: Option<Seq<char>>,
) -> bool {
    &&& holds(vars, "continue_on_failure"@, ParamValueView::Bool(params.continue_on_failure))
    &&& holds(
        vars,
        "gen_task_config_location"@,
        ParamValueView::String(params.config_location),
    )
    &&& holds(
        vars,
        "require_multiversion_setup"@,
        ParamValueView::Bool(params.require_multiversion_setup),
    )
    &&& holds(vars, "resmoke_args"@, ParamValueView::String(params.resmoke_args))
    &&& holds(vars, "resmoke_jobs_max"@, ParamValueView::Number(params.resmoke_jobs_max))
    &&& holds(vars, "should_shuffle"@, ParamValueView::Bool(params.should_shuffle))
    &&& holds(vars, "task"@, ParamValueView::String(params.task_name))
    &&& holds(vars, "timeout_secs"@, ParamValueView::Number(params.timeout_secs))
    &&& holds(vars, "suite"@, ParamValueView::String(suite))
    &&& match old_version {
        Some(version) => holds(
            vars,
            "multiversion_exclude_tags_version"@,
            ParamValueView::String(version),
        ),
        None => !vars.contains_key("multiversion_exclude_tags_version"@),
    }
}

/// The variables under which the fuzzer generates its tests.
pub open spec fn are_generator_variables(vars: VarsView, params: FuzzerGenTaskParamsView) -> bool {
    &&& holds(vars, "npm_command"@, ParamValueView::String(params.npm_command))
    &&& holds(
        vars,
        "jstestfuzz_vars"@,
        ParamValueView::String(
            "--numGeneratedFiles "@ + params.num_files + " "@ + (match params.jstestfuzz_vars {
                Some(vars) => vars,
                None => ""@,
            }),
        ),
    )
}

/// A command has the fuzzer generate tests.
pub open spec fn generates_tests(command: EvgCommandView, params: FuzzerGenTaskParamsView) -> bool {
    exists|vars: VarsView| #[trigger]
        runs_with(command, "run jstestfuzz"@, vars) && are_generator_variables(vars, params)
}

/// A command runs the tests that were generated.
pub open spec fn runs_generated_tests(
    command: EvgCommandView,
    params: FuzzerGenTaskParamsView,
    suite: Seq<char>,
    old_version: Option<Seq<char>>,
) -> bool {
    exists|vars: VarsView| #[trigger]
        runs_with(command, "run generated tests"@, vars) && are_fuzzer_variables(
            vars,
            params,
            suite,
            old_version,
        )
}

/// A task sets up the fuzzer, has it generate tests and runs these.
pub open spec fn runs_fuzzer(
    task: EvgTaskView,
    params: FuzzerGenTaskParamsView,
    suite: Seq<char>,
    old_version: Option<Seq<char>>,
) -> bool {
    &&& task.commands matches Some(commands) && {
        let n = commands.len() as int;
        &&& is_set_up(commands, params.require_multiversion_setup, n - 3)
        &&& runs_plainly(commands[n - 3], "setup jstestfuzz"@)
        &&& generates_tests(commands[n - 2], params)
        &&& runs_generated_tests(commands[n - 1], params, suite, old_version)
    }
    &&& depends_on_all(task, params.dependencies)
    &&& has_no_more(task)
}

#[verifier::rlimit(40)]
proof fn lemma_fuzzer_variables(
    params: FuzzerGenTaskParamsView,
    suite: Option<Seq<char>>,
    old_version: Option<Seq<char>>,
)
    ensures
        are_fuzzer_variables(
            fuzzer_run_vars(params, suite, old_version),
            params,
            match suite {
                Some(suite) => suite,
                None => params.suite,
            },
            old_version,
        ),
{
    reveal_strlit("continue_on_failure");
    assert("continue_on_failure"@.len() == 19);
    reveal_strlit("gen_task_config_location");
    assert("gen_task_config_location"@.len() == 24);
    reveal_strlit("require_multiversion_setup");
    assert("require_multiversion_setup"@.len() == 26);
    reveal_strlit("resmoke_args");
    assert("resmoke_args"@.len() == 12);
    reveal_strlit("resmoke_jobs_max");
    assert("resmoke_jobs_max"@.len() == 16);
    reveal_strlit("should_shuffle");
    assert("should_shuffle"@.len() == 14);
    reveal_strlit("task");
    assert("task"@.len() == 4);
    reveal_strlit("timeout_secs");
    assert("timeout_secs"@.len() == 12);
    reveal_strlit("suite");
    assert("suite"@.len() == 5);
    reveal_strlit("multiversion_exclude_tags_version");
    assert("multiversion_exclude_tags_version"@.len() == 33);
    assert("resmoke_args"@[0] == 'r');
    assert("timeout_secs"@[0] == 't');
}

proof fn lemma_generator_variables(params: FuzzerGenTaskParamsView)
    ensures
        are_generator_variables(fuzzer_parameters(params), params),
{
    reveal_strlit("npm_command");
    assert("npm_command"@.len() == 11);
    reveal_strlit("jstestfuzz_vars");
    assert("jstestfuzz_vars"@.len() == 15);
    reveal_strlit("");
    assert(""@ =~= Seq::<char>::empty());
}

proof fn lemma_runs_fuzzer(
    params: FuzzerGenTaskParamsView,
    display_name: Seq<char>,
    index: usize,
    suite: Option<Seq<char>>,
    old_version: Option<Seq<char>>,
)
    ensures
        runs_fuzzer(
            fuzzer_sub_task(params, display_name, index, suite, old_version),
            params,
            match suite {
                Some(suite) => suite,
                None => params.suite,
            },
            old_version,
        ),
        is_numbered_name(
            fuzzer_sub_task(params, display_name, index, suite, old_version).name,
            display_name,
            index,
            (params.num_tasks as usize) as nat,
            params.is_enterprise,
        ),
{
    let task = fuzzer_sub_task(params, display_name, index, suite, old_version);
    let commands = fuzzer_commands(params, suite, old_version);
    let n = commands.len() as int;
    lemma_fuzzer_variables(params, suite, old_version);
    lemma_generator_variables(params);
    assert(runs_with(commands[n - 2], "run jstestfuzz"@, fuzzer_parameters(params)));
    assert(runs_with(
        commands[n - 1],
        "run generated tests"@,
        fuzzer_run_vars(params, suite, old_version),
    ));
    lemma_depends_on_all(task, params.dependencies);
    let run_suite = match suite {
        Some(suite) => suite,
        None => params.suite,
    };
    assert(generates_tests(commands[n - 2], params));
    assert(runs_generated_tests(commands[n - 1], params, run_suite, old_version));
    law_sub_task_names_hold_their_index(
        display_name,
        index,
        (params.num_tasks as usize) as nat,
        params.is_enterprise,
    );
}

/// Each sub-task of a fuzzer generates tests as its parameters ask for, and runs them on the suite
/// of the fuzzer with the variables that its parameters give, each under its own name.
pub proof fn law_fuzzer_sub_tasks_run_as_asked(params: FuzzerGenTaskParamsView, i: int)
    requires
        !params.require_multiversion_setup,
        params.num_tasks <= usize::MAX,
        0 <= i < params.num_tasks,
    ensures
        runs_fuzzer(fuzzer_tasks(params)[i], params, params.suite, None),
        is_numbered_name(
            fuzzer_tasks(params)[i].name,
            params.task_name,
            i as usize,
            params.num_tasks as nat,
            params.is_enterprise,
        ),
{
    lemma_runs_fuzzer(params, params.task_name, i as usize, None, None);
}

proof fn lemma_multiversion_fuzzer_task(
    params: FuzzerGenTaskParamsView,
    configs: Seq<MultiversionGenerateTaskConfigView>,
    c: int,
    i: int,
)
    requires
        params.num_tasks <= usize::MAX,
        0 <= c < configs.len(),
        0 <= i < params.num_tasks,
    ensures
        multiversion_fuzzer_tasks(params, configs).len() == configs.len() * params.num_tasks,
        0 <= c * params.num_tasks + i < configs.len() * params.num_tasks,
        multiversion_fuzzer_tasks(params, configs)[c * params.num_tasks + i] == fuzzer_sub_task(
            params,
            configs[c].suite_name,
            i as usize,
            Some(configs[c].suite_name),
            Some(configs[c].old_version),
        ),
    decreases configs.len(),
{
    let rest = configs.drop_last();
    let n = params.num_tasks as int;
    let m = configs.len() as int;
    lemma_multiversion_fuzzer_count(params, rest);
    assert((m - 1) * n + n == m * n) by (nonlinear_arith);
    assert(c * n + i < (c + 1) * n) by (nonlinear_arith)
        requires
            i < n,
    ;
    assert((c + 1) * n <= m * n) by (nonlinear_arith)
        requires
            c + 1 <= m,
            n >= 0,
    ;
    assert(0 <= c * n) by (nonlinear_arith)
        requires
            0 <= c,
            0 <= n,
    ;
    if c < m - 1 {
        lemma_multiversion_fuzzer_task(params, rest, c, i);
        assert(rest[c] == configs[c]);
    }
}

proof fn lemma_multiversion_fuzzer_count(
    params: FuzzerGenTaskParamsView,
    configs: Seq<MultiversionGenerateTaskConfigView>,
)
    requires
        params.num_tasks <= usize::MAX,
    ensures
        multiversion_fuzzer_tasks(params, configs).len() == configs.len() * params.num_tasks,
    decreases configs.len(),
{
    if configs.len() > 0 {
        lemma_multiversion_fuzzer_count(params, configs.drop_last());
        assert((configs.len() - 1) * params.num_tasks + params.num_tasks == configs.len()
            * params.num_tasks) by (nonlinear_arith);
    } else {
        assert(0 * params.num_tasks == 0);
    }
}

/// Each multiversion suite of a fuzzer has sub-tasks of its own: they are named after the suite,
/// run its tests, and run them against the version that the suite is meant for.
pub proof fn law_multiversion_fuzzer_sub_tasks_run_as_asked(
    params: FuzzerGenTaskParamsView,
    c: int,
    i: int,
)
    requires
        params.require_multiversion_setup,
        params.multiversion_generate_tasks is Some,
        params.num_tasks <= usize::MAX,
        0 <= c < params.multiversion_generate_tasks.unwrap().len(),
        0 <= i < params.num_tasks,
    ensures
        0 <= c * params.num_tasks + i < fuzzer_tasks(params).len(),
        runs_fuzzer(
            fuzzer_tasks(params)[c * params.num_tasks + i],
            params,
            params.multiversion_generate_tasks.unwrap()[c].suite_name,
            Some(params.multiversion_generate_tasks.unwrap()[c].old_version),
        ),
        is_numbered_name(
            fuzzer_tasks(params)[c * params.num_tasks + i].name,
            params.multiversion_generate_tasks.unwrap()[c].suite_name,
            i as usize,
            params.num_tasks as nat,
            params.is_enterprise,
        ),
{
    let configs = params.multiversion_generate_tasks.unwrap();
    lemma_multiversion_fuzzer_task(params, configs, c, i);
    lemma_runs_fuzzer(
        params,
        configs[c].suite_name,
        i as usize,
        Some(configs[c].suite_name),
        Some(configs[c].old_version),
    );
}

} // verus!
