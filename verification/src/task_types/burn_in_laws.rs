//! What holds of the sub-tasks and build variants of burn_in.

use vstd::prelude::*;

use crate::errors::ConfigErrorView;
use crate::evergreen::lookup_laws::expands;
use crate::evergreen::model::{BuildVariantView, EvgTask, TaskDependencyView};
use crate::resmoke::burn_in_proxy::DiscoveredTaskView;
use crate::services::config_extraction::{large_distro_of, resmoke_params_of};
use crate::task_types::burn_in_tests::{
    burn_in_copies, burn_in_display_name, burn_in_params, burn_in_round, burn_in_sub_task,
    burn_in_tag_variant_of, burn_in_tests_for, copies_suite_of, tests_suite_of, with_multiversion,
    BurnInServiceImpl, BurnInSuiteInfoView,
};
use crate::task_types::generated_suite::{task_refs_of, GeneratedSubTaskView, SuiteView};
use crate::task_types::multiversion::MultiversionService;
use crate::task_types::resmoke_tasks::{ResmokeGenParamsView, SubSuiteView};
use crate::task_types::sub_task_laws::{lemma_runs_tests, runs_tests};
use crate::utils::number_laws::{is_numbered_name, law_sub_task_names_hold_their_index};
use crate::utils::task_name::generated_task_name;

verus! {

/// A sub-task of burn_in is named by a label, what it runs and its build variant, and by its index.
pub open spec fn is_burn_in_name(
    name: Seq<char>,
    label: Seq<char>,
    run: Seq<char>,
    build_variant: Seq<char>,
    index: usize,
    total: nat,
    params: ResmokeGenParamsView,
) -> bool {
    exists|numbered: Seq<char>| #[trigger]
        is_numbered_name(
            numbered,
            label + ":"@ + run + "-"@ + build_variant,
            index,
            total,
            params.is_enterprise,
        ) && name == numbered + (match params.gen_task_suffix {
            Some(suffix) => suffix,
            None => ""@,
        })
}

/// A sub-task of burn_in runs a suite as it is, against an old version where one is given.
pub open spec fn burns_in<M: MultiversionService>(
    sub_task: GeneratedSubTaskView,
    service: M,
    params: ResmokeGenParamsView,
    suite: Seq<char>,
    old_version: Option<Seq<char>>,
) -> bool {
    &&& runs_tests(
        sub_task.evg_task,
        params,
        suite,
        suite,
        old_version,
        service.exclude_tags(params.task_name, old_version),
    )
    &&& sub_task.use_large_distro == params.use_large_distro
    &&& sub_task.use_xlarge_distro == params.use_xlarge_distro
}

proof fn lemma_burns_in<M: MultiversionService>(
    service: M,
    params: ResmokeGenParamsView,
    index: usize,
    info: BurnInSuiteInfoView,
)
    ensures
        burns_in(
            burn_in_sub_task(service, params, index, info),
            service,
            params,
            match info.multiversion_name {
                Some(name) => name,
                None => params.suite_name,
            },
            info.multiversion_tags,
        ),
        is_burn_in_name(
            burn_in_sub_task(service, params, index, info).evg_task.name,
            info.burn_in_label,
            match info.multiversion_name {
                Some(name) => name,
                None => info.task_name,
            },
            info.build_variant,
            index,
            info.total_tests as nat,
            params,
        ),
{
    let origin_suite = match info.multiversion_name {
        Some(name) => name,
        None => params.suite_name,
    };
    let sub_suite = SubSuiteView {
        index: Some(index),
        name: burn_in_display_name(info),
        test_list: Seq::empty(),
        origin_suite,
        exclude_test_list: None,
        mv_exclude_tags: info.multiversion_tags,
        is_enterprise: false,
        platform: None,
    };
    lemma_runs_tests(
        params,
        sub_suite,
        info.total_tests as nat,
        service.exclude_tags(params.task_name, info.multiversion_tags),
        Some(origin_suite),
    );
    law_sub_task_names_hold_their_index(
        burn_in_display_name(info),
        index,
        info.total_tests as nat,
        params.is_enterprise,
    );
    reveal_strlit("");
    assert(""@ =~= Seq::<char>::empty());
    let numbered = generated_task_name(
        burn_in_display_name(info),
        Some(index),
        info.total_tests as nat,
        params.is_enterprise,
    );
    assert(is_numbered_name(
        numbered,
        burn_in_display_name(info),
        index,
        info.total_tests as nat,
        params.is_enterprise,
    ));
}

/// Each round of burn_in holds a sub-task for each multiversion task: it runs the suite of that
/// task against the old version of that task, and is named after that suite.
pub proof fn law_rounds_run_each_multiversion_task<M: MultiversionService>(
    service: M,
    params: ResmokeGenParamsView,
    index: usize,
    info: BurnInSuiteInfoView,
    i: int,
)
    requires
        params.require_multiversion_generate_tasks,
        params.multiversion_generate_tasks is Some,
        0 <= i < params.multiversion_generate_tasks.unwrap().len(),
    ensures
        burn_in_round(service, params, index, info).len()
            == params.multiversion_generate_tasks.unwrap().len(),
        ({
            let task = params.multiversion_generate_tasks.unwrap()[i];
            let sub_task = burn_in_round(service, params, index, info)[i];
            &&& burns_in(sub_task, service, params, task.suite_name, Some(task.old_version))
            &&& is_burn_in_name(
                sub_task.evg_task.name,
                info.burn_in_label,
                task.suite_name,
                info.build_variant,
                index,
                info.total_tests as nat,
                params,
            )
        }),
{
    let task = params.multiversion_generate_tasks.unwrap()[i];
    lemma_burns_in(
        service,
        params,
        index,
        with_multiversion(info, task.suite_name, task.old_version),
    );
}

/// A round of burn_in without multiversion tasks is one sub-task, which runs the suite of the task
/// and is named after the task.
pub proof fn law_rounds_run_the_suite<M: MultiversionService>(
    service: M,
    params: ResmokeGenParamsView,
    index: usize,
    info: BurnInSuiteInfoView,
)
    requires
        !params.require_multiversion_generate_tasks,
        info.multiversion_name is None,
        info.multiversion_tags is None,
    ensures
        burn_in_round(service, params, index, info).len() == 1,
        burns_in(
            burn_in_round(service, params, index, info)[0],
            service,
            params,
            params.suite_name,
            None,
        ),
        is_burn_in_name(
            burn_in_round(service, params, index, info)[0].evg_task.name,
            info.burn_in_label,
            info.task_name,
            info.build_variant,
            index,
            info.total_tests as nat,
            params,
        ),
{
    lemma_burns_in(service, params, index, info);
}

/// The sub-tasks of one round of burn_in that run different suites have different names.
pub proof fn law_round_names_differ<M: MultiversionService>(
    service: M,
    params: ResmokeGenParamsView,
    index: usize,
    info: BurnInSuiteInfoView,
    i: int,
    j: int,
)
    requires
        params.require_multiversion_generate_tasks,
        params.multiversion_generate_tasks is Some,
        0 <= i < params.multiversion_generate_tasks.unwrap().len(),
        0 <= j < params.multiversion_generate_tasks.unwrap().len(),
        params.multiversion_generate_tasks.unwrap()[i].suite_name
            != params.multiversion_generate_tasks.unwrap()[j].suite_name,
    ensures
        burn_in_round(service, params, index, info)[i].evg_task.name != burn_in_round(
            service,
            params,
            index,
            info,
        )[j].evg_task.name,
{
    let tasks = params.multiversion_generate_tasks.unwrap();
    let a = tasks[i].suite_name;
    let b = tasks[j].suite_name;
    let first = burn_in_round(service, params, index, info)[i].evg_task.name;
    let second = burn_in_round(service, params, index, info)[j].evg_task.name;
    let front = info.burn_in_label + ":"@;
    let suffix = match params.gen_task_suffix {
        Some(suffix) => suffix,
        None => Seq::empty(),
    };
    let back = "-"@ + info.build_variant + ("_"@ + crate::utils::number::zero_padded(
        index as nat,
        crate::utils::task_name::index_width(info.total_tests as nat),
    )) + crate::utils::task_name::enterprise_suffix(params.is_enterprise) + suffix;
    assert(first =~= front + a + back);
    assert(second =~= front + b + back);
    if first == second {
        assert(a.len() == b.len());
        assert(first.subrange(front.len() as int, (front.len() + a.len()) as int) =~= a);
        assert(second.subrange(front.len() as int, (front.len() + b.len()) as int) =~= b);
    }
}

/// How many sub-tasks a round of burn_in holds.
pub open spec fn sub_tasks_per_round(params: ResmokeGenParamsView) -> int {
    if params.require_multiversion_generate_tasks {
        params.multiversion_generate_tasks.unwrap().len() as int
    } else {
        1
    }
}

proof fn lemma_place(n: int, size: int, k: int, c: int)
    requires
        0 <= k < n,
        0 <= c < size,
    ensures
        0 <= k * size + c < n * size,
        (n - 1) * size + size == n * size,
        k < n - 1 ==> k * size + c < (n - 1) * size,
{
    assert(0 <= k * size) by (nonlinear_arith)
        requires
            0 <= k,
            0 <= size,
    ;
    assert((k + 1) * size <= n * size) by (nonlinear_arith)
        requires
            k + 1 <= n,
            0 <= size,
    ;
    assert((k + 1) * size == k * size + size) by (nonlinear_arith);
    assert((n - 1) * size + size == n * size) by (nonlinear_arith);
    if k < n - 1 {
        assert((k + 1) * size <= (n - 1) * size) by (nonlinear_arith)
            requires
                k + 1 <= n - 1,
                0 <= size,
        ;
    }
}

proof fn lemma_count_of_tests<M: MultiversionService>(
    service: M,
    params: ResmokeGenParamsView,
    tests: Seq<Seq<char>>,
    info: BurnInSuiteInfoView,
    n: int,
)
    requires
        0 <= n,
    ensures
        burn_in_tests_for(service, params, tests, info, n).len() == n * sub_tasks_per_round(params),
    decreases n,
{
    let size = sub_tasks_per_round(params);
    if n > 0 {
        lemma_count_of_tests(service, params, tests, info, n - 1);
        assert((n - 1) * size + size == n * size) by (nonlinear_arith);
    } else {
        assert(0 * size == 0) by (nonlinear_arith);
    }
}

proof fn lemma_round_of_test<M: MultiversionService>(
    service: M,
    params: ResmokeGenParamsView,
    tests: Seq<Seq<char>>,
    info: BurnInSuiteInfoView,
    n: int,
    k: int,
    c: int,
)
    requires
        0 <= k < n <= tests.len(),
        0 <= c < sub_tasks_per_round(params),
    ensures
        0 <= k * sub_tasks_per_round(params) + c < burn_in_tests_for(
            service,
            params,
            tests,
            info,
            n,
        ).len(),
        burn_in_tests_for(service, params, tests, info, n)[k * sub_tasks_per_round(params) + c]
            == burn_in_round(service, burn_in_params(params, tests[k]), k as usize, info)[c],
    decreases n,
{
    let size = sub_tasks_per_round(params);
    lemma_place(n, size, k, c);
    lemma_count_of_tests(service, params, tests, info, n);
    lemma_count_of_tests(service, params, tests, info, n - 1);
    if k < n - 1 {
        lemma_round_of_test(service, params, tests, info, n - 1, k, c);
    }
}

proof fn lemma_count_of_copies<M: MultiversionService>(
    service: M,
    params: ResmokeGenParamsView,
    info: BurnInSuiteInfoView,
    n: int,
)
    requires
        0 <= n,
    ensures
        burn_in_copies(service, params, info, n).len() == n * sub_tasks_per_round(params),
    decreases n,
{
    let size = sub_tasks_per_round(params);
    if n > 0 {
        lemma_count_of_copies(service, params, info, n - 1);
        assert((n - 1) * size + size == n * size) by (nonlinear_arith);
    } else {
        assert(0 * size == 0) by (nonlinear_arith);
    }
}

proof fn lemma_round_of_copy<M: MultiversionService>(
    service: M,
    params: ResmokeGenParamsView,
    info: BurnInSuiteInfoView,
    n: int,
    k: int,
    c: int,
)
    requires
        0 <= k < n,
        0 <= c < sub_tasks_per_round(params),
    ensures
        0 <= k * sub_tasks_per_round(params) + c < burn_in_copies(service, params, info, n).len(),
        burn_in_copies(service, params, info, n)[k * sub_tasks_per_round(params) + c]
            == burn_in_round(service, params, k as usize, info)[c],
    decreases n,
{
    let size = sub_tasks_per_round(params);
    lemma_place(n, size, k, c);
    lemma_count_of_copies(service, params, info, n);
    lemma_count_of_copies(service, params, info, n - 1);
    if k < n - 1 {
        lemma_round_of_copy(service, params, info, n - 1, k, c);
    }
}

/// The parameters with which burn_in runs one test: those of the task, with arguments that repeat
/// the test and name it.
pub open spec fn repeats(params: ResmokeGenParamsView, test: Seq<char>) -> ResmokeGenParamsView {
    ResmokeGenParamsView {
        resmoke_args: params.resmoke_args
            + " --repeatTestsSecs=600 --repeatTestsMin=2 --repeatTestsMax=1000 "@ + test,
        ..params
    }
}

proof fn lemma_repeats(params: ResmokeGenParamsView, test: Seq<char>)
    ensures
        burn_in_params(params, test) == repeats(params, test),
{
    reveal_strlit(" ");
    reveal_strlit("--repeatTestsSecs=600 --repeatTestsMin=2 --repeatTestsMax=1000");
    reveal_strlit(" --repeatTestsSecs=600 --repeatTestsMin=2 --repeatTestsMax=1000 ");
    assert(" "@ + "--repeatTestsSecs=600 --repeatTestsMin=2 --repeatTestsMax=1000"@ + " "@
        =~= " --repeatTestsSecs=600 --repeatTestsMin=2 --repeatTestsMax=1000 "@);
    assert(burn_in_params(params, test).resmoke_args =~= repeats(params, test).resmoke_args);
}

/// Burn_in reads the parameters of a task as they are where no build variant is known, and never
/// for the enterprise module.
pub proof fn law_burn_in_knows_no_build_variant<M: MultiversionService>(
    service: BurnInServiceImpl<M>,
    task_def: EvgTask,
)
    ensures
        service.params_of(task_def) == resmoke_params_of(
            service.config_extraction_service.generating_task@,
            service.config_extraction_service.config_location@,
            task_def,
            false,
            None,
            None,
        ),
        service.params_of(task_def) matches Ok(params) ==> !params.is_enterprise
            && params.platform is None && params.gen_task_suffix is None,
{
}

/// Burn_in runs each discovered test of a task by itself, repeated, against each version that the
/// task is meant for. The sub-tasks are labelled, named after the suite or the task and after the
/// build variant that runs them, and numbered by the test.
pub proof fn law_each_discovered_test_is_burnt_in<M: MultiversionService>(
    service: BurnInServiceImpl<M>,
    discovered: DiscoveredTaskView,
    task_def: EvgTask,
    run_build_variant: Seq<char>,
    params: ResmokeGenParamsView,
    k: int,
    c: int,
)
    requires
        service.params_of(task_def) == Ok::<_, ConfigErrorView>(params),
        params.require_multiversion_generate_tasks ==> params.multiversion_generate_tasks is Some,
        0 <= k < discovered.test_list.len() <= usize::MAX,
        0 <= c < sub_tasks_per_round(params),
    ensures
        service.tests_for_task(discovered, task_def, run_build_variant) is Ok,
        ({
            let sub_tasks = service.tests_for_task(
                discovered,
                task_def,
                run_build_variant,
            )->Ok_0;
            let sub_task = sub_tasks[k * sub_tasks_per_round(params) + c];
            &&& sub_tasks.len() == discovered.test_list.len() * sub_tasks_per_round(params)
            &&& 0 <= k * sub_tasks_per_round(params) + c < sub_tasks.len()
            &&& params.require_multiversion_generate_tasks ==> burns_in(
                sub_task,
                service.gen_resmoke_task_service.multiversion_service,
                repeats(params, discovered.test_list[k]),
                params.multiversion_generate_tasks.unwrap()[c].suite_name,
                Some(params.multiversion_generate_tasks.unwrap()[c].old_version),
            ) && is_burn_in_name(
                sub_task.evg_task.name,
                "burn_in"@,
                params.multiversion_generate_tasks.unwrap()[c].suite_name,
                run_build_variant,
                k as usize,
                discovered.test_list.len(),
                params,
            )
            &&& !params.require_multiversion_generate_tasks ==> burns_in(
                sub_task,
                service.gen_resmoke_task_service.multiversion_service,
                repeats(params, discovered.test_list[k]),
                params.suite_name,
                None,
            ) && is_burn_in_name(
                sub_task.evg_task.name,
                "burn_in"@,
                discovered.task_name,
                run_build_variant,
                k as usize,
                discovered.test_list.len(),
                params,
            )
        }),
{
    let tests = discovered.test_list;
    let info = BurnInSuiteInfoView {
        build_variant: run_build_variant,
        total_tests: tests.len() as usize,
        task_name: discovered.task_name,
        burn_in_label: "burn_in"@,
        multiversion_name: None,
        multiversion_tags: None,
    };
    let multiversion = service.gen_resmoke_task_service.multiversion_service;
    lemma_count_of_tests(multiversion, params, tests, info, tests.len() as int);
    lemma_round_of_test(multiversion, params, tests, info, tests.len() as int, k, c);
    lemma_repeats(params, tests[k]);
    let repeated = repeats(params, tests[k]);
    if params.require_multiversion_generate_tasks {
        law_rounds_run_each_multiversion_task(multiversion, repeated, k as usize, info, c);
    } else {
        law_rounds_run_the_suite(multiversion, repeated, k as usize, info);
    }
}

/// A task of which no tests were discovered has no sub-tasks, whatever its parameters are.
pub proof fn law_no_tests_are_burnt_in_for_nothing<M: MultiversionService>(
    service: BurnInServiceImpl<M>,
    discovered: DiscoveredTaskView,
    task_def: EvgTask,
    run_build_variant: Seq<char>,
)
    ensures
        discovered.test_list.len() == 0 ==> service.tests_for_task(
            discovered,
            task_def,
            run_build_variant,
        ) == Ok::<_, ConfigErrorView>(Seq::<GeneratedSubTaskView>::empty()),
        discovered.test_list.len() > 0 ==> (service.tests_for_task(
            discovered,
            task_def,
            run_build_variant,
        ) is Ok <==> service.params_of(task_def) is Ok),
        discovered.test_list.len() > 0 ==> (service.params_of(task_def) matches Err(error)
            ==> service.tests_for_task(discovered, task_def, run_build_variant) == Err::<
            Seq<GeneratedSubTaskView>,
            _,
        >(error)),
{
}

/// Burn_in runs ten copies of a whole task, against each version that the task is meant for. The
/// sub-tasks are labelled, named after the suite or the task and after the build variant, and
/// numbered by the copy.
pub proof fn law_ten_copies_are_burnt_in<M: MultiversionService>(
    service: BurnInServiceImpl<M>,
    task_def: EvgTask,
    build_variant: Seq<char>,
    params: ResmokeGenParamsView,
    k: int,
    c: int,
)
    requires
        service.params_of(task_def) == Ok::<_, ConfigErrorView>(params),
        params.require_multiversion_generate_tasks ==> params.multiversion_generate_tasks is Some,
        0 <= k < 10,
        0 <= c < sub_tasks_per_round(params),
    ensures
        service.copies_of_task(task_def, build_variant) is Ok,
        ({
            let sub_tasks = service.copies_of_task(task_def, build_variant)->Ok_0;
            let sub_task = sub_tasks[k * sub_tasks_per_round(params) + c];
            &&& sub_tasks.len() == 10 * sub_tasks_per_round(params)
            &&& 0 <= k * sub_tasks_per_round(params) + c < sub_tasks.len()
            &&& params.require_multiversion_generate_tasks ==> burns_in(
                sub_task,
                service.gen_resmoke_task_service.multiversion_service,
                params,
                params.multiversion_generate_tasks.unwrap()[c].suite_name,
                Some(params.multiversion_generate_tasks.unwrap()[c].old_version),
            ) && is_burn_in_name(
                sub_task.evg_task.name,
                "burn_in_task"@,
                params.multiversion_generate_tasks.unwrap()[c].suite_name,
                build_variant,
                k as usize,
                10,
                params,
            )
            &&& !params.require_multiversion_generate_tasks ==> burns_in(
                sub_task,
                service.gen_resmoke_task_service.multiversion_service,
                params,
                params.suite_name,
                None,
            ) && is_burn_in_name(
                sub_task.evg_task.name,
                "burn_in_task"@,
                task_def.name@,
                build_variant,
                k as usize,
                10,
                params,
            )
        }),
{
    let info = BurnInSuiteInfoView {
        build_variant,
        total_tests: 10,
        task_name: task_def.name@,
        burn_in_label: "burn_in_task"@,
        multiversion_name: None,
        multiversion_tags: None,
    };
    let multiversion = service.gen_resmoke_task_service.multiversion_service;
    lemma_count_of_copies(multiversion, params, info, 10);
    lemma_round_of_copy(multiversion, params, info, 10, k, c);
    if params.require_multiversion_generate_tasks {
        law_rounds_run_each_multiversion_task(multiversion, params, k as usize, info, c);
    } else {
        law_rounds_run_the_suite(multiversion, params, k as usize, info);
    }
}

/// The copies on a build variant are of the task that the build variant names. Where there is no
/// such task there are none.
pub proof fn law_copies_are_of_the_named_task<M: MultiversionService>(
    service: BurnInServiceImpl<M>,
    variant: BuildVariantView,
    task_map: Map<Seq<char>, EvgTask>,
    name: Seq<char>,
)
    requires
        expands(variant, "burn_in_task_name"@, name),
    ensures
        task_map.contains_key(name) ==> service.copies_for_variant(variant, task_map)
            == service.copies_of_task(task_map[name], variant.name),
        !task_map.contains_key(name) ==> service.copies_for_variant(variant, task_map) == Ok::<
            _,
            ConfigErrorView,
        >(Seq::<GeneratedSubTaskView>::empty()),
{
}

/// The tests of several tasks are those of each of them, one task after the other. Tasks that are
/// not known are passed over, and the first error ends it.
pub proof fn law_tests_of_all_tasks_are_burnt_in<M: MultiversionService>(
    service: BurnInServiceImpl<M>,
    discovered: Seq<DiscoveredTaskView>,
    more: DiscoveredTaskView,
    task_map: Map<Seq<char>, EvgTask>,
    run_build_variant: Seq<char>,
)
    ensures
        service.tests_for_tasks(Seq::empty(), task_map, run_build_variant) == Ok::<
            _,
            ConfigErrorView,
        >(Seq::<GeneratedSubTaskView>::empty()),
        ({
            let before = service.tests_for_tasks(discovered, task_map, run_build_variant);
            let after = service.tests_for_tasks(discovered.push(more), task_map, run_build_variant);
            &&& !task_map.contains_key(more.task_name) ==> after == before
            &&& before matches Err(error) ==> after == Err::<Seq<GeneratedSubTaskView>, _>(error)
            &&& before is Ok && task_map.contains_key(more.task_name) ==> match service.tests_for_task(
                more,
                task_map[more.task_name],
                run_build_variant,
            ) {
                Ok(tests) => after == Ok::<_, ConfigErrorView>(before->Ok_0 + tests),
                Err(error) => after == Err::<Seq<GeneratedSubTaskView>, _>(error),
            }
        }),
{
    assert(discovered.push(more).drop_last() =~= discovered);
}

/// A dependency on a task of a build variant is among others.
pub open spec fn depends_on_task_of(
    dependencies: Option<Seq<TaskDependencyView>>,
    name: Seq<char>,
    variant: Seq<char>,
) -> bool {
    dependencies matches Some(dependencies) && exists|i: int|
        0 <= i < dependencies.len() && (#[trigger] dependencies[i]).name == name
            && dependencies[i].variant == Some(variant)
}

/// The build variant for burn_in_tags waits for the compile task where its base build variant has
/// its binaries from: of the build variant that the base names for that, or of the base itself
/// where it names none. It also waits for the generation of burn_in, and for nothing else.
pub proof fn law_burn_in_tags_wait_for_their_binaries(
    exceptions: Option<Set<Seq<char>>>,
    base: BuildVariantView,
    name: Seq<char>,
    suite: SuiteView,
    compile_task: Seq<char>,
    variant: BuildVariantView,
)
    requires
        burn_in_tag_variant_of(exceptions, base, name, suite, compile_task) == Ok::<
            _,
            ConfigErrorView,
        >(variant),
    ensures
        forall|compile_variant: Seq<char>| #[trigger]
            expands(base, "compile_variant"@, compile_variant) ==> depends_on_task_of(
                variant.depends_on,
                compile_task,
                compile_variant,
            ),
        (forall|compile_variant: Seq<char>| !#[trigger]
            expands(base, "compile_variant"@, compile_variant)) ==> depends_on_task_of(
            variant.depends_on,
            compile_task,
            base.name,
        ),
        depends_on_task_of(
            variant.depends_on,
            "version_burn_in_gen"@,
            "generate-tasks-for-version"@,
        ),
        variant.depends_on.unwrap().len() == 2,
{
    let dependencies = variant.depends_on.unwrap();
    assert(dependencies[0].name == compile_task);
    assert(dependencies[1].name == "version_burn_in_gen"@);
    match crate::evergreen::evg_config_utils::expansion(base, "compile_variant"@) {
        Some(compile_variant) => {
            assert(expands(base, "compile_variant"@, compile_variant));
        },
        None => {},
    }
}

/// The build variant for burn_in_tags runs where its base build variant does, with the same modules
/// and expansions, but for one that names the base. It is marked in its display name, is not
/// activated, and holds the sub-tasks of the suite in one display task.
pub proof fn law_burn_in_tags_take_after_their_base(
    exceptions: Option<Set<Seq<char>>>,
    base: BuildVariantView,
    name: Seq<char>,
    suite: SuiteView,
    compile_task: Seq<char>,
    variant: BuildVariantView,
    i: int,
)
    requires
        burn_in_tag_variant_of(exceptions, base, name, suite, compile_task) == Ok::<
            _,
            ConfigErrorView,
        >(variant),
    ensures
        variant.name == name,
        variant.run_on == base.run_on,
        variant.modules == base.modules,
        base.display_name matches Some(shown) ==> variant.display_name == Some(
            "[jstests_affected] "@ + shown,
        ),
        base.display_name is None ==> variant.display_name is None,
        expands(variant, "burn_in_bypass"@, base.name),
        forall|key: Seq<char>, value: Seq<char>|
            key != "burn_in_bypass"@ ==> (#[trigger] expands(variant, key, value) <==> expands(
                base,
                key,
                value,
            )),
        variant.activate == Some(false),
        variant.batchtime is None,
        variant.stepback is None,
        variant.display_tasks matches Some(shown) && shown.len() == 1 && shown[0].name
            == suite.display_name && shown[0].execution_tasks.len() == suite.sub_tasks.len() && (
        0 <= i < suite.sub_tasks.len() ==> shown[0].execution_tasks[i]
            == suite.sub_tasks[i].evg_task.name),
        variant.tasks.len() == suite.sub_tasks.len(),
        0 <= i < suite.sub_tasks.len() ==> variant.tasks[i].name == suite.sub_tasks[i].evg_task.name
            && variant.tasks[i].depends_on is None && variant.tasks[i].activate == Some(false),
        large_distro_of(exceptions, suite, base) matches Ok(distro) && variant.tasks
            == task_refs_of(suite, distro, None),
{
    reveal_strlit("[jstests_affected]");
    reveal_strlit(" ");
    reveal_strlit("[jstests_affected] ");
    assert("[jstests_affected]"@ + " "@ =~= "[jstests_affected] "@);
    if let Some(shown) = base.display_name {
        assert("[jstests_affected]"@ + " "@ + shown =~= "[jstests_affected] "@ + shown);
    }
}

/// A build variant for burn_in_tags cannot be made where the larger distro that a sub-task asks for
/// is missing, and only there.
pub proof fn law_burn_in_tags_need_their_distro(
    exceptions: Option<Set<Seq<char>>>,
    base: BuildVariantView,
    name: Seq<char>,
    suite: SuiteView,
    compile_task: Seq<char>,
)
    ensures
        burn_in_tag_variant_of(exceptions, base, name, suite, compile_task) is Ok
            <==> large_distro_of(exceptions, suite, base) is Ok,
        large_distro_of(exceptions, suite, base) matches Err(error) ==> burn_in_tag_variant_of(
            exceptions,
            base,
            name,
            suite,
            compile_task,
        ) == Err::<BuildVariantView, _>(error),
{
}

/// Burn_in is shown by what it runs: tests, or copies of a task. All of its sub-tasks are shown.
pub proof fn law_burn_in_is_shown_by_kind(sub_tasks: Seq<GeneratedSubTaskView>)
    ensures
        tests_suite_of(sub_tasks).display_name == "burn_in_tests"@,
        tests_suite_of(sub_tasks).sub_tasks == sub_tasks,
        copies_suite_of(sub_tasks).display_name == "burn_in_tasks"@,
        copies_suite_of(sub_tasks).sub_tasks == sub_tasks,
{
}

} // verus!
