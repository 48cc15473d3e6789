//! The tasks that have been generated, by the names under which build variants find them.

use vstd::prelude::*;

use crate::evergreen::model::{EvgTask, EvgTaskView};
use crate::evergreen_names::ENTERPRISE_MODULE;
use crate::task_types::fuzzer_tasks::FuzzerTask;
use crate::task_types::generated_suite::{
    GeneratedSubTask, GeneratedSubTaskView, GeneratedSuite, SuiteView,
};
use crate::task_types::resmoke_tasks::GeneratedResmokeSuite;
use crate::utils::string_map::StringMap;

verus! {

/// How the names of generated burn_in_tests start.
pub const BURN_IN_TESTS_PREFIX: &'static str = "burn_in_tests";

/// How the names of generated burn_in_tasks start.
pub const BURN_IN_TASKS_PREFIX: &'static str = "burn_in_tasks";

/// How the names of burn_in_tags build variants end.
pub const BURN_IN_BV_SUFFIX: &'static str = "generated-by-burn-in-tags";

/// A task that has been generated.
#[derive(Debug)]
pub enum GeneratedTask {
    /// A fuzzer.
    Fuzzer(FuzzerTask),
    /// A resmoke suite.
    Resmoke(GeneratedResmokeSuite),
}

impl GeneratedSuite for GeneratedTask {
    open spec fn suite(&self) -> SuiteView {
        match self {
            GeneratedTask::Fuzzer(task) => task.suite(),
            GeneratedTask::Resmoke(task) => task.suite(),
        }
    }

    fn display_name(&self) -> (name: String) {
        match self {
            GeneratedTask::Fuzzer(task) => task.display_name(),
            GeneratedTask::Resmoke(task) => task.display_name(),
        }
    }

    fn sub_tasks(&self) -> (sub_tasks: Vec<GeneratedSubTask>) {
        match self {
            GeneratedTask::Fuzzer(task) => task.sub_tasks(),
            GeneratedTask::Resmoke(task) => task.sub_tasks(),
        }
    }
}

impl DeepView for GeneratedTask {
    type V = SuiteView;

    open spec fn deep_view(&self) -> SuiteView {
        self.suite()
    }
}

/// The generated tasks by their names.
pub type GenTaskCollection = StringMap<GeneratedTask>;

/// The name under which a generated task is kept.
pub open spec fn unique_task_name(
    is_enterprise: bool,
    task_name: Seq<char>,
    platform: Seq<char>,
    unique_gen_suffix: Option<Seq<char>>,
) -> Seq<char> {
    task_name + "-"@ + platform + (if is_enterprise {
        "-"@ + ENTERPRISE_MODULE@
    } else {
        Seq::empty()
    }) + (match unique_gen_suffix {
        Some(suffix) => suffix,
        None => Seq::empty(),
    })
}

/// Determine the task name to use.
///
/// We append "enterprise" to tasks run on enterprise module build variants, so they don't
/// conflict with the normal tasks.
///
/// # Arguments
///
/// * `is_enterprise` - Whether the task is for an enterprise build variant.
/// * `task_name` - Name of task.
/// * `platform` - Platform that task will run on.
/// * `unique_gen_suffix` - What the build variant adds to the names of its generated tasks.
///
/// # Returns
///
/// Name to use for task.
pub fn lookup_task_name(
    is_enterprise: bool,
    task_name: &str,
    platform: &str,
    unique_gen_suffix: Option<&str>,
) -> (name: String)
    ensures
        name@ == unique_task_name(
            is_enterprise,
            task_name@,
            platform@,
            unique_gen_suffix.deep_view(),
        ),
{
    let mut name: String = task_name.to_owned();
    name.append("-");
    name.append(platform);
    if is_enterprise {
        name.append("-");
        name.append(ENTERPRISE_MODULE);
    }
    if let Some(suffix) = unique_gen_suffix {
        name.append(suffix);
    }
    assert(name@ =~= unique_task_name(
        is_enterprise,
        task_name@,
        platform@,
        unique_gen_suffix.deep_view(),
    ));
    name
}

/// Two texts with a dash between them.
pub open spec fn dashed(first: Seq<char>, second: Seq<char>) -> Seq<char> {
    first + "-"@ + second
}

/// The name of the burn_in_tags build variant that is based on another build variant.
///
/// # Arguments
///
/// * `base_build_variant_name` - Name of build variant to base it on.
pub fn burn_in_tags_variant_name(base_build_variant_name: &str) -> (name: String)
    ensures
        name@ == dashed(base_build_variant_name@, BURN_IN_BV_SUFFIX@),
{
    let mut name: String = base_build_variant_name.to_owned();
    name.append("-");
    name.append(BURN_IN_BV_SUFFIX);
    name
}

/// The name under which the burn_in_tests of a build variant are kept.
///
/// # Arguments
///
/// * `run_build_variant_name` - Name of build variant to run burn_in_tests on.
pub fn burn_in_tests_name(run_build_variant_name: &str) -> (name: String)
    ensures
        name@ == dashed(BURN_IN_TESTS_PREFIX@, run_build_variant_name@),
{
    let mut name: String = BURN_IN_TESTS_PREFIX.to_owned();
    name.append("-");
    name.append(run_build_variant_name);
    name
}

/// The name under which the burn_in_tasks of a build variant are kept.
///
/// # Arguments
///
/// * `build_variant_name` - Name of build variant to run burn_in_tasks on.
pub fn burn_in_tasks_name(build_variant_name: &str) -> (name: String)
    ensures
        name@ == dashed(BURN_IN_TASKS_PREFIX@, build_variant_name@),
{
    let mut name: String = BURN_IN_TASKS_PREFIX.to_owned();
    name.append("-");
    name.append(build_variant_name);
    name
}

/// Keep a generated task.
///
/// # Arguments
///
/// * `generated_tasks` - Map to store the generated task in.
/// * `name` - Name to keep it under.
/// * `generated_task` - The generated task.
pub fn add_generated_task(
    generated_tasks: &mut GenTaskCollection,
    name: String,
    generated_task: GeneratedTask,
)
    ensures
        final(generated_tasks).deep_view() == old(generated_tasks).deep_view().insert(
            name@,
            generated_task.suite(),
        ),
{
    let ghost before = generated_tasks.deep_view();
    generated_tasks.insert(name, generated_task);
    assert(generated_tasks.deep_view() =~= before.insert(name@, generated_task.suite()));
}

/// What is kept with the burn_in of a build variant, where there is any.
pub open spec fn with_burn_in(
    generated: Map<Seq<char>, SuiteView>,
    name: Seq<char>,
    suite: SuiteView,
) -> Map<Seq<char>, SuiteView> {
    if suite.sub_tasks.len() == 0 {
        generated
    } else {
        generated.insert(name, suite)
    }
}

/// Keep the generated burn_in of a build variant, if there is any.
///
/// # Arguments
///
/// * `generated_tasks` - Map to store the generated task in.
/// * `name` - Name to keep it under.
/// * `generated_suite` - The generated suite.
pub fn add_burn_in_suite(
    generated_tasks: &mut GenTaskCollection,
    name: String,
    generated_suite: GeneratedResmokeSuite,
)
    ensures
        final(generated_tasks).deep_view() == with_burn_in(
            old(generated_tasks).deep_view(),
            name@,
            generated_suite.suite(),
        ),
{
    if generated_suite.sub_suites.len() > 0 {
        add_generated_task(generated_tasks, name, GeneratedTask::Resmoke(generated_suite));
    }
}

/// The definitions of the sub-tasks of the generated tasks, in the order of the entries.
pub open spec fn definitions_of(entries: Seq<(String, GeneratedTask)>) -> Seq<EvgTaskView>
    decreases entries.len(),
{
    if entries.len() == 0 {
        Seq::empty()
    } else {
        definitions_of(entries.drop_last()) + entries.last().1.suite().sub_tasks.map_values(
            |sub_task: GeneratedSubTaskView| sub_task.evg_task,
        )
    }
}

/// Get the definitions of all the generated sub-tasks.
///
/// # Arguments
///
/// * `generated_tasks` - Map of task names and their generated configuration.
pub fn task_definitions(generated_tasks: &GenTaskCollection) -> (tasks: Vec<EvgTask>)
    ensures
        tasks.deep_view() == definitions_of(generated_tasks.entries()),
{
    let ghost entries = generated_tasks.entries();
    let n: usize = generated_tasks.len();
    let mut tasks: Vec<EvgTask> = Vec::new();
    let mut i: usize = 0;
    assert(tasks.deep_view() =~= definitions_of(entries.take(0)));
    while i < n
        invariant
            i <= n,
            n == entries.len(),
            entries == generated_tasks.entries(),
            tasks.deep_view() == definitions_of(entries.take(i as int)),
        decreases n - i,
    {
        assert(entries.take(i + 1).drop_last() =~= entries.take(i as int));
        let ghost before = tasks.deep_view();
        let ghost suite = entries[i as int].1.suite();
        let ghost added = suite.sub_tasks.map_values(
            |sub_task: GeneratedSubTaskView| sub_task.evg_task,
        );
        let sub_tasks: Vec<GeneratedSubTask> = generated_tasks.value(i).sub_tasks();
        let mut j: usize = 0;
        assert(before + added.take(0) =~= before);
        while j < sub_tasks.len()
            invariant
                j <= sub_tasks@.len(),
                sub_tasks.deep_view() == suite.sub_tasks,
                added == suite.sub_tasks.map_values(
                    |sub_task: GeneratedSubTaskView| sub_task.evg_task,
                ),
                tasks.deep_view() == before + added.take(j as int),
            decreases sub_tasks@.len() - j,
        {
            assert(suite.sub_tasks[j as int] == sub_tasks[j as int].deep_view());
            let task: EvgTask = sub_tasks[j].evg_task.clone();
            assert(added.take(j + 1) =~= added.take(j as int).push(task.deep_view()));
            let ghost so_far = tasks.deep_view();
            tasks.push(task);
            assert(tasks.deep_view() =~= so_far.push(task.deep_view()));
            j += 1;
        }
        assert(added.take(j as int) =~= added);
        i += 1;
    }
    assert(entries.take(n as int) =~= entries);
    tasks
}

} // verus!
