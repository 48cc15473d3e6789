//! Utilities to interpret evergreen configuration.

use vstd::prelude::*;

use crate::errors::{outcome, ConfigError, ConfigErrorView};
use crate::evergreen::model::{
    clone_vars, BuildVariant, BuildVariantView, EvgCommand, EvgCommandView, EvgTask, EvgTaskView,
    FunctionCall, FunctionCallView, ParamValue, ParamValueView, TaskDependency, TaskDependencyView,
    Vars, VarsView,
};
use crate::evergreen_names::{
    BURN_IN_TAG_EXCLUDE_BUILD_VARIANTS, BURN_IN_TAG_INCLUDE_ALL_REQUIRED_AND_SUGGESTED,
    BURN_IN_TAG_INCLUDE_BUILD_VARIANTS, GENERATE_RESMOKE_TASKS, INITIALIZE_MULTIVERSION_TASKS,
    IS_FUZZER, LINUX, MACOS, RUN_RESMOKE_TESTS, SUITE_NAME, WINDOWS,
};
use crate::utils::number::{parse_bool, parse_u64, parsed_bool, parsed_u64};
use crate::utils::pattern::{
    is_match, lowercase, named_groups, regex_is_match, regex_named_groups, to_lowercase,
};
use crate::utils::string_map::{distinct_keys, key_at, lemma_entry, StringMap};
use crate::utils::string_set::StringSet;
use crate::utils::task_name::{remove_gen_suffix, without_gen_suffix};
use crate::utils::text::{
    after_last, contains_char, contains_str, contains_text, occurs_in, split_words, starts_with,
    str_eq, text_after_last, words,
};

verus! {

/// How expansions are written: `${expansion}` or `${expansion|default_value}`.
pub const EXPANSION_PATTERN: &'static str = r"\$\{(?P<id>[a-zA-Z0-9_]+)(\|(?P<default>.*))?}";

/// The group of the expansion pattern that holds the name of the expansion.
pub const EXPANSION_ID: &'static str = "id";

/// The group of the expansion pattern that holds the default value.
pub const EXPANSION_DEFAULT: &'static str = "default";

/// The flag that switches the tests of the enterprise module off.
pub const ENTERPRISE_OFF_PATTERN: &'static str = r"--enableEnterpriseTests\s*=?\s*off";

/// What the name of a bazel target starts with.
pub const BAZEL_PREFIX: &'static str = "//";

/// Multiversion task that will be generated.
#[derive(Debug, PartialEq)]
pub struct MultiversionGenerateTaskConfig {
    /// Name of suite to use for the generated task.
    pub suite_name: String,
    /// Old version to run testing against.
    pub old_version: String,
    /// The bazel test target, if it is a bazel-based resmoke task.
    pub bazel_target: Option<String>,
}

/// What a [`MultiversionGenerateTaskConfig`] holds.
pub struct MultiversionGenerateTaskConfigView {
    pub suite_name: Seq<char>,
    pub old_version: Seq<char>,
    pub bazel_target: Option<Seq<char>>,
}

impl DeepView for MultiversionGenerateTaskConfig {
    type V = MultiversionGenerateTaskConfigView;

    open spec fn deep_view(&self) -> MultiversionGenerateTaskConfigView {
        MultiversionGenerateTaskConfigView {
            suite_name: self.suite_name@,
            old_version: self.old_version@,
            bazel_target: self.bazel_target.deep_view(),
        }
    }
}

impl Clone for MultiversionGenerateTaskConfig {
    fn clone(&self) -> (copy: Self)
        ensures
            copy.deep_view() == self.deep_view(),
    {
        MultiversionGenerateTaskConfig {
            suite_name: self.suite_name.clone(),
            old_version: self.old_version.clone(),
            bazel_target: self.bazel_target.clone(),
        }
    }
}

impl Default for MultiversionGenerateTaskConfig {
    fn default() -> (config: Self)
        ensures
            config.deep_view() == (MultiversionGenerateTaskConfigView {
                suite_name: Seq::empty(),
                old_version: Seq::empty(),
                bazel_target: None,
            }),
    {
        MultiversionGenerateTaskConfig {
            suite_name: String::new(),
            old_version: String::new(),
            bazel_target: None,
        }
    }
}

/// Service for utilities to help interpret evergreen configuration.
pub struct EvgConfigUtilsImpl {}

/// The first call of the named function among the commands.
pub open spec fn first_call(commands: Seq<EvgCommandView>, name: Seq<char>) -> Option<
    FunctionCallView,
>
    decreases commands.len(),
{
    if commands.len() == 0 {
        None
    } else {
        match commands.first() {
            EvgCommandView::Function(call) if call.func == name => Some(call),
            _ => first_call(commands.drop_first(), name),
        }
    }
}

/// The first call of the named function in a task.
pub open spec fn task_call(task: EvgTaskView, name: Seq<char>) -> Option<FunctionCallView> {
    match task.commands {
        Some(commands) => first_call(commands, name),
        None => None,
    }
}

/// The variables of the first call of the named function in a task.
pub open spec fn task_call_vars(task: EvgTaskView, name: Seq<char>) -> Option<VarsView> {
    match task_call(task, name) {
        Some(call) => call.vars,
        None => None,
    }
}

/// The text of a variable, if it holds text.
pub open spec fn text_var(vars: VarsView, var: Seq<char>) -> Option<Seq<char>> {
    if vars.contains_key(var) {
        match vars[var] {
            ParamValueView::String(value) => Some(value),
            _ => None,
        }
    } else {
        None
    }
}

/// The text of a variable that is handed to 'generate resmoke tasks'.
pub open spec fn gen_task_var(task: EvgTaskView, var: Seq<char>) -> Option<Seq<char>> {
    match task_call_vars(task, GENERATE_RESMOKE_TASKS@) {
        Some(vars) => text_var(vars, var),
        None => None,
    }
}

/// The variables that are handed on to resmoke.
pub open spec fn resmoke_vars(task: EvgTaskView) -> Option<VarsView> {
    match task_call_vars(task, GENERATE_RESMOKE_TASKS@) {
        Some(vars) => Some(vars),
        None => task_call_vars(task, RUN_RESMOKE_TESTS@),
    }
}

/// A bazel target names something behind a colon.
pub open spec fn valid_suite(suite: Seq<char>) -> bool {
    BAZEL_PREFIX@.is_prefix_of(suite) ==> suite.contains(':')
}

/// The name of the suite, without the package if it is a bazel target.
pub open spec fn plain_suite_name(suite: Seq<char>) -> Seq<char> {
    if BAZEL_PREFIX@.is_prefix_of(suite) {
        after_last(suite, ':')
    } else {
        suite
    }
}

/// The suite that a task names in the variables for resmoke.
pub open spec fn suite_var(task: EvgTaskView) -> Option<Seq<char>> {
    match resmoke_vars(task) {
        Some(vars) => text_var(vars, SUITE_NAME@),
        None => None,
    }
}

/// The name of the resmoke suite that a task executes.
pub open spec fn suite_name_of(task: EvgTaskView) -> Seq<char> {
    match suite_var(task) {
        Some(suite) => plain_suite_name(suite),
        None => without_gen_suffix(task.name),
    }
}

/// The names of the tasks that a task depends on.
pub open spec fn dependency_names(task: EvgTaskView) -> Seq<Seq<char>> {
    match task.depends_on {
        Some(dependencies) => dependencies.map_values(|d: TaskDependencyView| d.name),
        None => Seq::empty(),
    }
}

/// The dependencies of the first reference to the named task among the references.
pub open spec fn task_ref_dependencies(
    tasks: Seq<crate::evergreen::model::TaskRefView>,
    name: Seq<char>,
) -> Option<Seq<TaskDependencyView>>
    decreases tasks.len(),
{
    if tasks.len() == 0 {
        None
    } else if tasks.first().name == name {
        tasks.first().depends_on
    } else {
        task_ref_dependencies(tasks.drop_first(), name)
    }
}

/// The value of an expansion of a build variant.
pub open spec fn expansion(variant: BuildVariantView, name: Seq<char>) -> Option<Seq<char>> {
    match variant.expansions {
        Some(expansions) => if expansions.contains_key(name) {
            Some(expansions[name])
        } else {
            None
        },
        None => None,
    }
}

/// The words of an expansion of a build variant, none if it is not there.
pub open spec fn expansion_words(variant: BuildVariantView, name: Seq<char>) -> Seq<Seq<char>> {
    match expansion(variant, name) {
        Some(value) => words(value),
        None => Seq::empty(),
    }
}

/// The value of a variable on a build variant, given the name and the default value of the
/// expansion that it consists of.
pub open spec fn translated_run_var(
    run_var: Seq<char>,
    groups: Option<(Seq<char>, Option<Seq<char>>)>,
    variant: BuildVariantView,
) -> Option<Seq<char>> {
    match groups {
        Some((id, default)) => match expansion(variant, id) {
            Some(value) => Some(value),
            None => default,
        },
        None => Some(run_var),
    }
}

/// A variable that has to be there.
pub open spec fn required_str(task: EvgTaskView, var: Seq<char>) -> Result<
    Seq<char>,
    ConfigErrorView,
> {
    match gen_task_var(task, var) {
        Some(value) => Ok(value),
        None => Err(ConfigErrorView::MissingVar { var, task: task.name }),
    }
}

/// The number that a value stands for.
pub open spec fn number_value(value: Seq<char>) -> Result<u64, ConfigErrorView> {
    match parsed_u64(value) {
        Some(number) => Ok(number),
        None => Err(ConfigErrorView::NotANumber { value }),
    }
}

/// The truth value that a value stands for.
pub open spec fn bool_value(value: Seq<char>) -> Result<bool, ConfigErrorView> {
    match parsed_bool(value) {
        Some(b) => Ok(b),
        None => Err(ConfigErrorView::NotABool { value }),
    }
}

/// A numeric variable that has to be there.
pub open spec fn required_u64(task: EvgTaskView, var: Seq<char>) -> Result<u64, ConfigErrorView> {
    match gen_task_var(task, var) {
        Some(value) => number_value(value),
        None => Err(ConfigErrorView::MissingVar { var, task: task.name }),
    }
}

/// A truth variable that has to be there.
pub open spec fn required_bool(task: EvgTaskView, var: Seq<char>) -> Result<
    bool,
    ConfigErrorView,
> {
    match gen_task_var(task, var) {
        Some(value) => bool_value(value),
        None => Err(ConfigErrorView::MissingVar { var, task: task.name }),
    }
}

/// A truth variable that may be missing.
pub open spec fn default_bool(task: EvgTaskView, var: Seq<char>, default: bool) -> Result<
    bool,
    ConfigErrorView,
> {
    match gen_task_var(task, var) {
        Some(value) => bool_value(value),
        None => Ok(default),
    }
}

/// A variable that may be missing.
pub open spec fn default_str(task: EvgTaskView, var: Seq<char>, default: Seq<char>) -> Seq<char> {
    match gen_task_var(task, var) {
        Some(value) => value,
        None => default,
    }
}

/// A numeric variable that may be missing.
pub open spec fn optional_u64(task: EvgTaskView, var: Seq<char>) -> Result<
    Option<u64>,
    ConfigErrorView,
> {
    match gen_task_var(task, var) {
        Some(value) => match number_value(value) {
            Ok(number) => Ok(Some(number)),
            Err(error) => Err(error),
        },
        None => Ok(None),
    }
}

/// The multiversion task that an entry of the multiversion variables describes, if its value is
/// text.
pub open spec fn multiversion_task(entry: (String, ParamValue)) -> Option<
    MultiversionGenerateTaskConfigView,
> {
    match entry.1 {
        ParamValue::String(old_version) => Some(
            MultiversionGenerateTaskConfigView {
                suite_name: plain_suite_name(entry.0@),
                old_version: old_version@,
                bazel_target: if BAZEL_PREFIX@.is_prefix_of(entry.0@) {
                    Some(entry.0@)
                } else {
                    None
                },
            },
        ),
        _ => None,
    }
}

/// The multiversion tasks that the multiversion variables describe, in the order of the entries.
pub open spec fn multiversion_tasks(entries: Seq<(String, ParamValue)>) -> Seq<
    MultiversionGenerateTaskConfigView,
>
    decreases entries.len(),
{
    if entries.len() == 0 {
        Seq::empty()
    } else {
        let rest = multiversion_tasks(entries.drop_last());
        match multiversion_task(entries.last()) {
            Some(config) => rest.push(config),
            None => rest,
        }
    }
}

/// The variables of the first call of the named function among the commands.
pub open spec fn call_vars_in(commands: Seq<EvgCommand>, name: Seq<char>) -> Option<Vars>
    decreases commands.len(),
{
    if commands.len() == 0 {
        None
    } else {
        match commands.first() {
            EvgCommand::Function(call) if call.func@ == name => call.vars,
            _ => call_vars_in(commands.drop_first(), name),
        }
    }
}

/// The entries of the variables that initialize the multiversion tasks.
pub open spec fn multiversion_entries(task: EvgTask) -> Option<Seq<(String, ParamValue)>> {
    match task.commands {
        Some(commands) => match call_vars_in(commands@, INITIALIZE_MULTIVERSION_TASKS@) {
            Some(vars) => Some(vars.entries()),
            None => None,
        },
        None => None,
    }
}

/// The multiversion tasks that a task describes.
pub open spec fn multiversion_tasks_of(task: EvgTask) -> Option<
    Seq<MultiversionGenerateTaskConfigView>,
> {
    match multiversion_entries(task) {
        Some(entries) => Some(multiversion_tasks(entries)),
        None => None,
    }
}

/// The bazel targets among the multiversion suites of a task name something behind a colon.
pub open spec fn valid_multiversion_suites(task: EvgTask) -> bool {
    match multiversion_entries(task) {
        Some(entries) => forall|i: int|
            0 <= i < entries.len() ==> valid_suite((#[trigger] entries[i]).0@),
        None => true,
    }
}

/// Get the first call of the named function in a task.
///
/// # Arguments
///
/// * `task` - Task to query.
/// * `func_name` - Function to lookup.
pub fn get_func_by_name<'a>(task: &'a EvgTask, func_name: &str) -> (call: Option<&'a FunctionCall>)
    ensures
        call.deep_view() == task_call(task.deep_view(), func_name@),
        task.commands matches Some(commands) ==> call_vars_in(commands@, func_name@) == (match call {
            Some(call) => call.vars,
            None => None,
        }),
        task.commands is None ==> call is None,
{
    match &task.commands {
        Some(commands) => {
            let ghost all = commands.deep_view();
            let mut i: usize = 0;
            assert(all.skip(0) =~= all);
            assert(commands@.skip(0) =~= commands@);
            while i < commands.len()
                invariant
                    i <= commands@.len(),
                    all == commands.deep_view(),
                    first_call(all, func_name@) == first_call(all.skip(i as int), func_name@),
                    call_vars_in(commands@, func_name@) == call_vars_in(
                        commands@.skip(i as int),
                        func_name@,
                    ),
                    task.commands == Some(*commands),
                decreases commands@.len() - i,
            {
                assert(all.skip(i as int).first() == commands[i as int].deep_view());
                assert(all.skip(i as int).drop_first() =~= all.skip(i + 1));
                assert(commands@.skip(i as int).first() == commands[i as int]);
                assert(commands@.skip(i as int).drop_first() =~= commands@.skip(i + 1));
                if let EvgCommand::Function(call) = &commands[i] {
                    if str_eq(call.func.as_str(), func_name) {
                        return Some(call);
                    }
                }
                i += 1;
            }
            None
        },
        None => None,
    }
}

/// Get the variables of the first call of the named function in a task.
///
/// # Arguments
///
/// * `task` - Task to query.
/// * `func_name` - Function to lookup.
pub fn get_func_vars_by_name<'a>(task: &'a EvgTask, func_name: &str) -> (vars: Option<&'a Vars>)
    ensures
        vars.deep_view() == task_call_vars(task.deep_view(), func_name@),
        task.commands matches Some(commands) ==> (match vars {
            Some(vars) => call_vars_in(commands@, func_name@) == Some(*vars),
            None => call_vars_in(commands@, func_name@) is None,
        }),
        task.commands is None ==> vars is None,
{
    match get_func_by_name(task, func_name) {
        Some(call) => match &call.vars {
            Some(vars) => Some(vars),
            None => None,
        },
        None => None,
    }
}

/// Get the variables that a task hands on to resmoke, through "generate resmoke tasks" or "run
/// tests".
pub fn get_resmoke_vars(task: &EvgTask) -> (vars: Option<&Vars>)
    ensures
        vars.deep_view() == resmoke_vars(task.deep_view()),
{
    match get_func_vars_by_name(task, GENERATE_RESMOKE_TASKS) {
        Some(vars) => Some(vars),
        None => get_func_vars_by_name(task, RUN_RESMOKE_TESTS),
    }
}

/// Checks if a Resmoke suite is a bazel target.
///
/// # Arguments
///
/// * `suite` - A suite name from Evergreen YAML.
///
/// # Returns
///
/// True if the suite looks like a bazel target (e.g. starts with `//`).
pub fn is_bazel_suite(suite: &str) -> (found: bool)
    ensures
        found == BAZEL_PREFIX@.is_prefix_of(suite@),
{
    starts_with(suite, BAZEL_PREFIX)
}

/// Get a suite name from a bazel target.
///
/// # Arguments
///
/// * `target` - A bazel target.
///
/// # Returns
///
/// A useful suite name, just the name of the target without the bazel package prefix.
pub fn get_bazel_suite_name(target: &str) -> (name: &str)
    requires
        target@.contains(':'),
    ensures
        name@ == after_last(target@, ':'),
{
    text_after_last(target, ':')
}

/// The value of a text variable.
fn get_text_var<'a>(vars: &'a Vars, var: &str) -> (value: Option<&'a str>)
    ensures
        value.deep_view() == text_var(vars.deep_view(), var@),
{
    match vars.get(var) {
        Some(ParamValue::String(value)) => Some(value.as_str()),
        _ => None,
    }
}

/// Get the suite that a task names in the variables for resmoke.
pub fn get_suite_var(task: &EvgTask) -> (suite: Option<&str>)
    ensures
        suite.deep_view() == suite_var(task.deep_view()),
{
    match get_resmoke_vars(task) {
        Some(vars) => get_text_var(vars, SUITE_NAME),
        None => None,
    }
}

/// Does the suite name something behind a colon, if it is a bazel target?
pub fn is_valid_suite(suite: &str) -> (valid: bool)
    ensures
        valid == valid_suite(suite@),
{
    !is_bazel_suite(suite) || contains_char(suite, ':')
}

/// Do all the bazel targets among the multiversion suites name something behind a colon?
pub fn has_valid_multiversion_suites(task: &EvgTask) -> (valid: bool)
    ensures
        valid == valid_multiversion_suites(*task),
{
    match get_func_vars_by_name(task, INITIALIZE_MULTIVERSION_TASKS) {
        Some(vars) => {
            let n: usize = vars.len();
            let ghost entries = vars.entries();
            assert(multiversion_entries(*task).unwrap() =~= entries);
            let mut i: usize = 0;
            while i < n
                invariant
                    i <= n,
                    n == entries.len(),
                    entries == vars.entries(),
                    multiversion_entries(*task) is Some,
                    multiversion_entries(*task).unwrap() == entries,
                    forall|j: int| 0 <= j < i ==> valid_suite((#[trigger] entries[j]).0@),
                decreases n - i,
            {
                if !is_valid_suite(vars.key(i).as_str()) {
                    assert(!valid_suite(multiversion_entries(*task).unwrap()[i as int].0@));
                    return false;
                }
                i += 1;
            }
            true
        },
        None => true,
    }
}

impl EvgConfigUtilsImpl {
    /// Create a new instance of the EvgConfigUtilsImpl.
    pub fn new() -> (utils: Self)
        ensures
            utils == (EvgConfigUtilsImpl {  }),
    {
        EvgConfigUtilsImpl {  }
    }

    /// Determine if the given evergreen task a generated task.
    ///
    /// # Arguments
    ///
    /// * `task` - Evergreen task to check.
    ///
    /// # Returns
    ///
    /// `true` if the given task is generated.
    pub fn is_task_generated(&self, task: &EvgTask) -> (generated: bool)
        ensures
            generated == task_call(task.deep_view(), GENERATE_RESMOKE_TASKS@) is Some,
    {
        get_func_by_name(task, GENERATE_RESMOKE_TASKS).is_some()
    }

    /// Determine if the given evergreen task a fuzzer task.
    ///
    /// # Arguments
    ///
    /// * `task` - Evergreen task to check.
    ///
    /// # Returns
    ///
    /// `true` if the given task is a fuzzer task.
    pub fn is_task_fuzzer(&self, task: &EvgTask) -> (fuzzer: bool)
        ensures
            fuzzer == (gen_task_var(task.deep_view(), IS_FUZZER@) == Some("true"@)),
    {
        match self.get_gen_task_var(task, IS_FUZZER) {
            Some(value) => str_eq(value, "true"),
            None => false,
        }
    }

    /// Find the name of the resmoke suite the given task executes.
    ///
    /// # Arguments
    ///
    /// * `task` - Evergreen task to check.
    ///
    /// # Returns
    ///
    /// Name of task the given resmoke suite executes.
    pub fn find_suite_name<'a>(&self, task: &'a EvgTask) -> (name: &'a str)
        requires
            suite_var(task.deep_view()) matches Some(suite) ==> valid_suite(suite),
        ensures
            name@ == suite_name_of(task.deep_view()),
    {
        if let Some(vars) = get_resmoke_vars(task) {
            if let Some(suite) = get_text_var(vars, SUITE_NAME) {
                if is_bazel_suite(suite) {
                    return get_bazel_suite_name(suite);
                }
                return suite;
            }
        }
        remove_gen_suffix(task.name.as_str())
    }

    /// Get a set of the task tags defined in the given task definition.
    ///
    /// # Arguments
    ///
    /// * `task` - Evergreen task to query.
    ///
    /// # Returns
    ///
    /// Set of tags assigned to the task.
    pub fn get_task_tags(&self, task: &EvgTask) -> (tags: StringSet)
        ensures
            tags@ == task_tags(task.deep_view()),
    {
        let mut tags = StringSet::new();
        match &task.tags {
            Some(list) => {
                let ghost all = list.deep_view();
                let mut i: usize = 0;
                assert(all.take(0).to_set() =~= Set::<Seq<char>>::empty());
                while i < list.len()
                    invariant
                        i <= list@.len(),
                        all == list.deep_view(),
                        tags@ == all.take(i as int).to_set(),
                    decreases list@.len() - i,
                {
                    tags.insert(list[i].clone());
                    proof {
                        let before = all.take(i as int);
                        let after = all.take(i + 1);
                        assert(after =~= before.push(all[i as int]));
                        assert forall|x: Seq<char>| after.contains(x) == (before.contains(x) || x
                            == all[i as int]) by {
                            if before.contains(x) {
                                let j = before.index_of(x);
                                assert(after[j] == x);
                            }
                            assert(after[i as int] == all[i as int]);
                        }
                        assert(after.to_set() =~= before.to_set().insert(all[i as int]));
                    }
                    i += 1;
                }
                assert(all.take(all.len() as int) =~= all);
            },
            None => {
                assert(Seq::<Seq<char>>::empty().to_set() =~= Set::<Seq<char>>::empty());
            },
        }
        tags
    }

    /// Get the multiversion generate tasks in the task definition.
    ///
    /// # Arguments
    ///
    /// * `task` - Evergreen task to query.
    ///
    /// # Returns
    ///
    /// List of multiversion generate tasks.
    pub fn get_multiversion_generate_tasks(&self, task: &EvgTask) -> (tasks: Option<
        Vec<MultiversionGenerateTaskConfig>,
    >)
        requires
            valid_multiversion_suites(*task),
        ensures
            tasks.deep_view() == multiversion_tasks_of(*task),
    {
        match get_func_vars_by_name(task, INITIALIZE_MULTIVERSION_TASKS) {
            Some(vars) => {
                let mut tasks: Vec<MultiversionGenerateTaskConfig> = Vec::new();
                let n: usize = vars.len();
                let ghost entries = vars.entries();
                let mut i: usize = 0;
                assert(multiversion_entries(*task).unwrap() =~= entries);
                assert(tasks.deep_view() =~= multiversion_tasks(entries.take(0)));
                while i < n
                    invariant
                        i <= n,
                        n == entries.len(),
                        entries == vars.entries(),
                        tasks.deep_view() == multiversion_tasks(entries.take(i as int)),
                        forall|j: int| 0 <= j < n ==> valid_suite((#[trigger] entries[j]).0@),
                    decreases n - i,
                {
                    assert(entries.take(i + 1).drop_last() =~= entries.take(i as int));
                    assert(entries.take(i + 1).last() == entries[i as int]);
                    let suite: &str = vars.key(i).as_str();
                    if let ParamValue::String(old_version) = vars.value(i) {
                        let (suite_name, bazel_target) = if is_bazel_suite(suite) {
                            (get_bazel_suite_name(suite).to_owned(), Some(suite.to_owned()))
                        } else {
                            (suite.to_owned(), None)
                        };
                        let ghost before = tasks.deep_view();
                        let config = MultiversionGenerateTaskConfig {
                            suite_name,
                            old_version: old_version.clone(),
                            bazel_target,
                        };
                        assert(multiversion_task(entries[i as int]) == Some(config.deep_view()));
                        tasks.push(config);
                        assert(tasks.deep_view() =~= before.push(config.deep_view()));
                    }
                    i += 1;
                }
                assert(entries.take(n as int) =~= entries);
                Some(tasks)
            },
            None => None,
        }
    }

    /// Get a list of tasks the given task depends on.
    ///
    /// # Arguments
    ///
    /// * `task` - Evergreen task to query.
    ///
    /// # Returns
    ///
    /// List of task names the task depends on.
    pub fn get_task_dependencies(&self, task: &EvgTask) -> (names: Vec<String>)
        ensures
            names.deep_view() == dependency_names(task.deep_view()),
    {
        let mut names: Vec<String> = Vec::new();
        if let Some(dependencies) = &task.depends_on {
            let mut i: usize = 0;
            while i < dependencies.len()
                invariant
                    i <= dependencies@.len(),
                    names@.len() == i,
                    forall|j: int| 0 <= j < i ==> names@[j]@ == dependencies@[j].name@,
                decreases dependencies@.len() - i,
            {
                names.push(dependencies[i].name.clone());
                i += 1;
            }
        }
        assert(names.deep_view() =~= dependency_names(task.deep_view()));
        names
    }

    /// Get the dependencies that a build variant gives its reference to a task.
    ///
    /// # Arguments
    ///
    /// * `task_name` - Name of task that is referred to.
    /// * `build_variant` - Build variant to query.
    ///
    /// # Returns
    ///
    /// Dependencies of the first reference to the task, if it has any of its own.
    pub fn get_task_ref_dependencies(&self, task_name: &str, build_variant: &BuildVariant) -> (deps:
        Option<Vec<TaskDependency>>)
        ensures
            deps.deep_view() == task_ref_dependencies(build_variant.deep_view().tasks, task_name@),
    {
        let ghost all = build_variant.tasks.deep_view();
        let mut i: usize = 0;
        assert(all.skip(0) =~= all);
        while i < build_variant.tasks.len()
            invariant
                i <= build_variant.tasks@.len(),
                all == build_variant.tasks.deep_view(),
                task_ref_dependencies(all, task_name@) == task_ref_dependencies(
                    all.skip(i as int),
                    task_name@,
                ),
            decreases build_variant.tasks@.len() - i,
        {
            assert(all.skip(i as int).first() == build_variant.tasks[i as int].deep_view());
            assert(all.skip(i as int).drop_first() =~= all.skip(i + 1));
            if str_eq(build_variant.tasks[i].name.as_str(), task_name) {
                let deps = build_variant.tasks[i].depends_on.clone();
                assert(deps.deep_view() =~~= build_variant.tasks[i as int].depends_on.deep_view());
                return deps;
            }
            i += 1;
        }
        None
    }

    /// Lookup the given variable in the vars section of the 'generate resmoke task' func.
    ///
    /// # Arguments
    ///
    /// * `task` - Shrub task to query.
    /// * `var` - Name of variable to lookup.
    ///
    /// # Returns
    ///
    /// Value of given variable in the 'generate resmoke task' vars.
    pub fn get_gen_task_var<'a>(&self, task: &'a EvgTask, var: &str) -> (value: Option<&'a str>)
        ensures
            value.deep_view() == gen_task_var(task.deep_view(), var@),
    {
        match get_func_vars_by_name(task, GENERATE_RESMOKE_TASKS) {
            Some(vars) => get_text_var(vars, var),
            None => None,
        }
    }

    /// Get vars of the 'generate resmoke task' func.
    ///
    /// # Arguments
    ///
    /// * `task` - Shrub task to query.
    ///
    /// # Returns
    ///
    /// Vars in the 'generate resmoke task'.
    pub fn get_gen_task_vars(&self, task: &EvgTask) -> (vars: Option<Vars>)
        ensures
            vars.deep_view() == task_call_vars(task.deep_view(), GENERATE_RESMOKE_TASKS@),
    {
        match get_func_vars_by_name(task, GENERATE_RESMOKE_TASKS) {
            Some(vars) => Some(clone_vars(vars)),
            None => None,
        }
    }

    /// Lookup the given 'run_var' in the build variant 'vars' and provide the value.
    ///
    /// # Arguments
    ///
    /// * `run_var` - Name of var to lookup.
    /// * `build_variant` - Build Variant to search for var in.
    ///
    /// # Returns
    ///
    /// Value to use for the given `run_var` if found.
    pub fn translate_run_var(&self, run_var: &str, build_variant: &BuildVariant) -> (value: Option<
        String,
    >)
        ensures
            value.deep_view() == translated_run_var(
                run_var@,
                regex_named_groups(EXPANSION_PATTERN@, run_var@, EXPANSION_ID@, EXPANSION_DEFAULT@),
                build_variant.deep_view(),
            ),
    {
        let groups = named_groups(EXPANSION_PATTERN, run_var, EXPANSION_ID, EXPANSION_DEFAULT);
        self.resolve_run_var(run_var, groups, build_variant)
    }

    /// Provide the value of a variable, given the expansion that was found in it.
    ///
    /// # Arguments
    ///
    /// * `run_var` - Text of the variable.
    /// * `groups` - Name and default value of the expansion in the variable, if there is one.
    /// * `build_variant` - Build Variant to search for the expansion in.
    ///
    /// # Returns
    ///
    /// Value of the expansion, else its default value. A variable without an expansion is its own
    /// value.
    pub fn resolve_run_var(
        &self,
        run_var: &str,
        groups: Option<(String, Option<String>)>,
        build_variant: &BuildVariant,
    ) -> (value: Option<String>)
        ensures
            value.deep_view() == translated_run_var(
                run_var@,
                groups.deep_view(),
                build_variant.deep_view(),
            ),
    {
        match groups {
            Some((id, default)) => {
                match self.lookup_build_variant_expansion(id.as_str(), build_variant) {
                    Some(value) => Some(value),
                    None => default,
                }
            },
            None => Some(run_var.to_owned()),
        }
    }

    /// Lookup the specified expansion in the given build variant.
    ///
    /// # Arguments
    ///
    /// * `name` - Name of expansion to query.
    /// * `build_variant` - Build Variant to query.
    ///
    /// # Returns
    ///
    /// Value of expansion if it exists.
    pub fn lookup_build_variant_expansion(&self, name: &str, build_variant: &BuildVariant) -> (value:
        Option<String>)
        ensures
            value.deep_view() == expansion(build_variant.deep_view(), name@),
    {
        match &build_variant.expansions {
            Some(expansions) => match expansions.get(name) {
                Some(value) => Some(value.clone()),
                None => None,
            },
            None => None,
        }
    }

    /// Lookup and split by whitespace the specified expansion in the given build variant.
    ///
    /// # Arguments
    ///
    /// * `name` - Name of expansion to query.
    /// * `build_variant` - Build Variant to query.
    ///
    /// # Returns
    ///
    /// List of values of expansion splitted by whitespace if it exists.
    pub fn lookup_and_split_by_whitespace_build_variant_expansion(
        &self,
        name: &str,
        build_variant: &BuildVariant,
    ) -> (values: Vec<String>)
        ensures
            values.deep_view() == expansion_words(build_variant.deep_view(), name@),
    {
        match self.lookup_build_variant_expansion(name, build_variant) {
            Some(value) => split_words(value.as_str()),
            None => {
                let values: Vec<String> = Vec::new();
                assert(values.deep_view() =~= Seq::<Seq<char>>::empty());
                values
            },
        }
    }

    /// Lookup the given variable in the task definition.
    ///
    /// # Arguments
    ///
    /// * `task_def` - Task definition to query.
    /// * `run_var` - Variable to query.
    ///
    /// # Returns
    ///
    /// Value of run_var for the given task, an error will be returned if not defined.
    pub fn lookup_required_param_str(&self, task_def: &EvgTask, run_var: &str) -> (value: Result<
        String,
        ConfigError,
    >)
        ensures
            outcome(value) == required_str(task_def.deep_view(), run_var@),
    {
        match self.get_gen_task_var(task_def, run_var) {
            Some(value) => Ok(value.to_owned()),
            None => Err(
                ConfigError::MissingVar { var: run_var.to_owned(), task: task_def.name.clone() },
            ),
        }
    }

    /// Lookup the given variable in the task definition.
    ///
    /// # Arguments
    ///
    /// * `task_def` - Task definition to query.
    /// * `run_var` - Variable to query.
    ///
    /// # Returns
    ///
    /// Value of run_var for the given task, an error will be returned if not defined, or if it is
    /// not a number.
    pub fn lookup_required_param_u64(&self, task_def: &EvgTask, run_var: &str) -> (value: Result<
        u64,
        ConfigError,
    >)
        ensures
            outcome(value) == required_u64(task_def.deep_view(), run_var@),
    {
        match self.get_gen_task_var(task_def, run_var) {
            Some(value) => read_u64(value),
            None => Err(
                ConfigError::MissingVar { var: run_var.to_owned(), task: task_def.name.clone() },
            ),
        }
    }

    /// Lookup the given variable in the task definition.
    ///
    /// # Arguments
    ///
    /// * `task_def` - Task definition to query.
    /// * `run_var` - Variable to query.
    ///
    /// # Returns
    ///
    /// Value of run_var for the given task, an error will be returned if not defined, or if it is
    /// neither `true` nor `false`.
    pub fn lookup_required_param_bool(&self, task_def: &EvgTask, run_var: &str) -> (value: Result<
        bool,
        ConfigError,
    >)
        ensures
            outcome(value) == required_bool(task_def.deep_view(), run_var@),
    {
        match self.get_gen_task_var(task_def, run_var) {
            Some(value) => read_bool(value),
            None => Err(
                ConfigError::MissingVar { var: run_var.to_owned(), task: task_def.name.clone() },
            ),
        }
    }

    /// Lookup the given variable in the task definition.
    ///
    /// # Arguments
    ///
    /// * `task_def` - Task definition to query.
    /// * `run_var` - Variable to query.
    /// * `default` - Default value to use if `run_var` is undefined.
    ///
    /// # Returns
    ///
    /// Value of run_var for the given task, the default will be returned if not defined, an error
    /// if it is neither `true` nor `false`.
    pub fn lookup_default_param_bool(&self, task_def: &EvgTask, run_var: &str, default: bool) -> (value:
        Result<bool, ConfigError>)
        ensures
            outcome(value) == default_bool(task_def.deep_view(), run_var@, default),
    {
        match self.get_gen_task_var(task_def, run_var) {
            Some(value) => read_bool(value),
            None => Ok(default),
        }
    }

    /// Lookup the given variable in the task definition.
    ///
    /// # Arguments
    ///
    /// * `task_def` - Task definition to query.
    /// * `run_var` - Variable to query.
    /// * `default` - Default value to use if `run_var` is undefined.
    ///
    /// # Returns
    ///
    /// Value of run_var for the given task, the default will be returned if not defined.
    pub fn lookup_default_param_str(&self, task_def: &EvgTask, run_var: &str, default: &str) -> (value:
        String)
        ensures
            value@ == default_str(task_def.deep_view(), run_var@, default@),
    {
        match self.get_gen_task_var(task_def, run_var) {
            Some(value) => value.to_owned(),
            None => default.to_owned(),
        }
    }

    /// Lookup the given variable in the task definition.
    ///
    /// # Arguments
    ///
    /// * `task_def` - Task definition to query.
    /// * `run_var` - Variable to query.
    ///
    /// # Returns
    ///
    /// Value of run_var for the given task if it exists, an error if it is not a number.
    pub fn lookup_optional_param_u64(&self, task_def: &EvgTask, run_var: &str) -> (value: Result<
        Option<u64>,
        ConfigError,
    >)
        ensures
            outcome(value) == optional_u64(task_def.deep_view(), run_var@),
    {
        match self.get_gen_task_var(task_def, run_var) {
            Some(value) => match read_u64(value) {
                Ok(number) => Ok(Some(number)),
                Err(error) => Err(error),
            },
            None => Ok(None),
        }
    }
}

/// The name that shows on a build variant marks it as required or suggested.
pub open spec fn required_or_suggested(variant: BuildVariantView) -> bool {
    variant.display_name matches Some(name) && name.len() > 0 && (name[0] == '!' || name[0] == '*')
}

/// The truth value of the expansion that asks for all required and suggested build variants.
pub open spec fn includes_all_required(variant: BuildVariantView) -> Option<bool> {
    match expansion(variant, BURN_IN_TAG_INCLUDE_ALL_REQUIRED_AND_SUGGESTED@) {
        Some(value) => parsed_bool(value),
        None => Some(false),
    }
}

/// The build variants for burn in tags can be told: the expansion that asks for all required and
/// suggested build variants is a truth value, and where it asks for them, each build variant has a
/// name that shows.
pub open spec fn burn_in_tags_resolvable(
    variant: BuildVariantView,
    variant_map: Map<Seq<char>, BuildVariantView>,
) -> bool {
    &&& includes_all_required(variant) is Some
    &&& includes_all_required(variant) == Some(true) ==> forall|name: Seq<char>| #[trigger]
        variant_map.contains_key(name) ==> variant_map[name].display_name is Some
}

/// A build variant is one of those to use for the burn in tags of the given one.
pub open spec fn is_burn_in_tag_variant(
    variant: BuildVariantView,
    variant_map: Map<Seq<char>, BuildVariantView>,
    name: Seq<char>,
) -> bool {
    &&& {
        ||| expansion_words(variant, BURN_IN_TAG_INCLUDE_BUILD_VARIANTS@).contains(name)
        ||| includes_all_required(variant) == Some(true) && variant_map.contains_key(name)
            && required_or_suggested(variant_map[name])
    }
    &&& !expansion_words(variant, BURN_IN_TAG_EXCLUDE_BUILD_VARIANTS@).contains(name)
}

/// A list holds the build variants to use for the burn in tags of the given one, each once.
pub open spec fn lists_burn_in_tag_variants(
    variant: BuildVariantView,
    variant_map: Map<Seq<char>, BuildVariantView>,
    names: Seq<Seq<char>>,
) -> bool {
    &&& names.no_duplicates()
    &&& forall|name: Seq<char>| #[trigger]
        names.contains(name) <==> is_burn_in_tag_variant(variant, variant_map, name)
}

/// Some expansion switches the tests of the enterprise module off.
pub open spec fn enterprise_switched_off(variant: BuildVariantView) -> bool {
    variant.expansions matches Some(expansions) && exists|name: Seq<char>| #[trigger]
        expansions.contains_key(name) && regex_is_match(ENTERPRISE_OFF_PATTERN@, expansions[name])
}

/// The distro that tasks of a build variant run on by default, nothing if it names none.
pub open spec fn default_distro(variant: BuildVariantView) -> Seq<char> {
    match variant.run_on {
        Some(distros) => if distros.len() > 0 {
            distros[0]
        } else {
            Seq::empty()
        },
        None => Seq::empty(),
    }
}

/// The platform of a distro, given its name in lower case.
pub open spec fn platform_of(distro: Seq<char>) -> Seq<char> {
    if occurs_in(distro, MACOS@) {
        MACOS@
    } else if occurs_in(distro, WINDOWS@) {
        WINDOWS@
    } else {
        LINUX@
    }
}

/// The platform that a build variant runs on.
pub open spec fn variant_platform(variant: BuildVariantView) -> Seq<char> {
    platform_of(lowercase(default_distro(variant)))
}

impl EvgConfigUtilsImpl {
    /// Determine burn in tag build variants for the given build variant.
    ///
    /// # Arguments
    ///
    /// * `build_variant` - Build Variant to query.
    /// * `build_variant_map` - A map of build variant names to their definitions.
    ///
    /// # Returns
    ///
    /// List of build variant names to use for burn in tags.
    pub fn resolve_burn_in_tag_build_variants(
        &self,
        build_variant: &BuildVariant,
        build_variant_map: &StringMap<&BuildVariant>,
    ) -> (names: Vec<String>)
        requires
            burn_in_tags_resolvable(build_variant.deep_view(), build_variant_map.deep_view()),
        ensures
            lists_burn_in_tag_variants(
                build_variant.deep_view(),
                build_variant_map.deep_view(),
                names.deep_view(),
            ),
    {
        let ghost variant = build_variant.deep_view();
        let ghost variant_map = build_variant_map.deep_view();
        let mut candidates = StringSet::new();
        let listed: Vec<String> = self.lookup_and_split_by_whitespace_build_variant_expansion(
            BURN_IN_TAG_INCLUDE_BUILD_VARIANTS,
            build_variant,
        );
        let mut i: usize = 0;
        while i < listed.len()
            invariant
                i <= listed@.len(),
                forall|name: Seq<char>| #[trigger]
                    candidates@.contains(name) <==> listed.deep_view().take(i as int).contains(
                        name,
                    ),
            decreases listed@.len() - i,
        {
            candidates.insert(listed[i].clone());
            proof {
                lemma_take_contains(listed.deep_view(), i as int);
            }
            i += 1;
        }
        assert(listed.deep_view().take(i as int) =~= listed.deep_view());
        let include_all: bool = match self.lookup_build_variant_expansion(
            BURN_IN_TAG_INCLUDE_ALL_REQUIRED_AND_SUGGESTED,
            build_variant,
        ) {
            Some(value) => parse_bool(value.as_str()).unwrap(),
            None => false,
        };
        if include_all {
            let n: usize = build_variant_map.len();
            let ghost entries = build_variant_map.entries();
            let ghost before = candidates@;
            let mut i: usize = 0;
            while i < n
                invariant
                    i <= n,
                    n == entries.len(),
                    entries == build_variant_map.entries(),
                    distinct_keys(entries),
                    variant_map == build_variant_map.deep_view(),
                    forall|name: Seq<char>| #[trigger]
                        variant_map.contains_key(name) ==> variant_map[name].display_name is Some,
                    forall|name: Seq<char>| #[trigger]
                        candidates@.contains(name) <==> before.contains(name) || exists|j: int|
                            0 <= j < i && (#[trigger] entries[j]).0@ == name
                                && required_or_suggested(entries[j].1.deep_view()),
                decreases n - i,
            {
                let ghost old_candidates = candidates@;
                proof {
                    lemma_entry(entries, i as int);
                    assert(variant_map.contains_key(entries[i as int].0@));
                    assert(variant_map[entries[i as int].0@] == entries[i as int].1.deep_view());
                }
                let marked: bool = match &build_variant_map.value(i).display_name {
                    Some(name) => marks_required_or_suggested(name.as_str()),
                    None => false,
                };
                if marked {
                    candidates.insert(build_variant_map.key(i).clone());
                }
                proof {
                    assert forall|name: Seq<char>| #[trigger] candidates@.contains(name) <==> (
                    before.contains(name) || exists|j: int|
                        0 <= j < i + 1 && (#[trigger] entries[j]).0@ == name
                            && required_or_suggested(entries[j].1.deep_view())) by {
                        if candidates@.contains(name) && !old_candidates.contains(name) {
                            assert(entries[i as int].0@ == name);
                        }
                        assert(candidates@.contains(name) <== old_candidates.contains(name));
                    }
                }
                i += 1;
            }
            proof {
                assert forall|name: Seq<char>| #[trigger] candidates@.contains(name) <==> (
                before.contains(name) || (variant_map.contains_key(name) && required_or_suggested(
                    variant_map[name],
                ))) by {
                    if exists|j: int|
                        0 <= j < n && (#[trigger] entries[j]).0@ == name && required_or_suggested(
                            entries[j].1.deep_view(),
                        ) {
                        let j = choose|j: int|
                            0 <= j < n && (#[trigger] entries[j]).0@ == name
                                && required_or_suggested(entries[j].1.deep_view());
                        lemma_entry(entries, j);
                    }
                    if variant_map.contains_key(name) {
                        let j = choose|j: int| key_at(entries, j, name);
                        lemma_entry(entries, j);
                        assert(entries[j].0@ == name);
                    }
                }
            }
        }
        let excluded: Vec<String> = self.lookup_and_split_by_whitespace_build_variant_expansion(
            BURN_IN_TAG_EXCLUDE_BUILD_VARIANTS,
            build_variant,
        );
        let candidates: Vec<String> = candidates.to_vec();
        let names = without_all(&candidates, &excluded);
        proof {
            let all = candidates.deep_view();
            assert forall|name: Seq<char>| #[trigger] names.deep_view().contains(name)
                <==> is_burn_in_tag_variant(variant, variant_map, name) by {
                assert(all.to_set().contains(name) == all.contains(name));
            }
        }
        names
    }

    /// Can the burn in tag build variants for the given build variant be determined?
    ///
    /// # Arguments
    ///
    /// * `build_variant` - Build Variant to query.
    /// * `build_variant_map` - A map of build variant names to their definitions.
    pub fn can_resolve_burn_in_tags(
        &self,
        build_variant: &BuildVariant,
        build_variant_map: &StringMap<&BuildVariant>,
    ) -> (can: bool)
        ensures
            can == burn_in_tags_resolvable(
                build_variant.deep_view(),
                build_variant_map.deep_view(),
            ),
    {
        let ghost variant_map = build_variant_map.deep_view();
        let include_all: bool = match self.lookup_build_variant_expansion(
            BURN_IN_TAG_INCLUDE_ALL_REQUIRED_AND_SUGGESTED,
            build_variant,
        ) {
            Some(value) => match parse_bool(value.as_str()) {
                Some(include_all) => include_all,
                None => {
                    return false;
                },
            },
            None => false,
        };
        if !include_all {
            return true;
        }
        let n: usize = build_variant_map.len();
        let ghost entries = build_variant_map.entries();
        let mut i: usize = 0;
        while i < n
            invariant
                i <= n,
                n == entries.len(),
                entries == build_variant_map.entries(),
                distinct_keys(entries),
                variant_map == build_variant_map.deep_view(),
                includes_all_required(build_variant.deep_view()) == Some(true),
                forall|j: int|
                    0 <= j < i ==> (#[trigger] entries[j]).1.deep_view().display_name is Some,
            decreases n - i,
        {
            if build_variant_map.value(i).display_name.is_none() {
                proof {
                    lemma_entry(entries, i as int);
                    assert(variant_map.contains_key(entries[i as int].0@));
                    assert(variant_map[entries[i as int].0@].display_name is None);
                }
                return false;
            }
            i += 1;
        }
        proof {
            assert forall|name: Seq<char>| #[trigger] variant_map.contains_key(name) implies
                variant_map[name].display_name is Some by {
                let j = choose|j: int| key_at(entries, j, name);
                lemma_entry(entries, j);
                assert(entries[j].1.deep_view().display_name is Some);
            }
        }
        true
    }

    /// Check if the given build variant uses the enterprise module.
    ///
    /// # Arguments
    ///
    /// * `build_variant` - Build variant to check.
    ///
    /// # Returns
    ///
    /// true if given build variant uses the enterprise module.
    pub fn is_enterprise_build_variant(&self, build_variant: &BuildVariant) -> (enterprise: bool)
        ensures
            enterprise == !enterprise_switched_off(build_variant.deep_view()),
    {
        match &build_variant.expansions {
            Some(expansions) => {
                let n: usize = expansions.len();
                let ghost entries = expansions.entries();
                let ghost map = expansions.deep_view();
                let mut switched_off: Vec<bool> = Vec::new();
                let mut i: usize = 0;
                while i < n
                    invariant
                        i <= n,
                        n == entries.len(),
                        entries == expansions.entries(),
                        switched_off@.len() == i,
                        forall|j: int|
                            0 <= j < i ==> #[trigger] switched_off@[j] == regex_is_match(
                                ENTERPRISE_OFF_PATTERN@,
                                entries[j].1@,
                            ),
                    decreases n - i,
                {
                    switched_off.push(
                        is_match(ENTERPRISE_OFF_PATTERN, expansions.value(i).as_str()),
                    );
                    i += 1;
                }
                proof {
                    assert(map == build_variant.deep_view().expansions.unwrap());
                    if switched_off@.contains(true) {
                        let j = switched_off@.index_of(true);
                        lemma_entry(entries, j);
                        assert(map.contains_key(entries[j].0@));
                    }
                    if enterprise_switched_off(build_variant.deep_view()) {
                        let name = choose|name: Seq<char>| #[trigger]
                            map.contains_key(name) && regex_is_match(
                                ENTERPRISE_OFF_PATTERN@,
                                map[name],
                            );
                        let j = choose|j: int| key_at(entries, j, name);
                        lemma_entry(entries, j);
                        assert(switched_off@[j]);
                    }
                }
                self.uses_enterprise_module(&switched_off)
            },
            None => true,
        }
    }

    /// Check if the enterprise module is used, given for each expansion whether it switches the
    /// tests of the module off.
    pub fn uses_enterprise_module(&self, switched_off: &Vec<bool>) -> (used: bool)
        ensures
            used == !switched_off@.contains(true),
    {
        let mut i: usize = 0;
        while i < switched_off.len()
            invariant
                i <= switched_off@.len(),
                forall|j: int| 0 <= j < i ==> !switched_off@[j],
            decreases switched_off@.len() - i,
        {
            if switched_off[i] {
                return false;
            }
            i += 1;
        }
        true
    }

    /// Infer platform that build variant will run on.
    ///
    /// # Arguments
    ///
    /// * `build_variant` - Build variant to query.
    ///
    /// # Returns
    ///
    /// linux, or mac, or windows platform that build variant will run on.
    pub fn infer_build_variant_platform(&self, build_variant: &BuildVariant) -> (platform: String)
        ensures
            platform@ == variant_platform(build_variant.deep_view()),
    {
        let distro: String = match &build_variant.run_on {
            Some(distros) => if distros.len() > 0 {
                distros[0].clone()
            } else {
                String::new()
            },
            None => String::new(),
        };
        self.platform_of_distro(to_lowercase(distro.as_str()).as_str())
    }

    /// The platform of a distro.
    ///
    /// # Arguments
    ///
    /// * `distro` - Name of the distro in lower case.
    pub fn platform_of_distro(&self, distro: &str) -> (platform: String)
        ensures
            platform@ == platform_of(distro@),
    {
        if contains_text(distro, MACOS) {
            MACOS.to_owned()
        } else if contains_text(distro, WINDOWS) {
            WINDOWS.to_owned()
        } else {
            LINUX.to_owned()
        }
    }
}

proof fn lemma_take_contains(all: Seq<Seq<char>>, i: int)
    requires
        0 <= i < all.len(),
    ensures
        forall|x: Seq<char>| #[trigger]
            all.take(i + 1).contains(x) <==> all.take(i).contains(x) || x == all[i],
{
    assert forall|x: Seq<char>| #[trigger] all.take(i + 1).contains(x) <==> all.take(i).contains(x)
        || x == all[i] by {
        if all.take(i).contains(x) {
            let j = all.take(i).index_of(x);
            assert(all.take(i + 1)[j] == x);
        }
        if all.take(i + 1).contains(x) && x != all[i] {
            let j = all.take(i + 1).index_of(x);
            assert(all.take(i)[j] == x);
        }
        assert(all.take(i + 1)[i] == all[i]);
    }
}

/// Does the name that shows on a build variant mark it as required or suggested?
fn marks_required_or_suggested(name: &str) -> (marked: bool)
    ensures
        marked == (name@.len() > 0 && (name@[0] == '!' || name@[0] == '*')),
{
    if name.unicode_len() == 0 {
        return false;
    }
    let mark: char = name.get_char(0);
    mark == '!' || mark == '*'
}

/// The texts that are not among the excluded ones.
fn without_all(texts: &Vec<String>, excluded: &Vec<String>) -> (kept: Vec<String>)
    requires
        texts.deep_view().no_duplicates(),
    ensures
        kept.deep_view().no_duplicates(),
        forall|text: Seq<char>| #[trigger]
            kept.deep_view().contains(text) <==> texts.deep_view().contains(text)
                && !excluded.deep_view().contains(text),
{
    let mut kept: Vec<String> = Vec::new();
    let ghost all = texts.deep_view();
    let mut i: usize = 0;
    while i < texts.len()
        invariant
            i <= texts@.len(),
            all == texts.deep_view(),
            all.no_duplicates(),
            kept.deep_view().no_duplicates(),
            forall|text: Seq<char>| #[trigger]
                kept.deep_view().contains(text) <==> all.take(i as int).contains(text)
                    && !excluded.deep_view().contains(text),
        decreases texts@.len() - i,
    {
        let ghost before = kept.deep_view();
        proof {
            lemma_take_contains(all, i as int);
            assert(!all.take(i as int).contains(all[i as int]));
        }
        if !contains_str(excluded, texts[i].as_str()) {
            kept.push(texts[i].clone());
            proof {
                let after = kept.deep_view();
                assert(after =~= before.push(all[i as int]));
                assert(!before.contains(all[i as int]));
                assert forall|j: int, k: int| 0 <= j < after.len() && 0 <= k < after.len() && j
                    != k implies after[j] != after[k] by {
                    if j < before.len() {
                        assert(before.contains(before[j]));
                    }
                    if k < before.len() {
                        assert(before.contains(before[k]));
                    }
                }
                lemma_take_contains(kept.deep_view(), before.len() as int);
                assert(kept.deep_view().take(before.len() as int) =~= before);
                assert(kept.deep_view().take((before.len() + 1) as int) =~= kept.deep_view());
            }
        }
        i += 1;
    }
    assert(all.take(i as int) =~= all);
    kept
}

/// The tags of a task.
pub open spec fn task_tags(task: EvgTaskView) -> Set<Seq<char>> {
    match task.tags {
        Some(tags) => tags.to_set(),
        None => Set::empty(),
    }
}

fn read_u64(value: &str) -> (number: Result<u64, ConfigError>)
    ensures
        outcome(number) == number_value(value@),
{
    match parse_u64(value) {
        Some(number) => Ok(number),
        None => Err(ConfigError::NotANumber { value: value.to_owned() }),
    }
}

fn read_bool(value: &str) -> (b: Result<bool, ConfigError>)
    ensures
        outcome(b) == bool_value(value@),
{
    match parse_bool(value) {
        Some(b) => Ok(b),
        None => Err(ConfigError::NotABool { value: value.to_owned() }),
    }
}

} // verus!
