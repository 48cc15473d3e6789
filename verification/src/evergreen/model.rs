//! The parts of an Evergreen project configuration: tasks, commands, build variants.

use vstd::prelude::*;

use crate::utils::string_map::{lemma_same_deep_view, StringMap};

verus! {

/// A task that another task waits for.
#[derive(Debug, PartialEq)]
pub struct TaskDependency {
    /// Name of task that needs to be run.
    pub name: String,
    /// Build variant where dependent task is run.
    pub variant: Option<String>,
}

/// What a [`TaskDependency`] holds.
pub struct TaskDependencyView {
    pub name: Seq<char>,
    pub variant: Option<Seq<char>>,
}

impl DeepView for TaskDependency {
    type V = TaskDependencyView;

    open spec fn deep_view(&self) -> TaskDependencyView {
        TaskDependencyView {
            name: self.name@,
            variant: self.variant.deep_view(),
        }
    }
}

impl Clone for TaskDependency {
    fn clone(&self) -> (copy: Self)
        ensures
            copy.deep_view() == self.deep_view(),
    {
        TaskDependency {
            name: self.name.clone(),
            variant: self.variant.clone(),
        }
    }
}

/// Reference to a task that is being added to a build variant.
#[derive(Debug, PartialEq)]
pub struct TaskRef {
    /// Name of task.
    pub name: String,
    /// List of other tasks that need to be completed before this is done.
    pub depends_on: Option<Vec<TaskDependency>>,
    /// List of distros that task should be run on.
    pub distros: Option<Vec<String>>,
    /// Should task be scheduled when created.
    pub activate: Option<bool>,
}

/// What a [`TaskRef`] holds.
pub struct TaskRefView {
    pub name: Seq<char>,
    pub depends_on: Option<Seq<TaskDependencyView>>,
    pub distros: Option<Seq<Seq<char>>>,
    pub activate: Option<bool>,
}

impl DeepView for TaskRef {
    type V = TaskRefView;

    open spec fn deep_view(&self) -> TaskRefView {
        TaskRefView {
            name: self.name@,
            depends_on: self.depends_on.deep_view(),
            distros: self.distros.deep_view(),
            activate: self.activate,
        }
    }
}

impl Clone for TaskRef {
    fn clone(&self) -> (copy: Self)
        ensures
            copy.deep_view() == self.deep_view(),
    {
        let depends_on = self.depends_on.clone();
        assert(depends_on.deep_view() =~~= self.depends_on.deep_view());
        let distros = self.distros.clone();
        assert(distros.deep_view() =~~= self.distros.deep_view());
        TaskRef {
            name: self.name.clone(),
            depends_on,
            distros,
            activate: self.activate,
        }
    }
}

/// AWS S3 location description.
#[derive(Debug, PartialEq)]
pub struct S3Location {
    /// S3 bucket.
    pub bucket: String,
    /// Path within S3 bucket.
    pub path: String,
}

/// What a [`S3Location`] holds.
pub struct S3LocationView {
    pub bucket: Seq<char>,
    pub path: Seq<char>,
}

impl DeepView for S3Location {
    type V = S3LocationView;

    open spec fn deep_view(&self) -> S3LocationView {
        S3LocationView {
            bucket: self.bucket@,
            path: self.path@,
        }
    }
}

impl Clone for S3Location {
    fn clone(&self) -> (copy: Self)
        ensures
            copy.deep_view() == self.deep_view(),
    {
        S3Location {
            bucket: self.bucket.clone(),
            path: self.path.clone(),
        }
    }
}

/// Description of how to copy an AWS S3 file.
#[derive(Debug, PartialEq)]
pub struct S3CopyFile {
    /// Location of S3 file to copy.
    pub source: S3Location,
    /// S3 destination to put copy.
    pub destination: S3Location,
    /// Name to show for the file.
    pub display_name: Option<String>,
    /// Build variants that copy the file.
    pub build_variants: Option<Vec<String>>,
    /// May the file be missing.
    pub optional: Option<bool>,
}

/// What a [`S3CopyFile`] holds.
pub struct S3CopyFileView {
    pub source: S3LocationView,
    pub destination: S3LocationView,
    pub display_name: Option<Seq<char>>,
    pub build_variants: Option<Seq<Seq<char>>>,
    pub optional: Option<bool>,
}

impl DeepView for S3CopyFile {
    type V = S3CopyFileView;

    open spec fn deep_view(&self) -> S3CopyFileView {
        S3CopyFileView {
            source: self.source.deep_view(),
            destination: self.destination.deep_view(),
            display_name: self.display_name.deep_view(),
            build_variants: self.build_variants.deep_view(),
            optional: self.optional,
        }
    }
}

impl Clone for S3CopyFile {
    fn clone(&self) -> (copy: Self)
        ensures
            copy.deep_view() == self.deep_view(),
    {
        let build_variants = self.build_variants.clone();
        assert(build_variants.deep_view() =~~= self.build_variants.deep_view());
        S3CopyFile {
            source: self.source.clone(),
            destination: self.destination.clone(),
            display_name: self.display_name.clone(),
            build_variants,
            optional: self.optional,
        }
    }
}

/// Key-Value pair used to create a parameter map.
#[derive(Debug, PartialEq)]
pub struct KeyValueParam {
    /// Key of Key-Value pair.
    pub key: String,
    /// Value of Key-Value pair.
    pub value: String,
}

/// What a [`KeyValueParam`] holds.
pub struct KeyValueParamView {
    pub key: Seq<char>,
    pub value: Seq<char>,
}

impl DeepView for KeyValueParam {
    type V = KeyValueParamView;

    open spec fn deep_view(&self) -> KeyValueParamView {
        KeyValueParamView {
            key: self.key@,
            value: self.value@,
        }
    }
}

impl Clone for KeyValueParam {
    fn clone(&self) -> (copy: Self)
        ensures
            copy.deep_view() == self.deep_view(),
    {
        KeyValueParam {
            key: self.key.clone(),
            value: self.value.clone(),
        }
    }
}

/// Value of a parameter of a command.
#[derive(Debug, PartialEq)]
pub enum ParamValue {
    Bool(bool),
    String(String),
    Number(u64),
    /// A floating point number, by the bits of its IEEE 754 double.
    Float(u64),
    List(Vec<String>),
    Mapping(StringMap<String>),
    KeyValueList(Vec<KeyValueParam>),
    S3CopyList(Vec<S3CopyFile>),
}

/// What a [`ParamValue`] holds.
pub enum ParamValueView {
    Bool(bool),
    String(Seq<char>),
    Number(u64),
    Float(u64),
    List(Seq<Seq<char>>),
    Mapping(Map<Seq<char>, Seq<char>>),
    KeyValueList(Seq<KeyValueParamView>),
    S3CopyList(Seq<S3CopyFileView>),
}

impl DeepView for ParamValue {
    type V = ParamValueView;

    open spec fn deep_view(&self) -> ParamValueView {
        match self {
            ParamValue::Bool(b) => ParamValueView::Bool(*b),
            ParamValue::String(s) => ParamValueView::String(s@),
            ParamValue::Number(n) => ParamValueView::Number(*n),
            ParamValue::Float(bits) => ParamValueView::Float(*bits),
            ParamValue::List(list) => ParamValueView::List(list.deep_view()),
            ParamValue::Mapping(map) => ParamValueView::Mapping(map.deep_view()),
            ParamValue::KeyValueList(list) => ParamValueView::KeyValueList(list.deep_view()),
            ParamValue::S3CopyList(list) => ParamValueView::S3CopyList(list.deep_view()),
        }
    }
}

/// Copy a map of strings.
pub fn clone_strings_map(map: &StringMap<String>) -> (copy: StringMap<String>)
    ensures
        copy.deep_view() == map.deep_view(),
{
    let copy = map.clone();
    proof {
        lemma_same_deep_view(copy, *map);
    }
    copy
}

impl Clone for ParamValue {
    fn clone(&self) -> (copy: Self)
        ensures
            copy.deep_view() == self.deep_view(),
    {
        let copy = match self {
            ParamValue::Bool(b) => ParamValue::Bool(*b),
            ParamValue::String(s) => ParamValue::String(s.clone()),
            ParamValue::Number(n) => ParamValue::Number(*n),
            ParamValue::Float(bits) => ParamValue::Float(*bits),
            ParamValue::List(list) => ParamValue::List(list.clone()),
            ParamValue::Mapping(map) => ParamValue::Mapping(clone_strings_map(map)),
            ParamValue::KeyValueList(list) => ParamValue::KeyValueList(list.clone()),
            ParamValue::S3CopyList(list) => ParamValue::S3CopyList(list.clone()),
        };
        assert(copy.deep_view() =~~= self.deep_view());
        copy
    }
}

/// A parameter that holds the given text.
pub fn text_param(value: &str) -> (param: ParamValue)
    ensures
        param.deep_view() == ParamValueView::String(value@),
{
    ParamValue::String(value.to_owned())
}

/// The variables that are handed to a function.
pub type Vars = StringMap<ParamValue>;

/// What [`Vars`] hold.
pub type VarsView = Map<Seq<char>, ParamValueView>;

/// No variables.
pub fn new_vars() -> (vars: Vars)
    ensures
        vars.deep_view() == VarsView::empty(),
{
    let vars: Vars = StringMap::new();
    assert(vars.deep_view() =~= VarsView::empty());
    vars
}

/// Give a variable a value.
pub fn set_var(vars: &mut Vars, name: &str, value: ParamValue)
    ensures
        final(vars).deep_view() == old(vars).deep_view().insert(name@, value.deep_view()),
{
    let ghost before = vars.deep_view();
    vars.insert(name.to_owned(), value);
    assert(vars.deep_view() =~= before.insert(name@, value.deep_view()));
}

/// Copy the variables that are handed to a function.
pub fn clone_vars(vars: &Vars) -> (copy: Vars)
    ensures
        copy.deep_view() == vars.deep_view(),
{
    let copy = vars.clone();
    proof {
        lemma_same_deep_view(copy, *vars);
    }
    copy
}

/// Copy the variables that are handed to a function, if there are any.
pub fn clone_optional_vars(vars: &Option<Vars>) -> (copy: Option<Vars>)
    ensures
        copy.deep_view() == vars.deep_view(),
{
    match vars {
        Some(vars) => Some(clone_vars(vars)),
        None => None,
    }
}

/// Call of a function of the project.
#[derive(Debug, PartialEq)]
pub struct FunctionCall {
    /// Name of the function.
    pub func: String,
    /// Variables handed to the function.
    pub vars: Option<Vars>,
    /// How long the call can run (in seconds).
    pub timeout_secs: Option<u64>,
}

/// What a [`FunctionCall`] holds.
pub struct FunctionCallView {
    pub func: Seq<char>,
    pub vars: Option<VarsView>,
    pub timeout_secs: Option<u64>,
}

impl DeepView for FunctionCall {
    type V = FunctionCallView;

    open spec fn deep_view(&self) -> FunctionCallView {
        FunctionCallView {
            func: self.func@,
            vars: self.vars.deep_view(),
            timeout_secs: self.timeout_secs,
        }
    }
}

impl Clone for FunctionCall {
    fn clone(&self) -> (copy: Self)
        ensures
            copy.deep_view() == self.deep_view(),
    {
        let vars = clone_optional_vars(&self.vars);
        FunctionCall {
            func: self.func.clone(),
            vars,
            timeout_secs: self.timeout_secs,
        }
    }
}

/// A command of a task.
#[derive(Debug, PartialEq)]
pub enum EvgCommand {
    /// Call of a function of the project.
    Function(FunctionCall),
    /// A command that is built into Evergreen. What it does plays no part in task generation.
    BuiltIn,
}

/// What an [`EvgCommand`] holds.
pub enum EvgCommandView {
    Function(FunctionCallView),
    BuiltIn,
}

impl DeepView for EvgCommand {
    type V = EvgCommandView;

    open spec fn deep_view(&self) -> EvgCommandView {
        match self {
            EvgCommand::Function(call) => EvgCommandView::Function(call.deep_view()),
            EvgCommand::BuiltIn => EvgCommandView::BuiltIn,
        }
    }
}

impl Clone for EvgCommand {
    fn clone(&self) -> (copy: Self)
        ensures
            copy.deep_view() == self.deep_view(),
    {
        match self {
            EvgCommand::Function(call) => EvgCommand::Function(call.clone()),
            EvgCommand::BuiltIn => EvgCommand::BuiltIn,
        }
    }
}

/// A call of the named function without variables.
pub open spec fn call_of(name: Seq<char>) -> EvgCommandView {
    EvgCommandView::Function(FunctionCallView { func: name, vars: None, timeout_secs: None })
}

/// A call of the named function with variables.
pub open spec fn call_with(name: Seq<char>, vars: VarsView) -> EvgCommandView {
    EvgCommandView::Function(
        FunctionCallView { func: name, vars: Some(vars), timeout_secs: None },
    )
}

/// Call the named function without variables.
pub fn fn_call(name: &str) -> (command: EvgCommand)
    ensures
        command.deep_view() == call_of(name@),
{
    EvgCommand::Function(FunctionCall { func: name.to_owned(), vars: None, timeout_secs: None })
}

/// Append a command to a list.
pub fn push_command(commands: &mut Vec<EvgCommand>, command: EvgCommand)
    ensures
        final(commands).deep_view() == old(commands).deep_view().push(command.deep_view()),
{
    let ghost before = commands.deep_view();
    commands.push(command);
    assert(commands.deep_view() =~= before.push(command.deep_view()));
}

/// Call the named function with variables.
pub fn fn_call_with_params(name: &str, vars: Vars) -> (command: EvgCommand)
    ensures
        command.deep_view() == call_with(name@, vars.deep_view()),
{
    EvgCommand::Function(
        FunctionCall { func: name.to_owned(), vars: Some(vars), timeout_secs: None },
    )
}

/// Definition of an Evergreen task.
#[derive(Debug, PartialEq)]
pub struct EvgTask {
    /// Name of task being defined.
    pub name: String,
    /// List of command that make up the task.
    pub commands: Option<Vec<EvgCommand>>,
    /// List of other tasks that need to be completed before this is done.
    pub depends_on: Option<Vec<TaskDependency>>,
    /// How long the task can run before timing out (in seconds).
    pub exec_timeout_secs: Option<u64>,
    /// List of tags describing the task.
    pub tags: Option<Vec<String>>,
    /// Describe if this patch should be runnable in patch builds.
    pub patchable: Option<bool>,
    /// Describe if previously skipped versions of the task should be run on failure.
    pub stepback: Option<bool>,
}

/// What a [`EvgTask`] holds.
pub struct EvgTaskView {
    pub name: Seq<char>,
    pub commands: Option<Seq<EvgCommandView>>,
    pub depends_on: Option<Seq<TaskDependencyView>>,
    pub exec_timeout_secs: Option<u64>,
    pub tags: Option<Seq<Seq<char>>>,
    pub patchable: Option<bool>,
    pub stepback: Option<bool>,
}

impl DeepView for EvgTask {
    type V = EvgTaskView;

    open spec fn deep_view(&self) -> EvgTaskView {
        EvgTaskView {
            name: self.name@,
            commands: self.commands.deep_view(),
            depends_on: self.depends_on.deep_view(),
            exec_timeout_secs: self.exec_timeout_secs,
            tags: self.tags.deep_view(),
            patchable: self.patchable,
            stepback: self.stepback,
        }
    }
}

impl Clone for EvgTask {
    fn clone(&self) -> (copy: Self)
        ensures
            copy.deep_view() == self.deep_view(),
    {
        let commands = self.commands.clone();
        assert(commands.deep_view() =~~= self.commands.deep_view());
        let depends_on = self.depends_on.clone();
        assert(depends_on.deep_view() =~~= self.depends_on.deep_view());
        let tags = self.tags.clone();
        assert(tags.deep_view() =~~= self.tags.deep_view());
        EvgTask {
            name: self.name.clone(),
            commands,
            depends_on,
            exec_timeout_secs: self.exec_timeout_secs,
            tags,
            patchable: self.patchable,
            stepback: self.stepback,
        }
    }
}

/// A task without a name, commands or settings.
pub open spec fn empty_task() -> EvgTaskView {
    EvgTaskView {
        name: Seq::empty(),
        commands: Some(Seq::empty()),
        depends_on: None,
        exec_timeout_secs: None,
        tags: None,
        patchable: None,
        stepback: None,
    }
}

impl Default for EvgTask {
    fn default() -> (task: Self)
        ensures
            task.deep_view() == empty_task(),
    {
        let commands: Vec<EvgCommand> = Vec::new();
        assert(commands.deep_view() =~= Seq::<EvgCommandView>::empty());
        EvgTask {
            name: String::new(),
            commands: Some(commands),
            depends_on: None,
            exec_timeout_secs: None,
            tags: None,
            patchable: None,
            stepback: None,
        }
    }
}

impl EvgTask {
    /// Get a reference of the task to add to a build variant.
    pub fn get_reference(&self, distros: Option<Vec<String>>, activate: Option<bool>) -> (task_ref:
        TaskRef)
        ensures
            task_ref.deep_view() == (TaskRefView {
                name: self.name@,
                depends_on: None,
                distros: distros.deep_view(),
                activate,
            }),
    {
        TaskRef { name: self.name.clone(), depends_on: None, distros, activate }
    }
}

/// A task that groups other tasks for display.
#[derive(Debug, PartialEq)]
pub struct DisplayTask {
    /// Name of the group.
    pub name: String,
    /// Names of the tasks in the group.
    pub execution_tasks: Vec<String>,
}

/// What a [`DisplayTask`] holds.
pub struct DisplayTaskView {
    pub name: Seq<char>,
    pub execution_tasks: Seq<Seq<char>>,
}

impl DeepView for DisplayTask {
    type V = DisplayTaskView;

    open spec fn deep_view(&self) -> DisplayTaskView {
        DisplayTaskView {
            name: self.name@,
            execution_tasks: self.execution_tasks.deep_view(),
        }
    }
}

impl Clone for DisplayTask {
    fn clone(&self) -> (copy: Self)
        ensures
            copy.deep_view() == self.deep_view(),
    {
        let execution_tasks = self.execution_tasks.clone();
        assert(execution_tasks.deep_view() =~~= self.execution_tasks.deep_view());
        DisplayTask {
            name: self.name.clone(),
            execution_tasks,
        }
    }
}

/// The expansions of a build variant.
pub type Expansions = StringMap<String>;

/// Copy the expansions of a build variant, if there are any.
pub fn clone_expansions(expansions: &Option<Expansions>) -> (copy: Option<Expansions>)
    ensures
        copy.deep_view() == expansions.deep_view(),
{
    match expansions {
        Some(expansions) => Some(clone_strings_map(expansions)),
        None => None,
    }
}

/// Definition of an Evergreen build variant.
#[derive(Debug, PartialEq)]
pub struct BuildVariant {
    /// Name of build variant.
    pub name: String,
    /// List of tasks to add to build variant.
    pub tasks: Vec<TaskRef>,
    /// Display name of build variant.
    pub display_name: Option<String>,
    /// List of distros tasks run on by default.
    pub run_on: Option<Vec<String>>,
    /// List of display tasks in build variant.
    pub display_tasks: Option<Vec<DisplayTask>>,
    /// How frequently tasks should be run.
    pub batchtime: Option<u64>,
    /// Map of expansions that should be passed to tasks at runtime.
    pub expansions: Option<Expansions>,
    /// Should failed tasks be run on skipped versions to find their source.
    pub stepback: Option<bool>,
    /// List of modules that tasks of this build variant use.
    pub modules: Option<Vec<String>>,
    /// List of task dependencies shared by all tasks for this variant.
    pub depends_on: Option<Vec<TaskDependency>>,
    /// Should created tasks for this build variant be scheduled.
    pub activate: Option<bool>,
}

/// What a [`BuildVariant`] holds.
pub struct BuildVariantView {
    pub name: Seq<char>,
    pub tasks: Seq<TaskRefView>,
    pub display_name: Option<Seq<char>>,
    pub run_on: Option<Seq<Seq<char>>>,
    pub display_tasks: Option<Seq<DisplayTaskView>>,
    pub batchtime: Option<u64>,
    pub expansions: Option<Map<Seq<char>, Seq<char>>>,
    pub stepback: Option<bool>,
    pub modules: Option<Seq<Seq<char>>>,
    pub depends_on: Option<Seq<TaskDependencyView>>,
    pub activate: Option<bool>,
}

impl DeepView for BuildVariant {
    type V = BuildVariantView;

    open spec fn deep_view(&self) -> BuildVariantView {
        BuildVariantView {
            name: self.name@,
            tasks: self.tasks.deep_view(),
            display_name: self.display_name.deep_view(),
            run_on: self.run_on.deep_view(),
            display_tasks: self.display_tasks.deep_view(),
            batchtime: self.batchtime,
            expansions: self.expansions.deep_view(),
            stepback: self.stepback,
            modules: self.modules.deep_view(),
            depends_on: self.depends_on.deep_view(),
            activate: self.activate,
        }
    }
}

impl Clone for BuildVariant {
    fn clone(&self) -> (copy: Self)
        ensures
            copy.deep_view() == self.deep_view(),
    {
        let tasks = self.tasks.clone();
        assert(tasks.deep_view() =~~= self.tasks.deep_view());
        let run_on = self.run_on.clone();
        assert(run_on.deep_view() =~~= self.run_on.deep_view());
        let display_tasks = self.display_tasks.clone();
        assert(display_tasks.deep_view() =~~= self.display_tasks.deep_view());
        let expansions = clone_expansions(&self.expansions);
        let modules = self.modules.clone();
        assert(modules.deep_view() =~~= self.modules.deep_view());
        let depends_on = self.depends_on.clone();
        assert(depends_on.deep_view() =~~= self.depends_on.deep_view());
        BuildVariant {
            name: self.name.clone(),
            tasks,
            display_name: self.display_name.clone(),
            run_on,
            display_tasks,
            batchtime: self.batchtime,
            expansions,
            stepback: self.stepback,
            modules,
            depends_on,
            activate: self.activate,
        }
    }
}

/// A build variant without a name, tasks or settings.
pub open spec fn empty_build_variant() -> BuildVariantView {
    BuildVariantView {
        name: Seq::empty(),
        tasks: Seq::empty(),
        display_name: None,
        run_on: None,
        display_tasks: None,
        batchtime: None,
        expansions: None,
        stepback: None,
        modules: None,
        depends_on: None,
        activate: None,
    }
}

impl Default for BuildVariant {
    fn default() -> (variant: Self)
        ensures
            variant.deep_view() == empty_build_variant(),
    {
        let tasks: Vec<TaskRef> = Vec::new();
        assert(tasks.deep_view() =~= Seq::<TaskRefView>::empty());
        BuildVariant {
            name: String::new(),
            tasks,
            display_name: None,
            run_on: None,
            display_tasks: None,
            batchtime: None,
            expansions: None,
            stepback: None,
            modules: None,
            depends_on: None,
            activate: None,
        }
    }
}

/// Description of a module of a project.
#[derive(Debug, PartialEq)]
pub struct EvgModule {
    /// Name of module being defined.
    pub name: String,
    /// Repository that holds the module.
    pub repo: String,
    /// Branch of repository to use.
    pub branch: String,
    /// Path to store module code at.
    pub prefix: String,
}

/// What a [`EvgModule`] holds.
pub struct EvgModuleView {
    pub name: Seq<char>,
    pub repo: Seq<char>,
    pub branch: Seq<char>,
    pub prefix: Seq<char>,
}

impl DeepView for EvgModule {
    type V = EvgModuleView;

    open spec fn deep_view(&self) -> EvgModuleView {
        EvgModuleView {
            name: self.name@,
            repo: self.repo@,
            branch: self.branch@,
            prefix: self.prefix@,
        }
    }
}

impl Clone for EvgModule {
    fn clone(&self) -> (copy: Self)
        ensures
            copy.deep_view() == self.deep_view(),
    {
        EvgModule {
            name: self.name.clone(),
            repo: self.repo.clone(),
            branch: self.branch.clone(),
            prefix: self.prefix.clone(),
        }
    }
}

} // verus!
