//! Reading the definition of an Evergreen project.

use shrub_rs::models::commands::EvgCommand as ShrubCommand;
use shrub_rs::models::params::{ParamValue as ShrubParam, S3CopyFile as ShrubCopyFile};
use shrub_rs::models::project::EvgProject as ShrubProject;
use shrub_rs::models::task::{
    EvgTask as ShrubTask, TaskDependency as ShrubDependency, TaskRef as ShrubTaskRef,
};
use shrub_rs::models::variant::{BuildVariant as ShrubVariant, DisplayTask as ShrubDisplayTask};
use vstd::prelude::*;
use yaml_rust::ScanError;

use crate::evergreen::evg_config::{EvgProject, EvgProjectConfig, EvgProjectView};
use crate::evergreen::model::{
    BuildVariant, DisplayTask, EvgCommand, EvgModule, EvgTask, FunctionCall, KeyValueParam,
    ParamValue, S3CopyFile, S3Location, TaskDependency, TaskRef,
};
use crate::utils::string_map::StringMap;
use crate::utils::yaml_events::{check_loading, is_loadable, is_too_heavy, yaml_events, Loading};

verus! {

/// A dependency as shrub reads it, which is only converted.
#[verifier::external_type_specification]
#[verifier::external_body]
pub struct ExShrubDependency(ShrubDependency);

/// A reference to a task as shrub reads it, which is only converted.
#[verifier::external_type_specification]
#[verifier::external_body]
pub struct ExShrubTaskRef(ShrubTaskRef);

/// A display task as shrub reads it, which is only converted.
#[verifier::external_type_specification]
#[verifier::external_body]
pub struct ExShrubDisplayTask(ShrubDisplayTask);

/// A build variant as shrub reads it, which is only converted.
#[verifier::external_type_specification]
#[verifier::external_body]
pub struct ExShrubVariant(ShrubVariant);

/// The copying of a file as shrub reads it, which is only converted.
#[verifier::external_type_specification]
#[verifier::external_body]
pub struct ExShrubCopyFile(ShrubCopyFile);

/// A parameter as shrub reads it, which is only converted.
#[verifier::external_type_specification]
#[verifier::external_body]
pub struct ExShrubParam(ShrubParam);

/// A command as shrub reads it, which is only converted.
#[verifier::external_type_specification]
#[verifier::external_body]
pub struct ExShrubCommand(ShrubCommand);

/// A task as shrub reads it, which is only converted.
#[verifier::external_type_specification]
#[verifier::external_body]
pub struct ExShrubTask(ShrubTask);

/// Converts each `shrub_rs::models::task::TaskDependency` of a list one for one. Nothing is claimed
/// of it by itself: [`parse_project`] names what comes out.
#[verifier::external_body]
fn to_dependencies(list: Vec<ShrubDependency>) -> (converted: Vec<TaskDependency>) {
    list.into_iter().map(|d| TaskDependency { name: d.name, variant: d.variant }).collect()
}

/// Converts a `shrub_rs::models::task::TaskRef` one for one. Nothing is claimed of it by itself:
/// [`parse_project`] names what comes out.
#[verifier::external_body]
fn to_task_ref(task_ref: ShrubTaskRef) -> (converted: TaskRef) {
    TaskRef {
        name: task_ref.name,
        depends_on: task_ref.depends_on.map(to_dependencies),
        distros: task_ref.distros,
        activate: task_ref.activate,
    }
}

/// Converts each `shrub_rs::models::variant::DisplayTask` of a list one for one. Nothing is claimed of
/// it by itself: [`parse_project`] names what comes out.
#[verifier::external_body]
fn to_display_tasks(list: Vec<ShrubDisplayTask>) -> (converted: Vec<DisplayTask>) {
    list.into_iter()
        .map(|t| DisplayTask { name: t.name, execution_tasks: t.execution_tasks })
        .collect()
}

/// Converts a `shrub_rs::models::variant::BuildVariant` one for one. Nothing is claimed of it by
/// itself: [`parse_project`] names what comes out.
#[verifier::external_body]
fn to_variant(variant: ShrubVariant) -> (converted: BuildVariant) {
    BuildVariant {
        name: variant.name,
        tasks: variant.tasks.into_iter().map(to_task_ref).collect(),
        display_name: variant.display_name,
        run_on: variant.run_on,
        display_tasks: variant.display_tasks.map(to_display_tasks),
        batchtime: variant.batchtime,
        expansions: variant.expansions.map(|e| StringMap::collect(e.into_iter().collect())),
        stepback: variant.stepback,
        modules: variant.modules,
        depends_on: variant.depends_on.map(to_dependencies),
        activate: variant.activate,
    }
}

/// Converts a `shrub_rs::models::params::S3CopyFile` one for one. Nothing is claimed of it by itself:
/// [`parse_project`] names what comes out.
#[verifier::external_body]
fn to_copy_file(file: ShrubCopyFile) -> (converted: S3CopyFile) {
    S3CopyFile {
        source: S3Location { bucket: file.source.bucket, path: file.source.path },
        destination: S3Location { bucket: file.destination.bucket, path: file.destination.path },
        display_name: file.display_name,
        build_variants: file.build_variants,
        optional: file.optional,
    }
}

/// Converts a `shrub_rs::models::params::ParamValue` one for one, a floating point number to its bits.
/// Nothing is claimed of it by itself: [`parse_project`] names what comes out.
#[verifier::external_body]
fn to_param(value: ShrubParam) -> (converted: ParamValue) {
    match value {
        ShrubParam::Bool(value) => ParamValue::Bool(value),
        ShrubParam::String(value) => ParamValue::String(value),
        ShrubParam::Number(value) => ParamValue::Number(value),
        ShrubParam::Float(value) => ParamValue::Float(value.to_bits()),
        ShrubParam::List(list) => ParamValue::List(list),
        ShrubParam::Map(map) => ParamValue::Mapping(StringMap::collect(map.into_iter().collect())),
        ShrubParam::KeyValueList(list) => ParamValue::KeyValueList(
            list.into_iter().map(|p| KeyValueParam { key: p.key, value: p.value }).collect(),
        ),
        ShrubParam::S3CopyList(list) => ParamValue::S3CopyList(
            list.into_iter().map(to_copy_file).collect(),
        ),
    }
}

/// Converts a `shrub_rs::models::commands::EvgCommand`: a call of a function one for one, and a
/// command that is built into Evergreen without what it does. Nothing is claimed of it by itself:
/// [`parse_project`] names what comes out.
#[verifier::external_body]
fn to_command(command: ShrubCommand) -> (converted: EvgCommand) {
    match command {
        ShrubCommand::Function(call) => EvgCommand::Function(FunctionCall {
            func: call.func,
            vars: call.vars.map(|vars| StringMap::collect(
                vars.into_iter().map(|var| (var.0, to_param(var.1))).collect(),
            )),
            timeout_secs: call.timeout_secs,
        }),
        ShrubCommand::BuiltIn(_) => EvgCommand::BuiltIn,
    }
}

/// Converts a `shrub_rs::models::task::EvgTask` one for one. Nothing is claimed of it by itself:
/// [`parse_project`] names what comes out.
#[verifier::external_body]
fn to_task(task: ShrubTask) -> (converted: EvgTask) {
    EvgTask {
        name: task.name,
        commands: task.commands.map(|list| list.into_iter().map(to_command).collect()),
        depends_on: task.depends_on.map(to_dependencies),
        exec_timeout_secs: task.exec_timeout_secs,
        tags: task.tags,
        patchable: task.patchable,
        stepback: task.stepback,
    }
}

/// The project that a text defines, if it defines one.
pub uninterp spec fn parsed_project(yaml: Seq<char>) -> Option<EvgProjectView>;

/// Calls `shrub_rs::models::project::EvgProject::from_yaml_str` and converts what task generation
/// reads of the project one for one. The contract names the project, and says that there is none to
/// name where the text is refused. Reading calls itself for each level of nodes inside one another,
/// and copies named nodes: texts for which that could exhaust the stack or the memory are left out.
/// Nothing is said of the problem that is reported.
#[verifier::external_body]
fn parse_project(yaml: &str) -> (project: Result<EvgProject, String>)
    requires
        is_loadable(yaml@),
    ensures
        match project {
            Ok(project) => parsed_project(yaml@) == Some(project.deep_view()),
            Err(_) => parsed_project(yaml@) is None,
        },
{
    let project = ShrubProject::from_yaml_str(yaml).map_err(|error| error.to_string())?;
    Ok(EvgProject {
        buildvariants: project.buildvariants.into_iter().map(to_variant).collect(),
        tasks: project.tasks.into_iter().map(to_task).collect(),
        modules: project.modules.map(|list| list.into_iter().map(
            |m| EvgModule { name: m.name, repo: m.repo, branch: m.branch, prefix: m.prefix },
        ).collect()),
    })
}

/// What is wrong with the text of a project.
#[derive(Debug, PartialEq)]
pub enum ProjectError {
    /// The text is too large or too deeply nested to be read.
    TooLarge,
    /// The text is no YAML.
    NotYaml(ScanError),
    /// The text does not define a project, for the given reason.
    NotAProject(String),
}

impl EvgProjectConfig {
    /// Create an instance of an evergreen configuration service from the text of a project.
    ///
    /// # Arguments
    ///
    /// * `yaml` - Evergreen project configuration, as evergreen evaluates it.
    pub fn from_yaml(yaml: &str) -> (config: Result<Self, ProjectError>)
        ensures
            match config {
                Ok(config) => is_loadable(yaml@) && parsed_project(yaml@) == Some(
                    config.evg_project.deep_view(),
                ),
                Err(ProjectError::TooLarge) => is_too_heavy(yaml@),
                Err(ProjectError::NotYaml(_)) => yaml_events(yaml@) is None,
                Err(ProjectError::NotAProject(_)) => is_loadable(yaml@) && parsed_project(
                    yaml@,
                ) is None,
            },
    {
        match check_loading(yaml) {
            Loading::Possible => match parse_project(yaml) {
                Ok(project) => Ok(Self::new(project)),
                Err(problem) => Err(ProjectError::NotAProject(problem)),
            },
            Loading::TooHeavy => Err(ProjectError::TooLarge),
            Loading::NotYaml(error) => Err(ProjectError::NotYaml(error)),
        }
    }
}

} // verus!
