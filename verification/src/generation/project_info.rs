//! Information about the Evergreen project being run against.

use vstd::prelude::*;

verus! {

/// Information about the Evergreen project being run against.
#[derive(Debug)]
pub struct ProjectInfo {
    /// Path to the evergreen project configuration yaml.
    pub evg_project_location: String,
    /// Evergreen project being run.
    pub evg_project: String,
    /// Path to the sub-tasks configuration file.
    pub gen_sub_tasks_config_file: Option<String>,
}

impl ProjectInfo {
    /// Create a new ProjectInfo struct.
    ///
    /// # Arguments
    ///
    /// * `evg_project_location` - Path to the evergreen project configuration yaml.
    /// * `evg_project` - Evergreen project being run.
    /// * `gen_sub_tasks_config_file` - Path to the sub-tasks configuration file.
    ///
    /// # Returns
    ///
    /// Instance of ProjectInfo with provided info.
    pub fn new(
        evg_project_location: &str,
        evg_project: &str,
        gen_sub_tasks_config_file: Option<&str>,
    ) -> (info: Self)
        ensures
            info.evg_project_location@ == evg_project_location@,
            info.evg_project@ == evg_project@,
            info.gen_sub_tasks_config_file.deep_view() == gen_sub_tasks_config_file.deep_view(),
    {
        ProjectInfo {
            evg_project_location: evg_project_location.to_owned(),
            evg_project: evg_project.to_owned(),
            gen_sub_tasks_config_file: match gen_sub_tasks_config_file {
                Some(file) => Some(file.to_owned()),
                None => None,
            },
        }
    }
}

} // verus!
