//! Command lines for burn_in_tests, and the tasks that it discovers.

use vstd::prelude::*;

use crate::utils::lists::{clone_texts, push_text, split_command};
use crate::utils::text::split_on;

verus! {

/// Task that burn_in discovered should be run.
#[derive(Debug, PartialEq)]
pub struct DiscoveredTask {
    /// Name of task to run.
    pub task_name: String,
    /// List of tests to run as part of task.
    pub test_list: Vec<String>,
}

/// What a [`DiscoveredTask`] holds.
pub struct DiscoveredTaskView {
    pub task_name: Seq<char>,
    pub test_list: Seq<Seq<char>>,
}

impl DeepView for DiscoveredTask {
    type V = DiscoveredTaskView;

    open spec fn deep_view(&self) -> DiscoveredTaskView {
        DiscoveredTaskView { task_name: self.task_name@, test_list: self.test_list.deep_view() }
    }
}

/// List of tasks that should be run as part of burn_in.
#[derive(Debug, PartialEq)]
pub struct DiscoveredTaskList {
    /// List of tasks that should be run as part of burn_in.
    pub discovered_tasks: Vec<DiscoveredTask>,
}

/// How to query information from burn_in_tests.
pub struct BurnInProxy {
    /// Primary command to invoke burn_in_tests (usually `python`).
    pub burn_in_tests_cmd: String,
    /// Script to invoke burn_in_tests.
    pub burn_in_tests_script: Vec<String>,
    /// File containing evergreen project configuration.
    pub evg_project_location: String,
}

impl BurnInProxy {
    /// Create a new `BurnInProxy` instance.
    ///
    /// # Arguments
    ///
    /// * `burn_in_tests_cmd` - Command to invoke resmoke.
    /// * `evg_project_location` - File containing evergreen project configuration.
    pub fn new(burn_in_tests_cmd: &str, evg_project_location: &str) -> (proxy: Self)
        ensures
            proxy.burn_in_tests_cmd@ == split_on(burn_in_tests_cmd@, ' ').first(),
            proxy.burn_in_tests_script.deep_view() == split_on(
                burn_in_tests_cmd@,
                ' ',
            ).drop_first(),
            proxy.evg_project_location@ == evg_project_location@,
    {
        let (command, script) = split_command(burn_in_tests_cmd);
        BurnInProxy {
            burn_in_tests_cmd: command,
            burn_in_tests_script: script,
            evg_project_location: evg_project_location.to_owned(),
        }
    }

    /// The command line that asks for the burn_in of a build variant.
    pub open spec fn discovery(&self, build_variant: Seq<char>) -> Seq<Seq<char>> {
        seq![self.burn_in_tests_cmd@] + self.burn_in_tests_script.deep_view() + seq![
            "--build-variant"@,
            build_variant,
            "--yaml"@,
            "--evg-project-file"@,
            self.evg_project_location@,
        ]
    }

    /// The command line that discovers what tasks/tests should be run as part of burn_in.
    ///
    /// # Arguments
    ///
    /// * `build_variant` - Build variant to query information about.
    pub fn discover_tasks_command(&self, build_variant: &str) -> (command: Vec<String>)
        ensures
            command.deep_view() == self.discovery(build_variant@),
    {
        let mut command: Vec<String> = Vec::new();
        push_text(&mut command, self.burn_in_tests_cmd.as_str());
        let mut script: Vec<String> = clone_texts(&self.burn_in_tests_script);
        let ghost first = command.deep_view();
        let ghost rest = script.deep_view();
        command.append(&mut script);
        assert(command.deep_view() =~= first + rest);
        push_text(&mut command, "--build-variant");
        push_text(&mut command, build_variant);
        push_text(&mut command, "--yaml");
        push_text(&mut command, "--evg-project-file");
        push_text(&mut command, self.evg_project_location.as_str());
        assert(first =~= seq![self.burn_in_tests_cmd@]);
        command
    }
}

} // verus!
