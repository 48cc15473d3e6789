//! Generated tasks, as the parts of a project see them.

use vstd::prelude::*;

use crate::evergreen::model::{
    empty_task, DisplayTask, DisplayTaskView, EvgTask, EvgTaskView, TaskDependency,
    TaskDependencyView, TaskRef, TaskRefView,
};
use crate::evergreen_names::MULTIVERSION_BINARY_SELECTION;
use crate::utils::text::str_eq;

verus! {

/// Definition of a generated sub task.
#[derive(Debug, PartialEq)]
pub struct GeneratedSubTask {
    /// Definition of an Evergreen task.
    pub evg_task: EvgTask,
    /// Whether to run generated task on a large distro.
    pub use_large_distro: bool,
    /// Whether to run generated task on a xlarge distro.
    pub use_xlarge_distro: bool,
}

/// What a [`GeneratedSubTask`] holds.
pub struct GeneratedSubTaskView {
    pub evg_task: EvgTaskView,
    pub use_large_distro: bool,
    pub use_xlarge_distro: bool,
}

impl DeepView for GeneratedSubTask {
    type V = GeneratedSubTaskView;

    open spec fn deep_view(&self) -> GeneratedSubTaskView {
        GeneratedSubTaskView {
            evg_task: self.evg_task.deep_view(),
            use_large_distro: self.use_large_distro,
            use_xlarge_distro: self.use_xlarge_distro,
        }
    }
}

impl Clone for GeneratedSubTask {
    fn clone(&self) -> (copy: Self)
        ensures
            copy.deep_view() == self.deep_view(),
    {
        GeneratedSubTask {
            evg_task: self.evg_task.clone(),
            use_large_distro: self.use_large_distro,
            use_xlarge_distro: self.use_xlarge_distro,
        }
    }
}

impl Default for GeneratedSubTask {
    fn default() -> (sub_task: Self)
        ensures
            sub_task.deep_view() == (GeneratedSubTaskView {
                evg_task: empty_task(),
                use_large_distro: false,
                use_xlarge_distro: false,
            }),
    {
        GeneratedSubTask {
            evg_task: EvgTask::default(),
            use_large_distro: false,
            use_xlarge_distro: false,
        }
    }
}

/// What a generated task consists of.
pub struct SuiteView {
    pub display_name: Seq<char>,
    pub sub_tasks: Seq<GeneratedSubTaskView>,
}

/// Some sub task asks for a large distro.
pub open spec fn any_large(sub_tasks: Seq<GeneratedSubTaskView>) -> bool {
    exists|i: int| 0 <= i < sub_tasks.len() && (#[trigger] sub_tasks[i]).use_large_distro
}

/// Some sub task asks for a xlarge distro.
pub open spec fn any_xlarge(sub_tasks: Seq<GeneratedSubTaskView>) -> bool {
    exists|i: int| 0 <= i < sub_tasks.len() && (#[trigger] sub_tasks[i]).use_xlarge_distro
}

/// The task depends on the selection of multiversion binaries.
pub open spec fn needs_multiversion_binaries(task: EvgTaskView) -> bool {
    task.depends_on matches Some(dependencies) && exists|i: int|
        0 <= i < dependencies.len() && (#[trigger] dependencies[i]).name
            == MULTIVERSION_BINARY_SELECTION@
}

/// Some sub task depends on the selection of multiversion binaries.
pub open spec fn any_multiversion(sub_tasks: Seq<GeneratedSubTaskView>) -> bool {
    exists|i: int|
        0 <= i < sub_tasks.len() && needs_multiversion_binaries((#[trigger] sub_tasks[i]).evg_task)
}

/// The display task that groups the sub tasks.
pub open spec fn display_task_of(suite: SuiteView) -> DisplayTaskView {
    DisplayTaskView {
        name: suite.display_name,
        execution_tasks: suite.sub_tasks.map_values(|s: GeneratedSubTaskView| s.evg_task.name),
    }
}

/// The reference to a sub task.
pub open spec fn task_ref_of(
    sub_task: GeneratedSubTaskView,
    distro: Option<Seq<char>>,
    depends_on: Option<Seq<TaskDependencyView>>,
) -> TaskRefView {
    TaskRefView {
        name: sub_task.evg_task.name,
        depends_on,
        distros: match distro {
            Some(distro) => if sub_task.use_large_distro || sub_task.use_xlarge_distro {
                Some(seq![distro])
            } else {
                None
            },
            None => None,
        },
        activate: Some(false),
    }
}

/// The references to all the sub tasks.
pub open spec fn task_refs_of(
    suite: SuiteView,
    distro: Option<Seq<char>>,
    depends_on: Option<Seq<TaskDependencyView>>,
) -> Seq<TaskRefView> {
    suite.sub_tasks.map_values(|s: GeneratedSubTaskView| task_ref_of(s, distro, depends_on))
}

/// Is one of the dependencies the selection of multiversion binaries?
fn depends_on_binaries(dependencies: &Vec<TaskDependency>) -> (found: bool)
    ensures
        found == exists|i: int|
            0 <= i < dependencies.deep_view().len() && (#[trigger] dependencies.deep_view()[i]).name
                == MULTIVERSION_BINARY_SELECTION@,
{
    let mut i: usize = 0;
    while i < dependencies.len()
        invariant
            i <= dependencies@.len(),
            forall|j: int|
                0 <= j < i ==> (#[trigger] dependencies.deep_view()[j]).name
                    != MULTIVERSION_BINARY_SELECTION@,
        decreases dependencies@.len() - i,
    {
        if str_eq(dependencies[i].name.as_str(), MULTIVERSION_BINARY_SELECTION) {
            assert(dependencies.deep_view()[i as int].name == MULTIVERSION_BINARY_SELECTION@);
            return true;
        }
        i += 1;
    }
    false
}

/// Interface for representing a generated task.
pub trait GeneratedSuite {
    /// What the generated task consists of.
    spec fn suite(&self) -> SuiteView;

    /// Get the display name to use for the generated task.
    fn display_name(&self) -> (name: String)
        ensures
            name@ == self.suite().display_name,
    ;

    /// Get the list of sub-tasks that comprise the generated task.
    fn sub_tasks(&self) -> (sub_tasks: Vec<GeneratedSubTask>)
        ensures
            sub_tasks.deep_view() == self.suite().sub_tasks,
    ;

    /// Check whether any sub task requires large distro.
    fn use_large_distro(&self) -> (large: bool)
        ensures
            large == any_large(self.suite().sub_tasks),
    {
        let sub_tasks = self.sub_tasks();
        let mut i: usize = 0;
        while i < sub_tasks.len()
            invariant
                i <= sub_tasks@.len(),
                sub_tasks.deep_view() == self.suite().sub_tasks,
                forall|j: int|
                    0 <= j < i ==> !(#[trigger] self.suite().sub_tasks[j]).use_large_distro,
            decreases sub_tasks@.len() - i,
        {
            if sub_tasks[i].use_large_distro {
                assert(self.suite().sub_tasks[i as int].use_large_distro);
                return true;
            }
            i += 1;
        }
        false
    }

    /// Check whether any sub task requires xlarge distro.
    fn use_xlarge_distro(&self) -> (xlarge: bool)
        ensures
            xlarge == any_xlarge(self.suite().sub_tasks),
    {
        let sub_tasks = self.sub_tasks();
        let mut i: usize = 0;
        while i < sub_tasks.len()
            invariant
                i <= sub_tasks@.len(),
                sub_tasks.deep_view() == self.suite().sub_tasks,
                forall|j: int|
                    0 <= j < i ==> !(#[trigger] self.suite().sub_tasks[j]).use_xlarge_distro,
            decreases sub_tasks@.len() - i,
        {
            if sub_tasks[i].use_xlarge_distro {
                assert(self.suite().sub_tasks[i as int].use_xlarge_distro);
                return true;
            }
            i += 1;
        }
        false
    }

    /// Build a shrub display task for this generated task.
    fn build_display_task(&self) -> (display_task: DisplayTask)
        ensures
            display_task.deep_view() == display_task_of(self.suite()),
    {
        let sub_tasks = self.sub_tasks();
        let mut execution_tasks: Vec<String> = Vec::new();
        let mut i: usize = 0;
        while i < sub_tasks.len()
            invariant
                i <= sub_tasks@.len(),
                execution_tasks@.len() == i,
                forall|j: int|
                    0 <= j < i ==> execution_tasks@[j]@ == sub_tasks@[j].evg_task.name@,
            decreases sub_tasks@.len() - i,
        {
            execution_tasks.push(sub_tasks[i].evg_task.name.clone());
            i += 1;
        }
        proof {
            assert forall|j: int| 0 <= j < sub_tasks@.len() implies execution_tasks.deep_view()[j]
                == display_task_of(self.suite()).execution_tasks[j] by {
                assert(self.suite().sub_tasks[j] == sub_tasks@[j].deep_view());
            }
            assert(execution_tasks.deep_view() =~= display_task_of(self.suite()).execution_tasks);
        }
        DisplayTask { name: self.display_name(), execution_tasks }
    }

    /// Check whether any sub task needs the binaries of other versions.
    fn is_multiversion(&self) -> (multiversion: bool)
        ensures
            multiversion == any_multiversion(self.suite().sub_tasks),
    {
        let sub_tasks = self.sub_tasks();
        let mut i: usize = 0;
        while i < sub_tasks.len()
            invariant
                i <= sub_tasks@.len(),
                sub_tasks.deep_view() == self.suite().sub_tasks,
                forall|j: int|
                    0 <= j < i ==> !needs_multiversion_binaries(
                        (#[trigger] self.suite().sub_tasks[j]).evg_task,
                    ),
            decreases sub_tasks@.len() - i,
        {
            assert(self.suite().sub_tasks[i as int] == sub_tasks@[i as int].deep_view());
            if let Some(dependencies) = &sub_tasks[i].evg_task.depends_on {
                if depends_on_binaries(dependencies) {
                    return true;
                }
            }
            i += 1;
        }
        false
    }

    /// Build a shrub task reference for this generated task.
    ///
    /// # Arguments
    ///
    /// * `distro` - Distro for the sub tasks that ask for a large one.
    /// * `depends_on` - Dependencies to give each of the references.
    fn build_task_ref(&self, distro: Option<String>, depends_on: Option<Vec<TaskDependency>>) -> (refs:
        Vec<TaskRef>)
        ensures
            refs.deep_view() == task_refs_of(
                self.suite(),
                distro.deep_view(),
                depends_on.deep_view(),
            ),
    {
        let sub_tasks = self.sub_tasks();
        let ghost expected = task_refs_of(self.suite(), distro.deep_view(), depends_on.deep_view());
        let mut refs: Vec<TaskRef> = Vec::new();
        let mut i: usize = 0;
        while i < sub_tasks.len()
            invariant
                i <= sub_tasks@.len(),
                sub_tasks.deep_view() == self.suite().sub_tasks,
                expected == task_refs_of(self.suite(), distro.deep_view(), depends_on.deep_view()),
                refs@.len() == i,
                forall|j: int| 0 <= j < i ==> (#[trigger] refs@[j]).deep_view() == expected[j],
            decreases sub_tasks@.len() - i,
        {
            let sub_task: &GeneratedSubTask = &sub_tasks[i];
            assert(self.suite().sub_tasks[i as int] == sub_task.deep_view());
            let mut distros: Option<Vec<String>> = None;
            if sub_task.use_large_distro || sub_task.use_xlarge_distro {
                if let Some(distro) = &distro {
                    let mut list: Vec<String> = Vec::new();
                    list.push(distro.clone());
                    assert(list.deep_view() =~= seq![distro@]);
                    distros = Some(list);
                }
            }
            let mut task_ref: TaskRef = sub_task.evg_task.get_reference(distros, Some(false));
            let dependencies = depends_on.clone();
            assert(dependencies.deep_view() =~~= depends_on.deep_view());
            task_ref.depends_on = dependencies;
            assert(task_ref.deep_view() == expected[i as int]);
            refs.push(task_ref);
            i += 1;
        }
        assert(refs.deep_view() =~= expected);
        refs
    }
}

} // verus!
