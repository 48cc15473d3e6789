//! The definition of an Evergreen project.

use vstd::prelude::*;

use crate::evergreen::model::{
    BuildVariant, BuildVariantView, EvgModule, EvgModuleView, EvgTask, EvgTaskView,
};
use crate::utils::string_map::{distinct_keys, has_key, key_at, lemma_entry, StringMap};
use crate::utils::text::{ends_with, str_eq};

verus! {

/// How the names of the required build variants end.
pub const REQUIRED_SUFFIX: &'static str = "-required";

/// The parts of an Evergreen project that tasks are generated from.
#[derive(Debug, PartialEq)]
pub struct EvgProject {
    /// List of build variant definitions.
    pub buildvariants: Vec<BuildVariant>,
    /// List of task definitions.
    pub tasks: Vec<EvgTask>,
    /// List of modules used by the project.
    pub modules: Option<Vec<EvgModule>>,
}

/// What an [`EvgProject`] holds.
pub struct EvgProjectView {
    pub buildvariants: Seq<BuildVariantView>,
    pub tasks: Seq<EvgTaskView>,
    pub modules: Option<Seq<EvgModuleView>>,
}

impl DeepView for EvgProject {
    type V = EvgProjectView;

    open spec fn deep_view(&self) -> EvgProjectView {
        EvgProjectView {
            buildvariants: self.buildvariants.deep_view(),
            tasks: self.tasks.deep_view(),
            modules: self.modules.deep_view(),
        }
    }
}

/// Items needed to implement an evergreen configuration service.
pub struct EvgProjectConfig {
    /// Representation of the evg project.
    pub evg_project: EvgProject,
}

/// The build variants by their names. Of several with one name, the last one counts.
pub open spec fn build_variants_by_name(variants: Seq<BuildVariantView>) -> Map<
    Seq<char>,
    BuildVariantView,
>
    decreases variants.len(),
{
    if variants.len() == 0 {
        Map::empty()
    } else {
        build_variants_by_name(variants.drop_last()).insert(variants.last().name, variants.last())
    }
}

/// The tasks by their names. Of several with one name, the last one counts.
pub open spec fn tasks_by_name(tasks: Seq<EvgTaskView>) -> Map<Seq<char>, EvgTaskView>
    decreases tasks.len(),
{
    if tasks.len() == 0 {
        Map::empty()
    } else {
        tasks_by_name(tasks.drop_last()).insert(tasks.last().name, tasks.last())
    }
}

/// The name is that of a required build variant.
pub open spec fn is_required(name: Seq<char>) -> bool {
    REQUIRED_SUFFIX@.is_suffix_of(name)
}

/// The list holds each of the names once, the required build variants at the start.
pub open spec fn lists_required_first(names: Set<Seq<char>>, list: Seq<Seq<char>>) -> bool {
    &&& list.no_duplicates()
    &&& list.to_set() == names
    &&& forall|i: int, j: int|
        0 <= i < j < list.len() && is_required(#[trigger] list[j]) ==> is_required(
            #[trigger] list[i],
        )
}

/// The directory of the first module of that name.
pub open spec fn module_dir(modules: Seq<EvgModuleView>, name: Seq<char>) -> Option<Seq<char>>
    decreases modules.len(),
{
    if modules.len() == 0 {
        None
    } else if modules.first().name == name {
        Some(modules.first().prefix + "/"@ + name)
    } else {
        module_dir(modules.drop_first(), name)
    }
}

impl EvgProjectConfig {
    /// Create a new instance of an evergreen configuration service.
    ///
    /// # Arguments
    ///
    /// * `evg_project` - Evergreen project configuration.
    pub fn new(evg_project: EvgProject) -> (config: Self)
        ensures
            config.evg_project == evg_project,
    {
        EvgProjectConfig { evg_project }
    }

    /// Get a map of build variant names to build variant definitions.
    pub fn get_build_variant_map(&self) -> (map: StringMap<&BuildVariant>)
        ensures
            map.deep_view() == build_variants_by_name(self.evg_project.buildvariants.deep_view()),
    {
        let variants: &Vec<BuildVariant> = &self.evg_project.buildvariants;
        let ghost all = variants.deep_view();
        let mut map: StringMap<&BuildVariant> = StringMap::new();
        let mut i: usize = 0;
        assert(map.deep_view() =~= build_variants_by_name(all.take(0)));
        while i < variants.len()
            invariant
                i <= variants@.len(),
                all == variants.deep_view(),
                map.deep_view() == build_variants_by_name(all.take(i as int)),
            decreases variants@.len() - i,
        {
            assert(all.take(i + 1).drop_last() =~= all.take(i as int));
            assert(all[i as int] == variants[i as int].deep_view());
            let ghost before = map.deep_view();
            map.insert(variants[i].name.clone(), &variants[i]);
            assert(map.deep_view() =~= before.insert(all[i as int].name, all[i as int]));
            i += 1;
        }
        assert(all.take(i as int) =~= all);
        map
    }

    /// Get a map of task name to task definitions.
    pub fn get_task_def_map(&self) -> (map: StringMap<EvgTask>)
        ensures
            map.deep_view() == tasks_by_name(self.evg_project.tasks.deep_view()),
    {
        let tasks: &Vec<EvgTask> = &self.evg_project.tasks;
        let ghost all = tasks.deep_view();
        let mut map: StringMap<EvgTask> = StringMap::new();
        let mut i: usize = 0;
        assert(map.deep_view() =~= tasks_by_name(all.take(0)));
        while i < tasks.len()
            invariant
                i <= tasks@.len(),
                all == tasks.deep_view(),
                map.deep_view() == tasks_by_name(all.take(i as int)),
            decreases tasks@.len() - i,
        {
            assert(all.take(i + 1).drop_last() =~= all.take(i as int));
            assert(all[i as int] == tasks[i as int].deep_view());
            let ghost before = map.deep_view();
            map.insert(tasks[i].name.clone(), tasks[i].clone());
            assert(map.deep_view() =~= before.insert(all[i as int].name, all[i as int]));
            i += 1;
        }
        assert(all.take(i as int) =~= all);
        map
    }

    /// Get a list of build variants with the required build variants at the start.
    pub fn sort_build_variants_by_required(&self) -> (names: Vec<String>)
        ensures
            lists_required_first(
                build_variants_by_name(self.evg_project.buildvariants.deep_view()).dom(),
                names.deep_view(),
            ),
    {
        let map = self.get_build_variant_map();
        let mut names: Vec<String> = keys_where(&map, true);
        let mut others: Vec<String> = keys_where(&map, false);
        let ghost first = names.deep_view();
        let ghost second = others.deep_view();
        names.append(&mut others);
        proof {
            let list = names.deep_view();
            assert(list =~= first + second);
            assert forall|i: int, j: int| 0 <= i < j < list.len() implies #[trigger] list[i]
                != #[trigger] list[j] by {
                if i < first.len() {
                    assert(first.contains(list[i]));
                    if j < first.len() {
                        assert(first[i] == list[i] && first[j] == list[j]);
                    } else {
                        assert(second[j - first.len()] == list[j]);
                        assert(second.contains(list[j]));
                    }
                } else {
                    assert(second[i - first.len()] == list[i]);
                    assert(second[j - first.len()] == list[j]);
                }
            }
            assert forall|name: Seq<char>| #[trigger] list.to_set().contains(name)
                <==> map.deep_view().dom().contains(name) by {
                if list.contains(name) {
                    let i = list.index_of(name);
                    if i < first.len() {
                        assert(first[i] == name && first.contains(name));
                    } else {
                        assert(second[i - first.len()] == name);
                        assert(second.contains(name));
                    }
                }
                if map.deep_view().contains_key(name) {
                    if is_required(name) {
                        assert(first.contains(name));
                        assert(list[first.index_of(name)] == name);
                    } else {
                        assert(second.contains(name));
                        assert(list[first.len() + second.index_of(name)] == name);
                    }
                }
            }
            assert(list.to_set() =~= map.deep_view().dom());
            assert forall|i: int, j: int|
                0 <= i < j < list.len() && is_required(#[trigger] list[j]) implies is_required(
                #[trigger] list[i],
            ) by {
                if j >= first.len() {
                    assert(second[j - first.len()] == list[j]);
                    assert(second.contains(list[j]));
                }
                assert(first[i] == list[i]);
                assert(first.contains(list[i]));
            }
        }
        names
    }

    /// Get the directory of the given module.
    ///
    /// # Arguments
    ///
    /// * `module_name` - Name of module to query.
    pub fn get_module_dir(&self, module_name: &str) -> (dir: Option<String>)
        ensures
            dir.deep_view() == (match self.evg_project.modules {
                Some(modules) => module_dir(modules.deep_view(), module_name@),
                None => None,
            }),
    {
        if let Some(modules) = &self.evg_project.modules {
            let ghost all = modules.deep_view();
            let mut i: usize = 0;
            assert(all.skip(0) =~= all);
            while i < modules.len()
                invariant
                    i <= modules@.len(),
                    all == modules.deep_view(),
                    self.evg_project.modules == Some(*modules),
                    module_dir(all, module_name@) == module_dir(all.skip(i as int), module_name@),
                decreases modules@.len() - i,
            {
                assert(all.skip(i as int).first() == modules[i as int].deep_view());
                assert(all.skip(i as int).drop_first() =~= all.skip(i + 1));
                if str_eq(modules[i].name.as_str(), module_name) {
                    let mut dir: String = modules[i].prefix.clone();
                    dir.append("/");
                    dir.append(module_name);
                    return Some(dir);
                }
                i += 1;
            }
        }
        None
    }
}

/// The names of the build variants that are required, or of those that are not.
fn keys_where(map: &StringMap<&BuildVariant>, required: bool) -> (keys: Vec<String>)
    ensures
        keys.deep_view().no_duplicates(),
        forall|key: Seq<char>| #[trigger]
            keys.deep_view().contains(key) <==> map.deep_view().contains_key(key) && is_required(
                key,
            ) == required,
{
    let mut keys: Vec<String> = Vec::new();
    let n: usize = map.len();
    let ghost entries = map.entries();
    let mut i: usize = 0;
    while i < n
        invariant
            i <= n,
            n == entries.len(),
            entries == map.entries(),
            distinct_keys(entries),
            keys.deep_view().no_duplicates(),
            forall|key: Seq<char>| #[trigger]
                keys.deep_view().contains(key) <==> is_required(key) == required && exists|j: int|
                    0 <= j < i && #[trigger] key_at(entries, j, key),
        decreases n - i,
    {
        let ghost before = keys.deep_view();
        let ghost name = entries[i as int].0@;
        assert(key_at(entries, i as int, name));
        if ends_with(map.key(i).as_str(), REQUIRED_SUFFIX) == required {
            keys.push(map.key(i).clone());
            proof {
                assert(keys.deep_view() =~= before.push(name));
                if before.contains(name) {
                    let j = choose|j: int| 0 <= j < i && #[trigger] key_at(entries, j, name);
                    assert(entries[j].0@ == entries[i as int].0@);
                }
                assert(keys.deep_view()[before.len() as int] == name);
                assert forall|key: Seq<char>| #[trigger]
                    keys.deep_view().contains(key) <==> before.contains(key) || key == name by {
                    if before.contains(key) {
                        assert(keys.deep_view()[before.index_of(key)] == key);
                    }
                }
            }
        }
        proof {
            assert forall|key: Seq<char>| #[trigger]
                keys.deep_view().contains(key) <==> is_required(key) == required && exists|j: int|
                0 <= j < i + 1 && #[trigger] key_at(entries, j, key) by {
                if is_required(key) == required && exists|j: int|
                    0 <= j < i + 1 && #[trigger] key_at(entries, j, key) {
                    let j = choose|j: int| 0 <= j < i + 1 && #[trigger] key_at(entries, j, key);
                    if j == i {
                        assert(key == name);
                    } else {
                        assert(before.contains(key));
                    }
                }
            }
        }
        i += 1;
    }
    proof {
        assert forall|key: Seq<char>| #[trigger]
            keys.deep_view().contains(key) <==> map.deep_view().contains_key(key) && is_required(
                key,
            ) == required by {
            if keys.deep_view().contains(key) {
                let j = choose|j: int| 0 <= j < n && #[trigger] key_at(entries, j, key);
                lemma_entry(entries, j);
            }
            if map.deep_view().contains_key(key) {
                assert(has_key(entries, key));
            }
        }
    }
    keys
}

} // verus!
