//! What holds of the configuration files of sub-suites, and of the tags that these leave out.

use vstd::prelude::*;

use crate::evergreen::model::TaskDependencyView;
use crate::resmoke::resmoke_suite::{
    reselected, ResmokeSelectorView, ResmokeSuiteConfigView, TestRootView,
};
use crate::task_types::fuzzer_tasks::FuzzerTask;
use crate::task_types::generated_suite::{
    any_large, any_multiversion, any_xlarge, display_task_of, needs_multiversion_binaries,
    task_refs_of, GeneratedSuite, SuiteView,
};
use crate::task_types::multiversion::{MultiversionService, MultiversionServiceImpl};
use crate::task_types::resmoke_config_writer::{
    positions_of, suite_file_config, suite_file_name, write_order, SuiteFileWriter,
    WriterActionView,
};
use crate::task_types::resmoke_tasks::{GeneratedResmokeSuite, SubSuiteView};
use crate::utils::number_laws::{is_numbered_name, law_sub_task_names_hold_their_index};
use crate::utils::text::joined;

verus! {

/// The tests that a multiversion sub-suite leaves out are those that are incompatible, those that
/// need a backport, those that need one for the task, and those that need the newest version. What
/// counts as such depends on the old version where it has tags of its own.
pub proof fn law_multiversion_tests_are_left_out_by_tag(
    service: MultiversionServiceImpl,
    task_name: Seq<char>,
)
    ensures
        ({
            let head = "multiversion_incompatible,backport_required_multiversion,"@ + task_name
                + "_backport_required_multiversion,"@;
            let config = service.multiversion_config;
            &&& service.exclude_tags(task_name, None) == head + config.requires_fcv_tag@
            &&& service.exclude_tags(task_name, Some("last_lts"@)) == head + (
            match config.requires_fcv_tag_lts {
                Some(tags) => tags@,
                None => config.requires_fcv_tag@,
            })
            &&& service.exclude_tags(task_name, Some("last_continuous"@)) == head + (
            match config.requires_fcv_tag_continuous {
                Some(tags) => tags@,
                None => config.requires_fcv_tag@,
            })
        }),
{
    reveal_strlit(",");
    reveal_strlit("_");
    reveal_strlit("multiversion_incompatible");
    reveal_strlit("backport_required_multiversion");
    reveal_strlit("multiversion_incompatible,backport_required_multiversion,");
    reveal_strlit("_backport_required_multiversion,");
    reveal_strlit("last_lts");
    reveal_strlit("last_continuous");
    assert("last_lts"@.len() != "last_continuous"@.len());
    assert("multiversion_incompatible"@ + ","@ + "backport_required_multiversion"@ + ","@
        =~= "multiversion_incompatible,backport_required_multiversion,"@);
    assert("_"@ + "backport_required_multiversion"@ + ","@
        =~= "_backport_required_multiversion,"@);
    lemma_exclude_tags(service, task_name, None);
    lemma_exclude_tags(service, task_name, Some("last_lts"@));
    lemma_exclude_tags(service, task_name, Some("last_continuous"@));
}

proof fn lemma_exclude_tags(
    service: MultiversionServiceImpl,
    task_name: Seq<char>,
    mode: Option<Seq<char>>,
)
    requires
        "multiversion_incompatible"@ + ","@ + "backport_required_multiversion"@ + ","@
            == "multiversion_incompatible,backport_required_multiversion,"@,
        "_"@ + "backport_required_multiversion"@ + ","@ == "_backport_required_multiversion,"@,
    ensures
        service.exclude_tags(task_name, mode)
            == "multiversion_incompatible,backport_required_multiversion,"@ + task_name
            + "_backport_required_multiversion,"@ + service.fcv_tags(mode),
{
    let tags = seq![
        "multiversion_incompatible"@,
        "backport_required_multiversion"@,
        task_name + "_"@ + "backport_required_multiversion"@,
        service.fcv_tags(mode),
    ];
    let three = tags.drop_last();
    let two = three.drop_last();
    let one = two.drop_last();
    assert(joined(one, ","@) == tags[0]);
    assert(joined(two, ","@) == tags[0] + ","@ + tags[1]);
    assert(joined(three, ","@) == tags[0] + ","@ + tags[1] + ","@ + tags[2]);
    assert(joined(tags, ","@) == tags[0] + ","@ + tags[1] + ","@ + tags[2] + ","@ + tags[3]);
    assert(service.exclude_tags(task_name, mode) =~= (tags[0] + ","@ + tags[1] + ","@) + task_name
        + ("_"@ + "backport_required_multiversion"@ + ","@) + tags[3]);
}

/// The old versions that are known are the last that is supported for long and the last one.
pub proof fn law_known_versions_are_the_last_ones(
    service: MultiversionServiceImpl,
    version: Seq<char>,
)
    ensures
        service.knows_mode(None),
        service.knows_mode(Some(version)) <==> version == "last_lts"@ || version
            == "last_continuous"@,
{
}

/// The file of a sub-suite is named after the sub-suite and its index.
pub proof fn law_files_are_named_after_sub_suites(
    sub_suite: SubSuiteView,
    index: usize,
    total_tasks: nat,
)
    requires
        sub_suite.index == Some(index),
    ensures
        exists|name: Seq<char>| #[trigger]
            is_numbered_name(name, sub_suite.name, index, total_tasks, sub_suite.is_enterprise)
                && suite_file_name(sub_suite, total_tasks) == name + ".yml"@,
{
    law_sub_task_names_hold_their_index(
        sub_suite.name,
        index,
        total_tasks,
        sub_suite.is_enterprise,
    );
    let name = crate::utils::task_name::generated_task_name(
        sub_suite.name,
        sub_suite.index,
        total_tasks,
        sub_suite.is_enterprise,
    );
    assert(is_numbered_name(name, sub_suite.name, index, total_tasks, sub_suite.is_enterprise));
}

/// The file of a sub-suite that has tests selects these and excludes none. The file of one that
/// excludes tests excludes them besides those that its origin excludes. All else is as in the
/// origin.
pub proof fn law_files_select_the_tests(
    sub_suite: SubSuiteView,
    origin: ResmokeSuiteConfigView,
)
    ensures
        ({
            let config = suite_file_config(sub_suite, origin);
            &&& config.test_kind == origin.test_kind
            &&& config.executor == origin.executor
            &&& config.selector == (ResmokeSelectorView {
                test_root: config.selector.test_root,
                exclude_files: config.selector.exclude_files,
                ..origin.selector
            })
            &&& sub_suite.exclude_test_list is None ==> config.selector.test_root == Some(
                TestRootView::Roots { roots: sub_suite.test_list },
            ) && config.selector.exclude_files is None
            &&& sub_suite.exclude_test_list matches Some(excluded) ==> {
                &&& config.selector.test_root == origin.selector.test_root
                &&& origin.selector.exclude_files is None ==> config.selector.exclude_files == Some(
                    excluded,
                )
                &&& origin.selector.exclude_files matches Some(files)
                    ==> config.selector.exclude_files == Some(files + excluded)
            }
        }),
{
}

/// Selecting tests anew puts them in place of those selected, and drops what was excluded. Excluded
/// tests then come on top.
pub proof fn law_selected_tests_take_the_place_of_others(
    selector: ResmokeSelectorView,
    run: Seq<Seq<char>>,
    excluded: Seq<Seq<char>>,
)
    ensures
        reselected(selector, None, None) == selector,
        reselected(selector, Some(run), None) == (ResmokeSelectorView {
            test_root: Some(TestRootView::Roots { roots: run }),
            exclude_files: None,
            ..selector
        }),
        reselected(selector, Some(run), Some(excluded)) == (ResmokeSelectorView {
            test_root: Some(TestRootView::Roots { roots: run }),
            exclude_files: Some(excluded),
            ..selector
        }),
        selector.exclude_files is None ==> reselected(selector, None, Some(excluded)) == (
        ResmokeSelectorView { exclude_files: Some(excluded), ..selector }),
        selector.exclude_files matches Some(files) ==> reselected(selector, None, Some(excluded))
            == (ResmokeSelectorView { exclude_files: Some(files + excluded), ..selector }),
{
}

proof fn lemma_positions(sub_suites: Seq<SubSuiteView>, misc: bool, n: int)
    requires
        0 <= n <= sub_suites.len() <= usize::MAX,
    ensures
        forall|i: int|
            0 <= i < positions_of(sub_suites, misc, n).len() ==> 0 <= #[trigger] positions_of(
                sub_suites,
                misc,
                n,
            )[i] < n && (sub_suites[positions_of(sub_suites, misc, n)[i] as int].exclude_test_list
                is Some <==> misc),
        forall|i: int, j: int|
            0 <= i < j < positions_of(sub_suites, misc, n).len() ==> #[trigger] positions_of(
                sub_suites,
                misc,
                n,
            )[i] < #[trigger] positions_of(sub_suites, misc, n)[j],
    decreases n,
{
    if n > 0 {
        lemma_positions(sub_suites, misc, n - 1);
    }
}

/// Sub-suites that exclude tests are written last. Otherwise they are written in their order.
pub proof fn law_misc_suites_are_written_last(sub_suites: Seq<SubSuiteView>, i: int, j: int)
    requires
        sub_suites.len() <= usize::MAX,
        0 <= i < j < write_order(sub_suites).len(),
    ensures
        0 <= write_order(sub_suites)[i] < sub_suites.len(),
        sub_suites[write_order(sub_suites)[i] as int].exclude_test_list is Some
            ==> sub_suites[write_order(sub_suites)[j] as int].exclude_test_list is Some,
        sub_suites[write_order(sub_suites)[i] as int].exclude_test_list is Some
            == sub_suites[write_order(sub_suites)[j] as int].exclude_test_list is Some
            ==> write_order(sub_suites)[i] < write_order(sub_suites)[j],
{
    let n = sub_suites.len() as int;
    lemma_positions(sub_suites, false, n);
    lemma_positions(sub_suites, true, n);
    let plain = positions_of(sub_suites, false, n);
    let misc = positions_of(sub_suites, true, n);
    let order = write_order(sub_suites);
    if i < plain.len() {
        assert(order[i] == plain[i]);
    } else {
        assert(order[i] == misc[i - plain.len()]);
    }
    if j < plain.len() {
        assert(order[j] == plain[j]);
    } else {
        assert(order[j] == misc[j - plain.len()]);
    }
}

/// The writer asks for the configuration of a suite that it needs and does not have, and writes the
/// file of the sub-suite otherwise, until all are written.
pub proof fn law_writer_writes_each_file_in_turn(writer: SuiteFileWriter)
    ensures
        ({
            let order = write_order(writer.sub_suites());
            let sub_suite = writer.sub_suites()[order[writer.written() as int] as int];
            &&& writer.action() is Done <==> writer.written() >= order.len()
            &&& writer.written() < order.len() && !writer.configs().contains_key(
                sub_suite.origin_suite,
            ) ==> writer.action() == (WriterActionView::QueryConfig {
                suite: sub_suite.origin_suite,
            })
            &&& writer.written() < order.len() && writer.configs().contains_key(
                sub_suite.origin_suite,
            ) ==> writer.action() == (WriterActionView::WriteFile {
                file_name: suite_file_name(sub_suite, writer.sub_suites().len()),
                config: suite_file_config(
                    sub_suite,
                    writer.configs()[sub_suite.origin_suite],
                ),
            })
        }),
{
}

/// Each sub-task of a suite is referred to by its name, with the given dependencies, and is not
/// activated. The display task shows all of them under the name of the suite.
pub proof fn law_each_sub_task_is_referred_to(
    suite: SuiteView,
    distro: Option<Seq<char>>,
    depends_on: Option<Seq<TaskDependencyView>>,
    i: int,
)
    requires
        0 <= i < suite.sub_tasks.len(),
    ensures
        task_refs_of(suite, distro, depends_on).len() == suite.sub_tasks.len(),
        task_refs_of(suite, distro, depends_on)[i].name == suite.sub_tasks[i].evg_task.name,
        task_refs_of(suite, distro, depends_on)[i].depends_on == depends_on,
        task_refs_of(suite, distro, depends_on)[i].activate == Some(false),
        display_task_of(suite).name == suite.display_name,
        display_task_of(suite).execution_tasks.len() == suite.sub_tasks.len(),
        display_task_of(suite).execution_tasks[i] == suite.sub_tasks[i].evg_task.name,
{
}

/// A suite needs the binaries of other versions where some sub-task depends on their selection.
pub proof fn law_multiversion_suites_depend_on_binaries(suite: SuiteView)
    ensures
        any_multiversion(suite.sub_tasks) <==> exists|i: int, j: int|
            0 <= i < suite.sub_tasks.len() && (#[trigger] suite.sub_tasks[i]).evg_task.depends_on
                is Some && 0 <= j < suite.sub_tasks[i].evg_task.depends_on.unwrap().len() && (
            #[trigger] suite.sub_tasks[i].evg_task.depends_on.unwrap()[j]).name
                == "select_multiversion_binaries"@,
{
    if any_multiversion(suite.sub_tasks) {
        let i = choose|i: int|
            0 <= i < suite.sub_tasks.len() && needs_multiversion_binaries(
                (#[trigger] suite.sub_tasks[i]).evg_task,
            );
        let dependencies = suite.sub_tasks[i].evg_task.depends_on.unwrap();
        let j = choose|j: int|
            0 <= j < dependencies.len() && (#[trigger] dependencies[j]).name
                == "select_multiversion_binaries"@;
        assert(suite.sub_tasks[i].evg_task.depends_on.unwrap()[j].name
            == "select_multiversion_binaries"@);
    }
    if exists|i: int, j: int|
        0 <= i < suite.sub_tasks.len() && (#[trigger] suite.sub_tasks[i]).evg_task.depends_on
            is Some && 0 <= j < suite.sub_tasks[i].evg_task.depends_on.unwrap().len() && (
        #[trigger] suite.sub_tasks[i].evg_task.depends_on.unwrap()[j]).name
            == "select_multiversion_binaries"@ {
        let (i, j) = choose|i: int, j: int|
            0 <= i < suite.sub_tasks.len() && (#[trigger] suite.sub_tasks[i]).evg_task.depends_on
                is Some && 0 <= j < suite.sub_tasks[i].evg_task.depends_on.unwrap().len() && (
            #[trigger] suite.sub_tasks[i].evg_task.depends_on.unwrap()[j]).name
                == "select_multiversion_binaries"@;
        assert(needs_multiversion_binaries(suite.sub_tasks[i].evg_task));
    }
}

/// The suite of a fuzzer holds its sub-tasks under its name. None of them asks for a larger distro.
pub proof fn law_fuzzer_suites_hold_the_sub_tasks(task: FuzzerTask, i: int)
    requires
        0 <= i < task.sub_tasks@.len(),
    ensures
        task.suite().display_name == task.task_name@,
        task.suite().sub_tasks.len() == task.sub_tasks@.len(),
        task.suite().sub_tasks[i].evg_task == task.sub_tasks@[i].deep_view(),
        !task.suite().sub_tasks[i].use_large_distro,
        !task.suite().sub_tasks[i].use_xlarge_distro,
{
}

/// The suite of a resmoke task holds its sub-tasks under its name.
pub proof fn law_resmoke_suites_hold_the_sub_tasks(suite: GeneratedResmokeSuite, i: int)
    requires
        0 <= i < suite.sub_suites@.len(),
    ensures
        suite.suite().display_name == suite.task_name@,
        suite.suite().sub_tasks.len() == suite.sub_suites@.len(),
        suite.suite().sub_tasks[i] == suite.sub_suites@[i].deep_view(),
        suite.sub_suites@[i].use_large_distro ==> any_large(suite.suite().sub_tasks),
        suite.sub_suites@[i].use_xlarge_distro ==> any_xlarge(suite.suite().sub_tasks),
        any_large(suite.suite().sub_tasks) ==> exists|k: int|
            0 <= k < suite.sub_suites@.len() && (#[trigger] suite.sub_suites@[k]).use_large_distro,
        any_xlarge(suite.suite().sub_tasks) ==> exists|k: int|
            0 <= k < suite.sub_suites@.len() && (#[trigger] suite.sub_suites@[k]).use_xlarge_distro,
{
    let sub_tasks = suite.suite().sub_tasks;
    assert(sub_tasks[i] == suite.sub_suites@[i].deep_view());
    if any_large(sub_tasks) {
        let k = choose|k: int|
            0 <= k < sub_tasks.len() && (#[trigger] sub_tasks[k]).use_large_distro;
        assert(suite.sub_suites@[k].use_large_distro);
    }
    if any_xlarge(sub_tasks) {
        let k = choose|k: int|
            0 <= k < sub_tasks.len() && (#[trigger] sub_tasks[k]).use_xlarge_distro;
        assert(suite.sub_suites@[k].use_xlarge_distro);
    }
}

} // verus!
