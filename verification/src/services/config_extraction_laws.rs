//! What holds of the configuration that is extracted from tasks and build variants.

use vstd::prelude::*;

use crate::errors::ConfigErrorView;
use crate::evergreen::evg_config_utils::{expansion, task_tags};
use crate::evergreen::model::{BuildVariantView, EvgTask, TaskDependencyView};
use crate::evergreen_names::{
    LARGE_DISTRO_EXPANSION, MULTIVERSION, NO_MULTIVERSION_GENERATE_TASKS, XLARGE_DISTRO_EXPANSION,
};
use crate::services::config_extraction::{large_distro_of, resmoke_params_of};
use crate::task_types::generated_suite::{any_large, any_xlarge, task_refs_of, SuiteView};

verus! {

/// A sub-task that asks for a large distro runs on the one that the build variant names, where no
/// sub-task asks for a xlarge one.
pub proof fn law_large_tasks_run_on_large_distro(
    exceptions: Option<Set<Seq<char>>>,
    suite: SuiteView,
    variant: BuildVariantView,
    depends_on: Option<Seq<TaskDependencyView>>,
    i: int,
)
    requires
        0 <= i < suite.sub_tasks.len(),
        suite.sub_tasks[i].use_large_distro,
        !any_xlarge(suite.sub_tasks),
        expansion(variant, LARGE_DISTRO_EXPANSION@) is Some,
    ensures
        large_distro_of(exceptions, suite, variant) == Ok::<_, ConfigErrorView>(
            expansion(variant, LARGE_DISTRO_EXPANSION@),
        ),
        task_refs_of(suite, expansion(variant, LARGE_DISTRO_EXPANSION@), depends_on)[i].distros
            == Some(seq![expansion(variant, LARGE_DISTRO_EXPANSION@).unwrap()]),
{
    assert(any_large(suite.sub_tasks));
}

/// A sub-task that asks for a xlarge distro runs on the one that the build variant names, or else
/// on the large one that it names.
pub proof fn law_xlarge_tasks_fall_back_to_large_distro(
    exceptions: Option<Set<Seq<char>>>,
    suite: SuiteView,
    variant: BuildVariantView,
    depends_on: Option<Seq<TaskDependencyView>>,
    i: int,
)
    requires
        0 <= i < suite.sub_tasks.len(),
        suite.sub_tasks[i].use_xlarge_distro,
    ensures
        expansion(variant, XLARGE_DISTRO_EXPANSION@) matches Some(xlarge) ==> large_distro_of(
            exceptions,
            suite,
            variant,
        ) == Ok::<_, ConfigErrorView>(Some(xlarge)) && task_refs_of(
            suite,
            Some(xlarge),
            depends_on,
        )[i].distros == Some(seq![xlarge]),
        expansion(variant, XLARGE_DISTRO_EXPANSION@) is None ==> (expansion(
            variant,
            LARGE_DISTRO_EXPANSION@,
        ) matches Some(large) ==> large_distro_of(exceptions, suite, variant) == Ok::<
            _,
            ConfigErrorView,
        >(Some(large)) && task_refs_of(suite, Some(large), depends_on)[i].distros == Some(
            seq![large],
        )),
{
    assert(any_xlarge(suite.sub_tasks));
}

/// A sub-task that asks for neither runs on the distro of its build variant.
pub proof fn law_other_tasks_keep_their_distro(
    suite: SuiteView,
    distro: Option<Seq<char>>,
    depends_on: Option<Seq<TaskDependencyView>>,
    i: int,
)
    requires
        0 <= i < suite.sub_tasks.len(),
        !suite.sub_tasks[i].use_large_distro,
        !suite.sub_tasks[i].use_xlarge_distro,
    ensures
        task_refs_of(suite, distro, depends_on)[i].distros is None,
{
}

/// Generation fails where a sub-task asks for a large distro, the build variant names none that it
/// could run on, and the build variant is not listed as one that can do without.
pub proof fn law_missing_large_distro_fails(
    exceptions: Option<Set<Seq<char>>>,
    suite: SuiteView,
    variant: BuildVariantView,
)
    ensures
        large_distro_of(exceptions, suite, variant) is Err <==> {
            &&& any_large(suite.sub_tasks)
            &&& expansion(variant, LARGE_DISTRO_EXPANSION@) is None
            &&& !(any_xlarge(suite.sub_tasks) && expansion(variant, XLARGE_DISTRO_EXPANSION@)
                is Some)
            &&& !(exceptions matches Some(names) && names.contains(variant.name))
        },
        large_distro_of(exceptions, suite, variant) matches Err(error) ==> error
            == (ConfigErrorView::MissingLargeDistro { build_variant: variant.name }),
{
}

/// A task with the tag for multiversion tasks gets the setup for them, and multiversion sub-tasks
/// too unless another tag rules these out. No other task gets either.
pub proof fn law_tags_ask_for_multiversion(
    generating_task: Seq<char>,
    config_location: Seq<char>,
    task_def: EvgTask,
    is_enterprise: bool,
    variant: Option<BuildVariantView>,
    platform: Option<Seq<char>>,
)
    ensures
        resmoke_params_of(
            generating_task,
            config_location,
            task_def,
            is_enterprise,
            variant,
            platform,
        ) matches Ok(params) ==> {
            &&& params.require_multiversion_setup <==> task_tags(task_def.deep_view()).contains(
                MULTIVERSION@,
            )
            &&& params.require_multiversion_generate_tasks <==> task_tags(
                task_def.deep_view(),
            ).contains(MULTIVERSION@) && !task_tags(task_def.deep_view()).contains(
                NO_MULTIVERSION_GENERATE_TASKS@,
            )
        },
{
}

} // verus!
