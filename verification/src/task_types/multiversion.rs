//! Multiversion task generation utilities.
//!
//! In multiversion testing, tasks run against different versions of MongoDB:
//!
//! - `lts` - Long-Term Support. The yearly, major release of MongoDB (e.g. 5.0, 6.0, ...).
//! - `continuous` - Continuous release. The quarterly releases of MongoDB (e.g. 5.1, 5.2, ...).
//!
//! The old version to test against is either the last `lts` or the last `continuous` release.

use vstd::prelude::*;

use crate::evergreen_names::{
    BACKPORT_REQUIRED_TAG, MULTIVERSION_INCOMPATIBLE, MULTIVERSION_LAST_CONTINUOUS,
    MULTIVERSION_LAST_LTS,
};
use crate::resmoke::resmoke_proxy::MultiversionConfig;
use crate::utils::lists::push_text;
use crate::utils::text::{join, joined, str_eq};

verus! {

/// A service for helping generating multiversion tasks.
pub trait MultiversionService {
    /// The service knows the type of multiversion task.
    spec fn knows_mode(&self, mv_mode: Option<Seq<char>>) -> bool;

    /// The exclude tags for a task.
    spec fn exclude_tags(&self, task_name: Seq<char>, mv_mode: Option<Seq<char>>) -> Seq<char>;

    /// Check whether the service knows the type of multiversion task.
    ///
    /// # Arguments
    ///
    /// * `mv_mode` - Type of multiversion task being generated (last_lts, continuous).
    fn is_mode_known(&self, mv_mode: &Option<String>) -> (known: bool)
        ensures
            known == self.knows_mode(mv_mode.deep_view()),
    ;

    /// Get the exclude tags for the given task.
    ///
    /// # Arguments
    ///
    /// * `task_name` - Name of task to query.
    /// * `mv_mode` - Type of multiversion task being generated (last_lts, continuous).
    ///
    /// # Returns
    ///
    /// Exclude tags as a comma-separated string.
    fn exclude_tags_for_task(&self, task_name: &str, mv_mode: Option<String>) -> (tags: String)
        requires
            self.knows_mode(mv_mode.deep_view()),
        ensures
            tags@ == self.exclude_tags(task_name@, mv_mode.deep_view()),
    ;
}

/// Implementation of Multiversion service.
pub struct MultiversionServiceImpl {
    /// Multiversion Configuration.
    pub multiversion_config: MultiversionConfig,
}

/// The type of multiversion task is none, or one of the old versions to test against.
pub open spec fn known_mode(mv_mode: Option<Seq<char>>) -> bool {
    mv_mode matches Some(mode) ==> mode == MULTIVERSION_LAST_LTS@ || mode
        == MULTIVERSION_LAST_CONTINUOUS@
}

/// Does the service know the type of multiversion task?
pub fn is_known_mode(mv_mode: &Option<String>) -> (known: bool)
    ensures
        known == known_mode(mv_mode.deep_view()),
{
    match mv_mode {
        Some(mode) => str_eq(mode.as_str(), MULTIVERSION_LAST_LTS) || str_eq(
            mode.as_str(),
            MULTIVERSION_LAST_CONTINUOUS,
        ),
        None => true,
    }
}

impl MultiversionServiceImpl {
    /// Create a new instance of Multiversion service.
    ///
    /// # Arguments
    ///
    /// * `multiversion_config` - Multiversion configuration to generate against.
    pub fn new(multiversion_config: MultiversionConfig) -> (service: Self)
        ensures
            service.multiversion_config == multiversion_config,
    {
        MultiversionServiceImpl { multiversion_config }
    }

    /// The tags for the versions to test against.
    pub open spec fn fcv_tags(&self, mv_mode: Option<Seq<char>>) -> Seq<char> {
        match mv_mode {
            Some(mode) => if mode == MULTIVERSION_LAST_LTS@ {
                self.multiversion_config.lts_tags()
            } else {
                self.multiversion_config.continuous_tags()
            },
            None => self.multiversion_config.requires_fcv_tag@,
        }
    }
}

impl MultiversionService for MultiversionServiceImpl {
    open spec fn knows_mode(&self, mv_mode: Option<Seq<char>>) -> bool {
        known_mode(mv_mode)
    }

    open spec fn exclude_tags(&self, task_name: Seq<char>, mv_mode: Option<Seq<char>>) -> Seq<char> {
        joined(
            seq![
                MULTIVERSION_INCOMPATIBLE@,
                BACKPORT_REQUIRED_TAG@,
                task_name + "_"@ + BACKPORT_REQUIRED_TAG@,
                self.fcv_tags(mv_mode),
            ],
            ","@,
        )
    }

    fn is_mode_known(&self, mv_mode: &Option<String>) -> (known: bool) {
        is_known_mode(mv_mode)
    }

    /// Get the exclude tags for the given task.
    ///
    /// # Arguments
    ///
    /// * `task_name` - Name of task to query.
    /// * `mv_mode` - Type of multiversion task being generated (last_lts, last_continuous).
    ///
    /// # Returns
    ///
    /// Exclude tags as a comma-separated string.
    fn exclude_tags_for_task(&self, task_name: &str, mv_mode: Option<String>) -> (tags: String) {
        let mut task_tag: String = task_name.to_owned();
        task_tag.append("_");
        task_tag.append(BACKPORT_REQUIRED_TAG);
        let fcv_tags: String = match &mv_mode {
            Some(mode) => if str_eq(mode.as_str(), MULTIVERSION_LAST_LTS) {
                self.multiversion_config.get_fcv_tags_for_lts()
            } else {
                self.multiversion_config.get_fcv_tags_for_continuous()
            },
            None => self.multiversion_config.requires_fcv_tag.clone(),
        };
        let mut list: Vec<String> = Vec::new();
        push_text(&mut list, MULTIVERSION_INCOMPATIBLE);
        push_text(&mut list, BACKPORT_REQUIRED_TAG);
        push_text(&mut list, task_tag.as_str());
        push_text(&mut list, fcv_tags.as_str());
        assert(list.deep_view() =~= seq![
            MULTIVERSION_INCOMPATIBLE@,
            BACKPORT_REQUIRED_TAG@,
            task_name@ + "_"@ + BACKPORT_REQUIRED_TAG@,
            self.fcv_tags(mv_mode.deep_view()),
        ]);
        join(&list, ",")
    }
}

} // verus!
