//! Configuration for generating sub-tasks.

use vstd::prelude::*;

use crate::utils::string_set::StringSet;

verus! {

/// Configuration for generating sub-tasks.
#[derive(Debug, PartialEq)]
pub struct GenerateSubTasksConfig {
    /// Build variants that can do without a large distro.
    pub build_variant_large_distro_exceptions: StringSet,
}

impl GenerateSubTasksConfig {
    /// Can the build variant do without a large distro?
    ///
    /// # Arguments
    ///
    /// * `build_variant_name` - Name of build variant.
    pub fn ignore_missing_large_distro(&self, build_variant_name: &str) -> (ignore: bool)
        ensures
            ignore == self.build_variant_large_distro_exceptions@.contains(build_variant_name@),
    {
        self.build_variant_large_distro_exceptions.contains(build_variant_name)
    }
}

} // verus!
