//! Expansions from evergreen that determine how tasks should be generated.

use vstd::prelude::*;

use crate::utils::text::str_eq;

verus! {

/// Expansions from evergreen to determine settings for how task should be generated.
#[derive(Debug, PartialEq)]
pub struct EvgExpansions {
    /// Evergreen project being run.
    pub project: String,
    /// Git revision being run against.
    pub revision: String,
    /// Name of task running generator.
    pub task_name: String,
    /// ID of Evergreen version running.
    pub version_id: String,
    /// True if the patch is a patch build.
    pub is_patch: bool,
    /// True if we should NOT skip tests covered by more complex suites.
    pub run_covered_tests: bool,
}

/// Read a truth value that is given as text: the text "true" is true, anything else is not.
///
/// # Arguments
///
/// * `text` - Text of the truth value.
pub fn bool_from_text(text: &str) -> (value: bool)
    ensures
        value == (text@ == "true"@),
{
    str_eq(text, "true")
}

impl EvgExpansions {
    /// Where generated configuration is stored.
    pub open spec fn location(&self) -> Seq<char> {
        self.project@ + "/"@ + self.revision@ + "/generate_tasks/generated-config-"@
            + self.version_id@ + ".tgz"@
    }

    /// Tests covered by more complex suites are skipped.
    pub open spec fn skips_covered_tests(&self) -> bool {
        self.is_patch && !self.run_covered_tests
    }

    /// File to store generated configuration under.
    pub fn config_location(&self) -> (location: String)
        ensures
            location@ == self.location(),
    {
        let mut location: String = self.project.clone();
        location.append("/");
        location.append(self.revision.as_str());
        location.append("/generate_tasks/generated-config-");
        location.append(self.version_id.as_str());
        location.append(".tgz");
        location
    }

    /// Should tests covered by more complex suites be skipped? That is so on patch builds, unless
    /// they are asked for.
    pub fn skip_covered_tests(&self) -> (skip: bool)
        ensures
            skip == self.skips_covered_tests(),
    {
        self.is_patch && !self.run_covered_tests
    }
}

/// Generated configuration is stored by project and revision, in an archive of its own for each
/// version.
pub proof fn law_each_version_has_its_archive(one: EvgExpansions, other: EvgExpansions)
    ensures
        one.location() == one.project@ + "/"@ + one.revision@
            + "/generate_tasks/generated-config-"@ + one.version_id@ + ".tgz"@,
        one.project@ == other.project@ && one.revision@ == other.revision@ && one.version_id@
            != other.version_id@ ==> one.location() != other.location(),
{
    if one.project@ == other.project@ && one.revision@ == other.revision@ && one.location()
        == other.location() {
        let head = one.project@ + "/"@ + one.revision@ + "/generate_tasks/generated-config-"@;
        let a = one.version_id@;
        let b = other.version_id@;
        assert(one.location() == head + a + ".tgz"@);
        assert(other.location() == head + b + ".tgz"@);
        assert(a.len() == b.len());
        assert(a =~= one.location().subrange(head.len() as int, (head.len() + a.len()) as int));
        assert(b =~= other.location().subrange(head.len() as int, (head.len() + b.len()) as int));
    }
}

/// Covered tests run on all builds that are no patch, and on patches that ask for them.
pub proof fn law_covered_tests_run_where_asked_for(expansions: EvgExpansions)
    ensures
        !expansions.is_patch ==> !expansions.skips_covered_tests(),
        expansions.run_covered_tests ==> !expansions.skips_covered_tests(),
        expansions.is_patch && !expansions.run_covered_tests ==> expansions.skips_covered_tests(),
{
}

} // verus!
