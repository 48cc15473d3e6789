//! What can be wrong with a project's configuration.

use vstd::prelude::*;

use crate::utils::number::{begins_too_large, starts_too_large};

verus! {

/// A configuration that tasks cannot be generated from.
#[derive(Debug, PartialEq)]
pub enum ConfigError {
    /// A variable that a task needs is missing.
    MissingVar { var: String, task: String },
    /// A value that should be a number is none.
    NotANumber { value: String },
    /// A value that should be `true` or `false` is neither.
    NotABool { value: String },
    /// A task asks for a large distro on a build variant that names none.
    MissingLargeDistro { build_variant: String },
}

/// What a [`ConfigError`] holds.
pub enum ConfigErrorView {
    MissingVar { var: Seq<char>, task: Seq<char> },
    NotANumber { value: Seq<char> },
    NotABool { value: Seq<char> },
    MissingLargeDistro { build_variant: Seq<char> },
}

impl DeepView for ConfigError {
    type V = ConfigErrorView;

    open spec fn deep_view(&self) -> ConfigErrorView {
        match self {
            ConfigError::MissingVar { var, task } => ConfigErrorView::MissingVar {
                var: var@,
                task: task@,
            },
            ConfigError::NotANumber { value } => ConfigErrorView::NotANumber { value: value@ },
            ConfigError::NotABool { value } => ConfigErrorView::NotABool { value: value@ },
            ConfigError::MissingLargeDistro { build_variant } => {
                ConfigErrorView::MissingLargeDistro { build_variant: build_variant@ }
            },
        }
    }
}

/// What a result holds.
pub open spec fn outcome<T: DeepView>(result: Result<T, ConfigError>) -> Result<
    T::V,
    ConfigErrorView,
> {
    match result {
        Ok(value) => Ok(value.deep_view()),
        Err(error) => Err(error.deep_view()),
    }
}

/// Why a text is no number of 64 bits.
pub open spec fn number_problem(value: Seq<char>) -> Seq<char> {
    if value.len() == 0 {
        "cannot parse integer from empty string"@
    } else if starts_too_large(value) {
        "number too large to fit in target type"@
    } else {
        "invalid digit found in string"@
    }
}

/// The text in which an error is reported.
pub open spec fn error_message(error: ConfigErrorView) -> Seq<char> {
    match error {
        ConfigErrorView::MissingVar { var, task } => "Missing var '"@ + var + "' for task '"@ + task
            + "'"@,
        ConfigErrorView::NotANumber { value } => number_problem(value),
        ConfigErrorView::NotABool { value } => "provided string was not `true` or `false`"@,
        ConfigErrorView::MissingLargeDistro { build_variant } => LARGE_DISTRO_HELP_HEAD@
            + build_variant + LARGE_DISTRO_HELP_MIDDLE@ + build_variant + LARGE_DISTRO_HELP_TAIL@,
    }
}

/// Help on a missing large distro, up to the name of the build variant.
pub const LARGE_DISTRO_HELP_HEAD: &'static str =
    "
***************************************************************************************
It appears we are trying to generate a task marked as requiring a large distro, but the
build variant has not specified a large build variant. In order to resolve this error,
you need to:

(1) add a 'large_distro_name' expansion to this build variant ('";

/// Help on a missing large distro, between the two places that name the build variant.
pub const LARGE_DISTRO_HELP_MIDDLE: &'static str =
    "').

-- or --

(2) add this build variant ('";

/// Help on a missing large distro, behind the name of the build variant.
pub const LARGE_DISTRO_HELP_TAIL: &'static str =
    "') to the 'build_variant_large_distro_exception'
list in the 'etc/generate_subtasks_config.yml' file.
***************************************************************************************
";

impl ConfigError {
    /// The text in which the error is reported.
    pub fn message(&self) -> (text: String)
        ensures
            text@ == error_message(self.deep_view()),
    {
        let mut text: String = String::new();
        match self {
            ConfigError::MissingVar { var, task } => {
                text.append("Missing var '");
                text.append(var.as_str());
                text.append("' for task '");
                text.append(task.as_str());
                text.append("'");
            },
            ConfigError::NotANumber { value } => {
                if value.as_str().unicode_len() == 0 {
                    text.append("cannot parse integer from empty string");
                } else if begins_too_large(value.as_str()) {
                    text.append("number too large to fit in target type");
                } else {
                    text.append("invalid digit found in string");
                }
            },
            ConfigError::NotABool { .. } => {
                text.append("provided string was not `true` or `false`");
            },
            ConfigError::MissingLargeDistro { build_variant } => {
                text.append(LARGE_DISTRO_HELP_HEAD);
                text.append(build_variant.as_str());
                text.append(LARGE_DISTRO_HELP_MIDDLE);
                text.append(build_variant.as_str());
                text.append(LARGE_DISTRO_HELP_TAIL);
            },
        }
        assert(text@ =~= error_message(self.deep_view()));
        text
    }
}

} // verus!
