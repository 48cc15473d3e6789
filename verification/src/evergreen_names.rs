//! Names of the items of the project's evergreen.yml.

use vstd::prelude::*;

verus! {

// Module Names
/// Name of enterprise module.
pub const ENTERPRISE_MODULE: &'static str = "enterprise";

// Functions to setup tasks
/// Function setup authentication to evergreen API.
pub const CONFIGURE_EVG_API_CREDS: &'static str = "configure evergreen api credentials";
/// Function to setup a resmoke task.
pub const DO_SETUP: &'static str = "do setup";
pub const RETRIEVE_GENERATED_TEST_CONFIG: &'static str = "retrieve generated test configuration";
pub const EXTRACT_GENERATED_TEST_CONFIG: &'static str = "extract generated test configuration";
pub const GET_ENGFLOW_CREDS: &'static str = "get engflow creds";

// Functions for running generated tasks.
/// Function to setup fuzzer.
pub const SETUP_JSTESTFUZZ: &'static str = "setup jstestfuzz";
/// Function to generated fuzzer tests.
pub const RUN_FUZZER: &'static str = "run jstestfuzz";
/// Function to run generated tasks.
pub const RUN_GENERATED_TESTS: &'static str = "run generated tests";
pub const BAZEL_TEST: &'static str = "bazel test";

// Function for multi-version tests.
/// Function to do setup for multi-version testing.
pub const DO_MULTIVERSION_SETUP: &'static str = "do multiversion setup";
/// Function to get the project with no modules.
pub const GET_PROJECT_WITH_NO_MODULES: &'static str = "git get project no modules";
/// Function to add a git tag.
pub const ADD_GIT_TAG: &'static str = "add git tag";
pub const GET_PROJECT_AND_ADD_TAG: &'static str = "git get project and add git tag";

// Noop function which stores multiversion task data.
pub const INITIALIZE_MULTIVERSION_TASKS: &'static str = "initialize multiversion tasks";

// Functions for generating tasks.
pub const GENERATE_RESMOKE_TASKS: &'static str = "generate resmoke tasks";

// Functions for invoking resmoke.py in a generated or non-generated task.
pub const RUN_RESMOKE_TESTS: &'static str = "run tests";

// Tasks
/// Name of display task to hide all "_gen" tasks behind.
pub const GENERATOR_TASKS: &'static str = "generator_tasks";
/// Name of burn_in_tests task.
pub const BURN_IN_TESTS: &'static str = "burn_in_tests_gen";
/// Name of burn_in_tags task.
pub const BURN_IN_TAGS: &'static str = "burn_in_tags_gen";
/// Name of burn_in_tasks task.
pub const BURN_IN_TASKS: &'static str = "burn_in_tasks_gen";
/// Name of multiversion binary selection task.
pub const MULTIVERSION_BINARY_SELECTION: &'static str = "select_multiversion_binaries";

// Vars
/// Variable that indicates a task is a fuzzer.
pub const IS_FUZZER: &'static str = "is_jstestfuzz";
/// If true, generate sub-tasks to run on large distros.
pub const USE_LARGE_DISTRO: &'static str = "use_large_distro";
/// If true, generate sub-tasks to run on xlarge distros.
pub const USE_XLARGE_DISTRO: &'static str = "use_xlarge_distro";
/// Number of files that each fuzzer sub-task should generate.
pub const NUM_FUZZER_FILES: &'static str = "num_files";
/// Number of sub-tasks that should be generated for a fuzzer.
pub const NUM_FUZZER_TASKS: &'static str = "num_tasks";
/// Tag to exclude multiversion version.
pub const MULTIVERSION_EXCLUDE_TAG: &'static str = "multiversion_exclude_tags_version";

// Parameters
// Shared parameters between fuzzers and resmoke.
/// Is multiversion setup required to execute the task.
pub const REQUIRE_MULTIVERSION_SETUP: &'static str = "require_multiversion_setup";
/// Arguments to pass to resmoke command.
pub const RESMOKE_ARGS: &'static str = "resmoke_args";
/// Name of suite being executed.
pub const SUITE_NAME: &'static str = "suite";
/// Location where generation task configuration is stored in S3.
pub const GEN_TASK_CONFIG_LOCATION: &'static str = "gen_task_config_location";
/// Maximum amount of resmoke jobs to execute in parallel.
pub const RESMOKE_JOBS_MAX: &'static str = "resmoke_jobs_max";
/// Number of times to repeat a given resmoke suite.
pub const REPEAT_SUITES: &'static str = "resmoke_repeat_suites";
/// Variant used for compile.
pub const COMPILE_VARIANT: &'static str = "compile_variant";

// Fuzzer parameters.
/// Name of npm command to run.
pub const NPM_COMMAND: &'static str = "npm_command";
/// Parameters to pass to fuzzer command.
pub const FUZZER_PARAMETERS: &'static str = "jstestfuzz_vars";
/// Should test execution continue after a failure.
pub const CONTINUE_ON_FAILURE: &'static str = "continue_on_failure";
/// Should test order to shuffled for execution.
pub const SHOULD_SHUFFLE_TESTS: &'static str = "should_shuffle";
/// Name of task being executed.
pub const TASK_NAME: &'static str = "task";
/// Idle timeout to set for execution.
pub const IDLE_TIMEOUT: &'static str = "timeout_secs";
/// Multiversion version combination being run against.
pub const MULTIVERSION_EXCLUDE_TAGS: &'static str = "multiversion_exclude_tags_version";

// Build Variant expansions.
/// Name of large distro for build variant.
pub const LARGE_DISTRO_EXPANSION: &'static str = "large_distro_name";
/// Name of xlarge distro for build variant.
pub const XLARGE_DISTRO_EXPANSION: &'static str = "xlarge_distro_name";
/// List of build variant names delimited by spaces to generate burn_in_tests for.
pub const BURN_IN_TAG_INCLUDE_BUILD_VARIANTS: &'static str = "burn_in_tag_include_build_variants";
/// Generate burn_in_tests for all required and suggested build variants.
pub const BURN_IN_TAG_INCLUDE_ALL_REQUIRED_AND_SUGGESTED: &'static str =
    "burn_in_tag_include_all_required_and_suggested";
/// Build variants to exclude when burn_in_required_and_suggested_build_variants is set.
pub const BURN_IN_TAG_EXCLUDE_BUILD_VARIANTS: &'static str = "burn_in_tag_exclude_build_variants";
/// Compile task name generated build variant should depend on.
pub const BURN_IN_TAG_COMPILE_TASK_DEPENDENCY: &'static str = "burn_in_tag_compile_task_dependency";
/// Name of build variant to determine the timeouts for.
pub const BURN_IN_BYPASS: &'static str = "burn_in_bypass";
/// List of tasks to burn in.
pub const BURN_IN_TASK_NAME: &'static str = "burn_in_task_name";
/// Variant specific override of last_versions in the multiversion-config
pub const LAST_VERSIONS_EXPANSION: &'static str = "last_versions";
/// Unique identifier for generated tasks to use that override last_versions
pub const UNIQUE_GEN_SUFFIX_EXPANSION: &'static str = "unique_gen_suffix";

// Task Tags
/// Tag to include multiversion setup is required.
pub const MULTIVERSION: &'static str = "multiversion";
/// Tag to indicate multiversion combination should not be created.
pub const NO_MULTIVERSION_GENERATE_TASKS: &'static str = "no_multiversion_generate_tasks";

// Multiversion values
/// Tag to include required backport.
pub const BACKPORT_REQUIRED_TAG: &'static str = "backport_required_multiversion";
/// Tag to mark task multiversion incompatible.
pub const MULTIVERSION_INCOMPATIBLE: &'static str = "multiversion_incompatible";
/// Filename of multiversion exclude tags file.
pub const MULTIVERSION_EXCLUDE_TAGS_FILE: &'static str = "multiversion_exclude_tags.yml";
/// Name of last lts configuration.
pub const MULTIVERSION_LAST_LTS: &'static str = "last_lts";
/// Name of last continuous configuration.
pub const MULTIVERSION_LAST_CONTINUOUS: &'static str = "last_continuous";

// Distro group names
/// Windows distro group name.
pub const WINDOWS: &'static str = "windows";
/// MacOS distro group name.
pub const MACOS: &'static str = "macos";
/// Linux distro group name.
pub const LINUX: &'static str = "linux";

// Constants in evergreen.yml.
/// Name of the variant that calls generate.task on the version.
pub const VERSION_GEN_VARIANT: &'static str = "generate-tasks-for-version";
/// Name of the task that calls generate.task on the version for burn-in.
pub const VERSION_BURN_IN_GEN_TASK: &'static str = "version_burn_in_gen";

} // verus!
