# Mongo Task Generator

Dynamically split evergreen tasks into subtasks for testing the mongodb/mongo project, with the
logic proved in Verus.

* `src/` is the library. It holds the rules by which tasks are found, split, named, grouped and
  written, on plain values. Every function states what it returns or changes; the `*_laws` modules
  and the proof functions named `law_*` state what holds across functions.
* `tests/` runs the library on concrete values.
* `app/` is the command line program around it: arguments, files, external commands, S3 and the
  workers that generate tasks in parallel.

## The library

* `evergreen` - the project configuration, lookups in it, and the runtime history of tests.
* `resmoke` - the command lines for resmoke and burn_in_tests, what they have answered so far, and
  the configuration of suites.
* `services` - the parameters of tasks, extracted from their definitions.
* `task_types` - fuzzers, resmoke tasks and their sub-suites, burn_in, and the writing of suite
  files.
* `generation` - which tasks are generated for a project, and the build variants that run them.
* `utils` - texts, numbers, names, and maps and sets that keep the order of their entries.

Runtimes are whole nanoseconds. What depends on the order in which a map is walked is stated for
some order of its keys.

Calls into other crates stand behind a few trusted functions: `regex` and lower case in
`utils::pattern`, shuffling in `task_types::resmoke_tasks`, YAML values in
`resmoke::resmoke_suite`, YAML documents in `utils::yaml_events` and `resmoke::yaml_node`, and
projects in `evergreen::project_yaml`.
