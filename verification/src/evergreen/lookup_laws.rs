//! What holds of lookups in tasks and build variants.

use vstd::prelude::*;

use crate::evergreen::evg_config::{build_variants_by_name, module_dir, tasks_by_name};
use crate::evergreen::evg_config_utils::{
    call_vars_in, default_str, dependency_names, enterprise_switched_off, expansion,
    expansion_words, first_call, gen_task_var, includes_all_required, is_burn_in_tag_variant,
    multiversion_tasks, multiversion_tasks_of, platform_of, required_or_suggested, resmoke_vars,
    suite_name_of, task_call_vars, task_ref_dependencies, task_tags, text_var, translated_run_var,
    variant_platform, MultiversionGenerateTaskConfigView,
};
use crate::evergreen::model::{
    BuildVariantView, EvgCommand, EvgCommandView, EvgModuleView, EvgTask, EvgTaskView,
    FunctionCallView, ParamValue, ParamValueView, TaskRefView, VarsView,
};
use crate::utils::number::parsed_bool;
use crate::utils::pattern::{lowercase, regex_is_match};
use crate::utils::task_name_laws::law_gen_suffix_comes_off;
use crate::utils::text_laws::{
    is_word_at, law_text_behind_last, law_words_are_found, lemma_occurrence,
};

verus! {

/// A command calls a function.
pub open spec fn calls(command: EvgCommandView, func: Seq<char>) -> bool {
    command matches EvgCommandView::Function(call) && call.func == func
}

/// The command at a place is the first one that calls a function.
pub open spec fn calls_first_at(
    commands: Seq<EvgCommandView>,
    func: Seq<char>,
    k: int,
    call: FunctionCallView,
) -> bool {
    &&& 0 <= k < commands.len()
    &&& commands[k] == EvgCommandView::Function(call)
    &&& call.func == func
    &&& forall|j: int| 0 <= j < k ==> !calls(#[trigger] commands[j], func)
}

/// The first call of a function in a task hands over the variables.
pub open spec fn hands_over(task: EvgTaskView, func: Seq<char>, vars: VarsView) -> bool {
    task.commands matches Some(commands) && exists|k: int, call: FunctionCallView| #[trigger]
        calls_first_at(commands, func, k, call) && call.vars == Some(vars)
}

/// The first call of a function in a task hands over a text under a name.
pub open spec fn hands_text(
    task: EvgTaskView,
    func: Seq<char>,
    name: Seq<char>,
    text: Seq<char>,
) -> bool {
    exists|vars: VarsView| #[trigger]
        hands_over(task, func, vars) && vars.contains_key(name) && vars[name]
            == ParamValueView::String(text)
}

/// A build variant has a value for an expansion.
pub open spec fn expands(variant: BuildVariantView, name: Seq<char>, value: Seq<char>) -> bool {
    variant.expansions matches Some(expansions) && expansions.contains_key(name)
        && expansions[name] == value
}

/// A task carries a tag.
pub open spec fn is_tagged(task: EvgTaskView, tag: Seq<char>) -> bool {
    task.tags matches Some(tags) && tags.contains(tag)
}

/// The first call is found where there is one, and nothing where there is none.
pub proof fn law_first_call_is_found(commands: Seq<EvgCommandView>, func: Seq<char>)
    ensures
        forall|k: int, call: FunctionCallView| #[trigger]
            calls_first_at(commands, func, k, call) ==> first_call(commands, func) == Some(call),
        first_call(commands, func) is None <==> forall|j: int|
            0 <= j < commands.len() ==> !calls(#[trigger] commands[j], func),
        first_call(commands, func) matches Some(call) ==> exists|k: int| #[trigger]
            calls_first_at(commands, func, k, call),
    decreases commands.len(),
{
    if commands.len() > 0 {
        let rest = commands.drop_first();
        law_first_call_is_found(rest, func);
        if calls(commands[0], func) {
            let call = commands[0]->Function_0;
            assert(calls_first_at(commands, func, 0, call));
            assert forall|k: int, c: FunctionCallView| #[trigger]
                calls_first_at(commands, func, k, c) implies c == call by {
                assert(k == 0) by {
                    if k > 0 {
                        assert(!calls(commands[0], func));
                    }
                }
            }
        } else {
            assert(first_call(commands, func) == first_call(rest, func));
            assert forall|k: int, c: FunctionCallView| #[trigger]
                calls_first_at(commands, func, k, c) implies first_call(commands, func) == Some(
                c,
            ) by {
                assert(k > 0);
                assert forall|j: int| 0 <= j < k - 1 implies !calls(#[trigger] rest[j], func) by {
                    assert(rest[j] == commands[j + 1]);
                }
                assert(rest[k - 1] == commands[k]);
                assert(calls_first_at(rest, func, k - 1, c));
            }
            match first_call(rest, func) {
                Some(call) => {
                    let k = choose|k: int| #[trigger] calls_first_at(rest, func, k, call);
                    assert forall|j: int| 0 <= j < k + 1 implies !calls(
                        #[trigger] commands[j],
                        func,
                    ) by {
                        if j > 0 {
                            assert(rest[j - 1] == commands[j]);
                        }
                    }
                    assert(commands[k + 1] == rest[k]);
                    assert(calls_first_at(commands, func, k + 1, call));
                    assert(calls(commands[k + 1], func));
                },
                None => {
                    assert forall|j: int| 0 <= j < commands.len() implies !calls(
                        #[trigger] commands[j],
                        func,
                    ) by {
                        if j > 0 {
                            assert(rest[j - 1] == commands[j]);
                        }
                    }
                },
            }
        }
    }
}

/// The variables of a function are those that its first call hands over.
pub proof fn law_variables_are_those_of_first_call(
    task: EvgTaskView,
    func: Seq<char>,
    vars: VarsView,
)
    ensures
        task_call_vars(task, func) == Some(vars) <==> hands_over(task, func, vars),
{
    if let Some(commands) = task.commands {
        law_first_call_is_found(commands, func);
        if task_call_vars(task, func) == Some(vars) {
            let call = first_call(commands, func).unwrap();
            let k = choose|k: int| #[trigger] calls_first_at(commands, func, k, call);
            assert(calls_first_at(commands, func, k, call) && call.vars == Some(vars));
        }
    }
}

/// The text of a variable is the one that the first call of 'generate resmoke tasks' hands over
/// under its name.
pub proof fn law_generating_call_gives_variables(
    task: EvgTaskView,
    name: Seq<char>,
    text: Seq<char>,
)
    ensures
        gen_task_var(task, name) == Some(text) <==> hands_text(
            task,
            "generate resmoke tasks"@,
            name,
            text,
        ),
{
    let func = "generate resmoke tasks"@;
    if gen_task_var(task, name) == Some(text) {
        let vars = task_call_vars(task, func).unwrap();
        law_variables_are_those_of_first_call(task, func, vars);
        assert(hands_over(task, func, vars));
    }
    if hands_text(task, func, name, text) {
        let vars = choose|vars: VarsView| #[trigger]
            hands_over(task, func, vars) && vars.contains_key(name) && vars[name]
                == ParamValueView::String(text);
        law_variables_are_those_of_first_call(task, func, vars);
    }
}

/// A task of the generating call hands over no text under a name.
pub open spec fn hands_no_text(task: EvgTaskView, func: Seq<char>, name: Seq<char>) -> bool {
    forall|text: Seq<char>| !#[trigger] hands_text(task, func, name, text)
}

/// A variable that may be missing has the text that is handed over, and the default only where none
/// is.
pub proof fn law_defaults_stand_in_for_missing_texts(
    task: EvgTaskView,
    name: Seq<char>,
    default: Seq<char>,
)
    ensures
        forall|text: Seq<char>| #[trigger]
            hands_text(task, "generate resmoke tasks"@, name, text) ==> default_str(
                task,
                name,
                default,
            ) == text,
        hands_no_text(task, "generate resmoke tasks"@, name) ==> default_str(task, name, default)
            == default,
{
    let func = "generate resmoke tasks"@;
    assert forall|text: Seq<char>| #[trigger]
        hands_text(task, func, name, text) implies default_str(task, name, default) == text by {
        law_generating_call_gives_variables(task, name, text);
    }
    if let Some(text) = gen_task_var(task, name) {
        law_generating_call_gives_variables(task, name, text);
    }
}

/// The text that names the suite of a task: that of the generating call, or of 'run tests' where
/// the generating call hands over nothing at all.
pub open spec fn names_suite(task: EvgTaskView, suite: Seq<char>) -> bool {
    ||| hands_text(task, "generate resmoke tasks"@, "suite"@, suite)
    ||| hands_text(task, "run tests"@, "suite"@, suite) && forall|vars: VarsView|
        !#[trigger] hands_over(task, "generate resmoke tasks"@, vars)
}

/// The suite of a task is the one that it names, without the package of a bazel target. A task that
/// names none runs the suite of its own name, without the suffix of generating tasks.
pub proof fn law_suite_is_the_named_one(
    task: EvgTaskView,
    suite: Seq<char>,
    package: Seq<char>,
    target: Seq<char>,
)
    ensures
        names_suite(task, suite) && !"//"@.is_prefix_of(suite) ==> suite_name_of(task) == suite,
        names_suite(task, suite) && "//"@.is_prefix_of(suite) && suite == package + ":"@ + target
            && !target.contains(':') ==> suite_name_of(task) == target,
        (forall|text: Seq<char>| !#[trigger] names_suite(task, text)) && task.name == suite
            + "_gen"@ ==> suite_name_of(task) == suite,
        (forall|text: Seq<char>| !#[trigger] names_suite(task, text)) && !"_gen"@.is_suffix_of(
            task.name,
        ) ==> suite_name_of(task) == task.name,
{
    let gen = "generate resmoke tasks"@;
    let run = "run tests"@;
    let name = "suite"@;
    reveal_strlit(":");
    // What is named is what is looked up.
    if names_suite(task, suite) {
        if hands_text(task, gen, name, suite) {
            let vars = choose|vars: VarsView| #[trigger]
                hands_over(task, gen, vars) && vars.contains_key(name) && vars[name]
                    == ParamValueView::String(suite);
            law_variables_are_those_of_first_call(task, gen, vars);
            assert(resmoke_vars(task) == Some(vars));
        } else {
            let vars = choose|vars: VarsView| #[trigger]
                hands_over(task, run, vars) && vars.contains_key(name) && vars[name]
                    == ParamValueView::String(suite);
            law_variables_are_those_of_first_call(task, run, vars);
            if let Some(other) = task_call_vars(task, gen) {
                law_variables_are_those_of_first_call(task, gen, other);
            }
            assert(resmoke_vars(task) == Some(vars));
        }
        if suite == package + ":"@ + target && !target.contains(':') {
            law_text_behind_last(package, ':', target);
            assert(suite =~= package.push(':') + target);
        }
    }
    if forall|text: Seq<char>| !#[trigger] names_suite(task, text) {
        if let Some(vars) = resmoke_vars(task) {
            if let Some(text) = text_var(vars, name) {
                if let Some(first) = task_call_vars(task, gen) {
                    law_variables_are_those_of_first_call(task, gen, first);
                    assert(hands_text(task, gen, name, text));
                } else {
                    law_variables_are_those_of_first_call(task, run, vars);
                    assert(hands_text(task, run, name, text));
                    assert forall|other: VarsView| !#[trigger] hands_over(task, gen, other) by {
                        law_variables_are_those_of_first_call(task, gen, other);
                    }
                }
                assert(names_suite(task, text));
            }
        }
        law_gen_suffix_comes_off(suite);
    }
}

/// The names that a task depends on are those of its dependencies, in their order.
pub proof fn law_dependency_names_are_kept(task: EvgTaskView)
    ensures
        task.depends_on matches Some(dependencies) ==> dependency_names(task).len()
            == dependencies.len() && forall|i: int|
            0 <= i < dependencies.len() ==> #[trigger] dependency_names(task)[i]
                == dependencies[i].name,
        task.depends_on is None ==> dependency_names(task).len() == 0,
{
}

/// The dependencies of a task on a build variant are those of the first reference to it.
pub proof fn law_first_reference_gives_dependencies(
    tasks: Seq<TaskRefView>,
    name: Seq<char>,
    k: int,
)
    ensures
        0 <= k < tasks.len() && tasks[k].name == name && (forall|j: int|
            0 <= j < k ==> (#[trigger] tasks[j]).name != name) ==> task_ref_dependencies(
            tasks,
            name,
        ) == tasks[k].depends_on,
        (forall|j: int| 0 <= j < tasks.len() ==> (#[trigger] tasks[j]).name != name)
            ==> task_ref_dependencies(tasks, name) is None,
    decreases tasks.len(),
{
    if tasks.len() > 0 {
        let rest = tasks.drop_first();
        law_first_reference_gives_dependencies(rest, name, k - 1);
        if k > 0 && k < tasks.len() {
            assert(rest[k - 1] == tasks[k]);
        }
        assert(forall|j: int| 0 <= j < rest.len() ==> #[trigger] rest[j] == tasks[j + 1]);
    }
}

/// An expansion has the value that the build variant gives it, and none where it gives none.
pub proof fn law_expansions_have_their_values(variant: BuildVariantView, name: Seq<char>)
    ensures
        forall|value: Seq<char>| #[trigger]
            expands(variant, name, value) <==> expansion(variant, name) == Some(value),
{
}

/// A variable that is an expansion has the value of the expansion on the build variant, or its
/// default value where the build variant gives none. Any other variable stands for itself.
pub proof fn law_expansions_in_variables_are_replaced(
    text: Seq<char>,
    id: Seq<char>,
    default: Option<Seq<char>>,
    variant: BuildVariantView,
)
    ensures
        forall|value: Seq<char>| #[trigger]
            expands(variant, id, value) ==> translated_run_var(text, Some((id, default)), variant)
                == Some(value),
        (forall|value: Seq<char>| !#[trigger] expands(variant, id, value)) ==> translated_run_var(
            text,
            Some((id, default)),
            variant,
        ) == default,
        translated_run_var(text, None, variant) == Some(text),
{
    if let Some(value) = expansion(variant, id) {
        assert(expands(variant, id, value));
    }
}

/// A task has the tags that it carries.
pub proof fn law_tags_are_those_carried(task: EvgTaskView, tag: Seq<char>)
    ensures
        task_tags(task).contains(tag) <==> is_tagged(task, tag),
{
}

/// A build variant has the enterprise module unless some expansion switches its tests off.
pub proof fn law_enterprise_is_switched_off_by_expansions(variant: BuildVariantView)
    ensures
        enterprise_switched_off(variant) <==> exists|name: Seq<char>, value: Seq<char>| #[trigger]
            expands(variant, name, value) && regex_is_match(
                r"--enableEnterpriseTests\s*=?\s*off"@,
                value,
            ),
{
    let pattern = r"--enableEnterpriseTests\s*=?\s*off"@;
    if enterprise_switched_off(variant) {
        let expansions = variant.expansions.unwrap();
        let name = choose|name: Seq<char>| #[trigger]
            expansions.contains_key(name) && regex_is_match(pattern, expansions[name]);
        assert(expands(variant, name, expansions[name]));
    }
    if exists|name: Seq<char>, value: Seq<char>| #[trigger]
        expands(variant, name, value) && regex_is_match(pattern, value) {
        let (name, value) = choose|name: Seq<char>, value: Seq<char>| #[trigger]
            expands(variant, name, value) && regex_is_match(pattern, value);
        assert(variant.expansions.unwrap().contains_key(name));
    }
}

/// A build variant runs on the platform that the name of its first distro tells, in whatever case
/// it is written: on macOS or on Windows where it names them, and on Linux otherwise.
pub proof fn law_platform_is_told_by_first_distro(
    variant: BuildVariantView,
    distro: Seq<char>,
    at: int,
)
    requires
        variant.run_on matches Some(distros) ==> distros.len() > 0 ==> distros[0] == distro,
        variant.run_on is None || variant.run_on.unwrap().len() == 0 ==> distro == Seq::<
            char,
        >::empty(),
    ensures
        0 <= at && at + 5 <= lowercase(distro).len() && lowercase(distro).subrange(at, at + 5)
            == "macos"@ ==> variant_platform(variant) == "macos"@,
        (forall|a: int|
            0 <= a && a + 5 <= lowercase(distro).len() ==> #[trigger] lowercase(distro).subrange(
                a,
                a + 5,
            ) != "macos"@) && 0 <= at && at + 7 <= lowercase(distro).len() && lowercase(
            distro,
        ).subrange(at, at + 7) == "windows"@ ==> variant_platform(variant) == "windows"@,
        (forall|a: int|
            0 <= a && a + 5 <= lowercase(distro).len() ==> #[trigger] lowercase(distro).subrange(
                a,
                a + 5,
            ) != "macos"@) && (forall|a: int|
            0 <= a && a + 7 <= lowercase(distro).len() ==> #[trigger] lowercase(distro).subrange(
                a,
                a + 7,
            ) != "windows"@) ==> variant_platform(variant) == "linux"@,
{
    reveal_strlit("macos");
    reveal_strlit("windows");
    let name = lowercase(distro);
    assert(variant_platform(variant) == platform_of(name));
    lemma_occurrence(name, "macos"@, at);
    lemma_occurrence(name, "windows"@, at);
}

/// Where some build variant has a name, the last one of that name is found under it, and nothing
/// else is found.
pub proof fn law_last_build_variant_of_name_is_found(
    variants: Seq<BuildVariantView>,
    name: Seq<char>,
    k: int,
)
    ensures
        0 <= k < variants.len() && variants[k].name == name && (forall|j: int|
            k < j < variants.len() ==> (#[trigger] variants[j]).name != name)
            ==> build_variants_by_name(variants).contains_key(name) && build_variants_by_name(
            variants,
        )[name] == variants[k],
        build_variants_by_name(variants).contains_key(name) ==> exists|j: int|
            0 <= j < variants.len() && (#[trigger] variants[j]).name == name,
    decreases variants.len(),
{
    if variants.len() > 0 {
        let rest = variants.drop_last();
        law_last_build_variant_of_name_is_found(rest, name, k);
        assert(variants[variants.len() - 1] == variants.last());
        if build_variants_by_name(rest).contains_key(name) {
            let j = choose|j: int| 0 <= j < rest.len() && (#[trigger] rest[j]).name == name;
            assert(variants[j].name == name);
        }
        if 0 <= k < rest.len() {
            assert(rest[k] == variants[k]);
        }
    }
}

/// Where some task has a name, the last one of that name is found under it, and nothing else is
/// found.
pub proof fn law_last_task_of_name_is_found(tasks: Seq<EvgTaskView>, name: Seq<char>, k: int)
    ensures
        0 <= k < tasks.len() && tasks[k].name == name && (forall|j: int|
            k < j < tasks.len() ==> (#[trigger] tasks[j]).name != name) ==> tasks_by_name(
            tasks,
        ).contains_key(name) && tasks_by_name(tasks)[name] == tasks[k],
        tasks_by_name(tasks).contains_key(name) ==> exists|j: int|
            0 <= j < tasks.len() && (#[trigger] tasks[j]).name == name,
    decreases tasks.len(),
{
    if tasks.len() > 0 {
        let rest = tasks.drop_last();
        law_last_task_of_name_is_found(rest, name, k);
        assert(tasks[tasks.len() - 1] == tasks.last());
        if tasks_by_name(rest).contains_key(name) {
            let j = choose|j: int| 0 <= j < rest.len() && (#[trigger] rest[j]).name == name;
            assert(tasks[j].name == name);
        }
        if 0 <= k < rest.len() {
            assert(rest[k] == tasks[k]);
        }
    }
}

/// The directory of a module is its name in the prefix of the first module of that name.
pub proof fn law_module_stands_in_its_prefix(modules: Seq<EvgModuleView>, name: Seq<char>, k: int)
    ensures
        0 <= k < modules.len() && modules[k].name == name && (forall|j: int|
            0 <= j < k ==> (#[trigger] modules[j]).name != name) ==> module_dir(modules, name)
            == Some(modules[k].prefix + "/"@ + name),
        (forall|j: int| 0 <= j < modules.len() ==> (#[trigger] modules[j]).name != name)
            ==> module_dir(modules, name) is None,
    decreases modules.len(),
{
    if modules.len() > 0 {
        let rest = modules.drop_first();
        law_module_stands_in_its_prefix(rest, name, k - 1);
        if 0 < k < modules.len() {
            assert(rest[k - 1] == modules[k]);
        }
        assert(forall|j: int| 0 <= j < rest.len() ==> #[trigger] rest[j] == modules[j + 1]);
    }
}

/// The command at a place is the first one that calls a function, with variables.
pub open spec fn sets_up_at(
    commands: Seq<EvgCommand>,
    func: Seq<char>,
    k: int,
    entries: Seq<(String, ParamValue)>,
) -> bool {
    &&& 0 <= k < commands.len()
    &&& commands[k] matches EvgCommand::Function(call) && call.func@ == func && (
    call.vars matches Some(vars) && vars.entries() == entries)
    &&& forall|j: int|
        0 <= j < k ==> !((#[trigger] commands[j]) matches EvgCommand::Function(call) && call.func@
            == func)
}

/// A multiversion task is what an entry of the multiversion variables describes: it runs the suite
/// that is the key, without the package of a bazel target, against the version that is the value.
pub open spec fn describes(
    entry: (String, ParamValue),
    config: MultiversionGenerateTaskConfigView,
) -> bool {
    &&& entry.1 matches ParamValue::String(version) && config.old_version == version@
    &&& if "//"@.is_prefix_of(entry.0@) {
        &&& config.bazel_target == Some(entry.0@)
        &&& entry.0@.contains(':') ==> !config.suite_name.contains(':') && (":"@
            + config.suite_name).is_suffix_of(entry.0@)
    } else {
        config.bazel_target is None && config.suite_name == entry.0@
    }
}

pub(crate) proof fn lemma_call_vars(
    commands: Seq<EvgCommand>,
    func: Seq<char>,
    k: int,
    entries: Seq<(String, ParamValue)>,
)
    requires
        sets_up_at(commands, func, k, entries),
    ensures
        call_vars_in(commands, func) matches Some(vars) && vars.entries() == entries,
    decreases commands.len(),
{
    if k > 0 {
        let rest = commands.drop_first();
        assert(rest[k - 1] == commands[k]);
        assert(forall|j: int| 0 <= j < rest.len() ==> #[trigger] rest[j] == commands[j + 1]);
        assert(commands.first() == commands[0]);
        lemma_call_vars(rest, func, k - 1, entries);
    }
}

proof fn lemma_multiversion_tasks(entries: Seq<(String, ParamValue)>)
    ensures
        forall|i: int|
            0 <= i < entries.len() && (#[trigger] entries[i]).1 is String ==> exists|j: int|
                0 <= j < multiversion_tasks(entries).len() && describes(
                    entries[i],
                    #[trigger] multiversion_tasks(entries)[j],
                ),
        forall|j: int|
            0 <= j < multiversion_tasks(entries).len() ==> exists|i: int|
                0 <= i < entries.len() && describes(
                    #[trigger] entries[i],
                    #[trigger] multiversion_tasks(entries)[j],
                ),
        (forall|i: int| 0 <= i < entries.len() ==> (#[trigger] entries[i]).1 is String) ==> {
            &&& multiversion_tasks(entries).len() == entries.len()
            &&& forall|i: int|
                0 <= i < entries.len() ==> describes(
                    entries[i],
                    #[trigger] multiversion_tasks(entries)[i],
                )
        },
    decreases entries.len(),
{
    let tasks = multiversion_tasks(entries);
    if entries.len() > 0 {
        let rest = entries.drop_last();
        let before = multiversion_tasks(rest);
        let n = entries.len() - 1;
        lemma_multiversion_tasks(rest);
        let key = entries[n].0@;
        if entries[n].1 is String {
            let config = tasks.last();
            assert(tasks == before.push(config));
            if "//"@.is_prefix_of(key) && key.contains(':') {
                lemma_behind_last_colon(key);
            }
            assert(describes(entries[n], tasks[before.len() as int]));
        } else {
            assert(tasks == before);
        }
        assert forall|i: int| 0 <= i < entries.len() && (#[trigger] entries[i]).1 is String implies
            exists|j: int| 0 <= j < tasks.len() && describes(entries[i], #[trigger] tasks[j]) by {
            if i < n {
                assert(rest[i] == entries[i]);
                let j = choose|j: int|
                    0 <= j < before.len() && describes(rest[i], #[trigger] before[j]);
                assert(tasks[j] == before[j]);
            } else {
                assert(describes(entries[i], tasks[before.len() as int]));
            }
        }
        assert forall|j: int| 0 <= j < tasks.len() implies exists|i: int|
            0 <= i < entries.len() && describes(#[trigger] entries[i], #[trigger] tasks[j]) by {
            if j < before.len() {
                let i = choose|i: int|
                    0 <= i < rest.len() && describes(#[trigger] rest[i], #[trigger] before[j]);
                assert(entries[i] == rest[i] && tasks[j] == before[j]);
            } else {
                assert(describes(entries[n], tasks[j]));
            }
        }
        if forall|i: int| 0 <= i < entries.len() ==> (#[trigger] entries[i]).1 is String {
            assert forall|i: int| 0 <= i < rest.len() implies (#[trigger] rest[i]).1 is String by {
                assert(rest[i] == entries[i]);
            }
            assert forall|i: int| 0 <= i < entries.len() implies describes(
                entries[i],
                #[trigger] tasks[i],
            ) by {
                if i < n {
                    assert(rest[i] == entries[i] && before[i] == tasks[i]);
                    assert(describes(rest[i], before[i]));
                }
            }
        }
    }
}

proof fn lemma_behind_last_colon(key: Seq<char>)
    requires
        key.contains(':'),
    ensures
        !crate::utils::text::after_last(key, ':').contains(':'),
        (":"@ + crate::utils::text::after_last(key, ':')).is_suffix_of(key),
{
    reveal_strlit(":");
    crate::utils::text_laws::lemma_behind_last(key, ':');
    let name = crate::utils::text::after_last(key, ':');
    let start = key.len() - name.len();
    assert((":"@ + name) =~= key.subrange(start - 1, key.len() as int));
}

/// The multiversion tasks of a task are those that the first call of 'initialize multiversion
/// tasks' describes, in their order.
pub proof fn law_multiversion_tasks_are_described(
    task: EvgTask,
    k: int,
    entries: Seq<(String, ParamValue)>,
)
    requires
        task.commands matches Some(commands) && sets_up_at(
            commands@,
            "initialize multiversion tasks"@,
            k,
            entries,
        ),
    ensures
        multiversion_tasks_of(task) is Some,
        forall|i: int|
            0 <= i < entries.len() && (#[trigger] entries[i]).1 is String ==> exists|j: int|
                0 <= j < multiversion_tasks_of(task).unwrap().len() && describes(
                    entries[i],
                    #[trigger] multiversion_tasks_of(task).unwrap()[j],
                ),
        forall|j: int|
            0 <= j < multiversion_tasks_of(task).unwrap().len() ==> exists|i: int|
                0 <= i < entries.len() && describes(
                    #[trigger] entries[i],
                    #[trigger] multiversion_tasks_of(task).unwrap()[j],
                ),
        (forall|i: int| 0 <= i < entries.len() ==> (#[trigger] entries[i]).1 is String)
            ==> multiversion_tasks_of(task).unwrap().len() == entries.len() && forall|i: int|
            0 <= i < entries.len() ==> describes(
                entries[i],
                #[trigger] multiversion_tasks_of(task).unwrap()[i],
            ),
{
    lemma_call_vars(task.commands.unwrap()@, "initialize multiversion tasks"@, k, entries);
    lemma_multiversion_tasks(entries);
    let tasks = multiversion_tasks(entries);
    assert(multiversion_tasks_of(task) == Some(tasks));
    assert forall|i: int| 0 <= i < entries.len() && (#[trigger] entries[i]).1 is String implies
        exists|j: int|
        0 <= j < multiversion_tasks_of(task).unwrap().len() && describes(
            entries[i],
            #[trigger] multiversion_tasks_of(task).unwrap()[j],
        ) by {
        let j = choose|j: int| 0 <= j < tasks.len() && describes(entries[i], #[trigger] tasks[j]);
        assert(describes(entries[i], multiversion_tasks_of(task).unwrap()[j]));
    }
}

/// A task that does not set up multiversion tasks has none.
pub proof fn law_other_tasks_have_no_multiversion_tasks(task: EvgTask)
    requires
        task.commands matches Some(commands) ==> forall|k: int|
            0 <= k < commands@.len() ==> !((#[trigger] commands@[k]) matches EvgCommand::Function(
                call,
            ) && call.func@ == "initialize multiversion tasks"@),
    ensures
        multiversion_tasks_of(task) is None,
{
    if let Some(commands) = task.commands {
        lemma_no_call_vars(commands@, "initialize multiversion tasks"@);
    }
}

proof fn lemma_no_call_vars(commands: Seq<EvgCommand>, func: Seq<char>)
    requires
        forall|k: int|
            0 <= k < commands.len() ==> !((#[trigger] commands[k]) matches EvgCommand::Function(
                call,
            ) && call.func@ == func),
    ensures
        call_vars_in(commands, func) is None,
    decreases commands.len(),
{
    if commands.len() > 0 {
        let rest = commands.drop_first();
        assert forall|k: int| 0 <= k < rest.len() implies !(
        (#[trigger] rest[k]) matches EvgCommand::Function(call) && call.func@ == func) by {
            assert(rest[k] == commands[k + 1]);
        }
        assert(commands.first() == commands[0]);
        lemma_no_call_vars(rest, func);
    }
}

/// A word stands in the value of an expansion.
pub open spec fn lists_word(variant: BuildVariantView, name: Seq<char>, word: Seq<char>) -> bool {
    exists|value: Seq<char>, a: int, b: int| #[trigger]
        expands(variant, name, value) && #[trigger] is_word_at(value, a, b) && value.subrange(a, b)
            == word
}

proof fn lemma_words_of_expansion(variant: BuildVariantView, name: Seq<char>, word: Seq<char>)
    ensures
        expansion_words(variant, name).contains(word) <==> lists_word(variant, name, word),
{
    match expansion(variant, name) {
        Some(value) => {
            law_words_are_found(value, word);
            assert(expands(variant, name, value));
            if expansion_words(variant, name).contains(word) {
                let (a, b) = choose|a: int, b: int| #[trigger]
                    is_word_at(value, a, b) && value.subrange(a, b) == word;
                assert(expands(variant, name, value) && is_word_at(value, a, b));
            }
        },
        None => {},
    }
}

/// The build variants for burn_in_tags are those that the one which asks for them lists, and all
/// required and suggested ones where it asks for these, but none that it excludes.
pub proof fn law_burn_in_tag_variants_are_those_asked_for(
    variant: BuildVariantView,
    variant_map: Map<Seq<char>, BuildVariantView>,
    name: Seq<char>,
)
    ensures
        is_burn_in_tag_variant(variant, variant_map, name) <==> {
            &&& !lists_word(variant, "burn_in_tag_exclude_build_variants"@, name)
            &&& {
                ||| lists_word(variant, "burn_in_tag_include_build_variants"@, name)
                ||| {
                    &&& expands(
                        variant,
                        "burn_in_tag_include_all_required_and_suggested"@,
                        "true"@,
                    )
                    &&& variant_map.contains_key(name)
                    &&& variant_map[name].display_name matches Some(shown) && (
                    "!"@.is_prefix_of(shown) || "*"@.is_prefix_of(shown))
                }
            }
        },
{
    lemma_words_of_expansion(variant, "burn_in_tag_exclude_build_variants"@, name);
    lemma_words_of_expansion(variant, "burn_in_tag_include_build_variants"@, name);
    reveal_strlit("!");
    reveal_strlit("*");
    reveal_strlit("true");
    reveal_strlit("false");
    if variant_map.contains_key(name) {
        if let Some(shown) = variant_map[name].display_name {
            assert("!"@.is_prefix_of(shown) <==> shown.len() > 0 && shown[0] == '!') by {
                if shown.len() > 0 {
                    assert(shown.subrange(0, 1)[0] == shown[0]);
                    if shown[0] == '!' {
                        assert(shown.subrange(0, 1) =~= "!"@);
                    }
                }
            }
            assert("*"@.is_prefix_of(shown) <==> shown.len() > 0 && shown[0] == '*') by {
                if shown.len() > 0 {
                    assert(shown.subrange(0, 1)[0] == shown[0]);
                    if shown[0] == '*' {
                        assert(shown.subrange(0, 1) =~= "*"@);
                    }
                }
            }
            assert(required_or_suggested(variant_map[name]) <==> "!"@.is_prefix_of(shown)
                || "*"@.is_prefix_of(shown));
        }
    }
    let all = "burn_in_tag_include_all_required_and_suggested"@;
    assert(includes_all_required(variant) == Some(true) <==> expands(variant, all, "true"@));
}

/// The text 'true' is true, the text 'false' is false, and no other text is either.
pub proof fn law_truth_values_are_spelled_out(text: Seq<char>)
    ensures
        parsed_bool(text) == Some(true) <==> text == "true"@,
        parsed_bool(text) == Some(false) <==> text == "false"@,
{
    reveal_strlit("true");
    reveal_strlit("false");
    assert("true"@.len() != "false"@.len());
}

} // verus!
