//! What holds of the runtime history of a task.

use vstd::prelude::*;

use crate::evergreen::evg_task_history::{
    base_name, hook_stats, hooks_of, key_of, normalized, runs_of, test_stats, total_duration,
    HookRuntimeHistoryView, S3TestStatsView, TestRuntimeHistoryView,
};
use crate::utils::text_laws::{law_endings_come_off, law_text_before_first, law_text_behind_last};

verus! {

/// A file is written with slashes in place of the backslashes of another text.
pub open spec fn has_slashes_of(file: Seq<char>, text: Seq<char>) -> bool {
    &&& file.len() == text.len()
    &&& forall|i: int|
        0 <= i < text.len() ==> #[trigger] file[i] == (if text[i] == '\\' {
            '/'
        } else {
            text[i]
        })
}

/// Test files are written with slashes, and are otherwise kept.
pub proof fn law_test_files_have_slashes(text: Seq<char>, file: Seq<char>)
    ensures
        has_slashes_of(normalized(text), text),
        has_slashes_of(file, text) ==> normalized(text) == file,
{
    if has_slashes_of(file, text) {
        assert(normalized(text) =~= file);
    }
}

/// The base name of a test file is what stands behind its last slash, without the extension of
/// tests.
pub proof fn law_base_names_have_no_directory(directory: Seq<char>, name: Seq<char>)
    requires
        !name.contains('/'),
        !".js"@.is_suffix_of(name),
    ensures
        base_name(directory + "/"@ + name + ".js"@) == name,
        base_name(directory + "/"@ + name) == name,
        base_name(name + ".js"@) == name,
        base_name(name) == name,
{
    reveal_strlit("/");
    reveal_strlit(".js");
    assert(".js"@.len() == 3);
    let with_extension = name + ".js"@;
    assert(!with_extension.contains('/')) by {
        if with_extension.contains('/') {
            let i = with_extension.index_of('/');
            if i < name.len() {
                assert(name[i] == '/');
            } else {
                assert(".js"@[i - name.len()] == '/');
            }
        }
    }
    law_text_behind_last(directory, '/', with_extension);
    law_text_behind_last(directory, '/', name);
    assert(directory + "/"@ + name + ".js"@ =~= directory.push('/') + with_extension);
    assert(directory + "/"@ + name =~= directory.push('/') + name);
    law_endings_come_off(name, ".js"@);
}

/// A result is that of a hook that ran with a test.
pub open spec fn is_of_hook(stats: S3TestStatsView, test: Seq<char>, hook: Seq<char>) -> bool {
    &&& has_slashes_of(test + ":"@ + hook, stats.test_name)
    &&& !test.contains(':')
    &&& !hook.contains(':')
}

/// A result is that of a test itself.
pub open spec fn is_of_test(stats: S3TestStatsView, file: Seq<char>) -> bool {
    has_slashes_of(file, stats.test_name) && !file.contains(':')
}

/// The hooks that a map holds for a test.
pub open spec fn hooks_in(
    map: Map<Seq<char>, Seq<HookRuntimeHistoryView>>,
    test: Seq<char>,
) -> Seq<HookRuntimeHistoryView> {
    if map.contains_key(test) {
        map[test]
    } else {
        Seq::empty()
    }
}

/// A result of a hook joins those of the hooks of its test, with its name and its runtime, and no
/// others.
pub proof fn law_hooks_are_kept_by_test(
    stats: Seq<S3TestStatsView>,
    more: S3TestStatsView,
    test: Seq<char>,
    hook: Seq<char>,
    other: Seq<char>,
)
    requires
        is_of_hook(more, test, hook),
        other != test,
    ensures
        hook_stats(stats.push(more)).contains_key(test),
        hook_stats(stats.push(more))[test] == hooks_in(hook_stats(stats), test).push(
            HookRuntimeHistoryView {
                test_name: test,
                hook_name: hook,
                average_runtime: more.avg_duration_pass,
            },
        ),
        hooks_in(hook_stats(stats.push(more)), other) == hooks_in(hook_stats(stats), other),
        hook_stats(stats.push(more)).contains_key(other) <==> hook_stats(stats).contains_key(other),
        hook_stats(Seq::empty()) == Map::<Seq<char>, Seq<HookRuntimeHistoryView>>::empty(),
{
    let file = test + ":"@ + hook;
    reveal_strlit(":");
    assert(":"@ =~= seq![':']);
    law_test_files_have_slashes(more.test_name, file);
    assert(file[test.len() as int] == ':');
    law_text_before_first(test, ':', hook);
    law_text_behind_last(test, ':', hook);
    assert(file =~= test + seq![':'] + hook);
    assert(file =~= test.push(':') + hook);
    assert(stats.push(more).drop_last() =~= stats);
    assert(hook_stats(Seq::empty()) =~= Map::<Seq<char>, Seq<HookRuntimeHistoryView>>::empty());
    if !hook_stats(stats).contains_key(test) {
        assert(hooks_of(stats, test) =~= Seq::<HookRuntimeHistoryView>::empty());
    }
}

/// Results of tests say nothing of hooks, and results of hooks say nothing of the runtime of tests.
pub proof fn law_tests_and_hooks_are_told_apart(
    stats: Seq<S3TestStatsView>,
    more: S3TestStatsView,
    file: Seq<char>,
    test: Seq<char>,
    hook: Seq<char>,
    hooks: Map<Seq<char>, Seq<HookRuntimeHistoryView>>,
)
    ensures
        is_of_test(more, file) ==> hook_stats(stats.push(more)) == hook_stats(stats),
        is_of_hook(more, test, hook) ==> test_stats(stats.push(more), hooks) == test_stats(
            stats,
            hooks,
        ),
{
    assert(stats.push(more).drop_last() =~= stats);
    if is_of_test(more, file) {
        law_test_files_have_slashes(more.test_name, file);
        assert forall|name: Seq<char>| #[trigger] hooks_of(stats.push(more), name) == hooks_of(
            stats,
            name,
        ) by {}
        assert(hook_stats(stats.push(more)) =~= hook_stats(stats));
    }
    if is_of_hook(more, test, hook) {
        let name = test + ":"@ + hook;
        law_test_files_have_slashes(more.test_name, name);
        reveal_strlit(":");
        assert(name[test.len() as int] == ':');
        assert forall|name: Seq<char>| #[trigger] runs_of(stats.push(more), name) == runs_of(
            stats,
            name,
        ) by {}
        assert(test_stats(stats.push(more), hooks) =~= test_stats(stats, hooks));
    }
}

/// The runtime that a map holds for a test.
pub open spec fn runtime_in(map: Map<Seq<char>, TestRuntimeHistoryView>, test: Seq<char>) -> int {
    if map.contains_key(test) {
        map[test].average_runtime as int
    } else {
        0
    }
}

/// A result of a test is found under the base name of the test. Its runtime counts with the results
/// of that name so far, it gives the file, and the hooks of the test stand beside it. No other test
/// is touched.
pub proof fn law_tests_are_kept_by_base_name(
    stats: Seq<S3TestStatsView>,
    more: S3TestStatsView,
    file: Seq<char>,
    hooks: Map<Seq<char>, Seq<HookRuntimeHistoryView>>,
    other: Seq<char>,
)
    requires
        is_of_test(more, file),
        i64::MIN <= total_duration(runs_of(stats, base_name(file))) <= i64::MAX,
        i64::MIN <= total_duration(runs_of(stats.push(more), base_name(file))) <= i64::MAX,
        other != base_name(file),
    ensures
        test_stats(stats.push(more), hooks).contains_key(base_name(file)),
        test_stats(stats.push(more), hooks)[base_name(file)].test_name == file,
        test_stats(stats.push(more), hooks)[base_name(file)].average_runtime == runtime_in(
            test_stats(stats, hooks),
            base_name(file),
        ) + more.avg_duration_pass,
        test_stats(stats.push(more), hooks)[base_name(file)].hooks == hooks_in(
            hooks,
            base_name(file),
        ),
        test_stats(stats.push(more), hooks).contains_key(other) <==> test_stats(
            stats,
            hooks,
        ).contains_key(other),
        test_stats(stats, hooks).contains_key(other) ==> test_stats(stats.push(more), hooks)[other]
            == test_stats(stats, hooks)[other],
        test_stats(Seq::empty(), hooks) == Map::<Seq<char>, TestRuntimeHistoryView>::empty(),
{
    law_test_files_have_slashes(more.test_name, file);
    assert(stats.push(more).drop_last() =~= stats);
    let name = base_name(file);
    let runs = runs_of(stats, name);
    assert(runs_of(stats.push(more), name) == runs.push(more));
    assert(runs.push(more).drop_last() =~= runs);
    assert(runs_of(stats.push(more), other) == runs_of(stats, other));
    assert(test_stats(Seq::empty(), hooks) =~= Map::<Seq<char>, TestRuntimeHistoryView>::empty());
}

/// The stats of a task are stored under the project, then the build variant, then the task.
pub proof fn law_stats_are_stored_by_task(project: Seq<char>, variant: Seq<char>, task: Seq<char>)
    ensures
        key_of(project, variant, task) == project.push('/') + variant.push('/') + task,
{
    reveal_strlit("/");
    assert(key_of(project, variant, task) =~= project.push('/') + variant.push('/') + task);
}

} // verus!
