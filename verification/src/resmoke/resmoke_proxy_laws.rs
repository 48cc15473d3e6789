//! What holds of querying details from resmoke.

use vstd::prelude::*;

use crate::resmoke::resmoke_proxy::{
    after_batch, batch_count, batch_of, outcome_problem, seeded, BatchOutcomeView,
    DiscoveryStepView, ResmokeProxy, TestDiscoveryOutputView, BATCH_SIZE,
};
use crate::utils::lists::kept;

verus! {

/// The suites of the first `k` batches, one batch after the other.
pub open spec fn first_batches(suites: Seq<Seq<char>>, k: int) -> Seq<Seq<char>>
    decreases k,
{
    if k <= 0 {
        Seq::empty()
    } else {
        first_batches(suites, k - 1) + batch_of(suites, k - 1)
    }
}

/// The first batches hold the first suites.
proof fn lemma_first_batches(suites: Seq<Seq<char>>, k: int)
    requires
        0 <= k <= batch_count(suites.len()),
    ensures
        first_batches(suites, k) == suites.take(
            if k * BATCH_SIZE < suites.len() {
                k * BATCH_SIZE
            } else {
                suites.len() as int
            },
        ),
    decreases k,
{
    if k > 0 {
        lemma_first_batches(suites, k - 1);
        let start = (k - 1) * BATCH_SIZE;
        let end = if k * BATCH_SIZE < suites.len() {
            k * BATCH_SIZE
        } else {
            suites.len() as int
        };
        assert(start < suites.len());
        assert(suites.take(start) + suites.subrange(start, end) =~= suites.take(end));
    } else {
        assert(suites.take(0) =~= Seq::<Seq<char>>::empty());
    }
}

/// The batches hold all the suites, in their order.
pub proof fn law_batches_hold_all_suites(suites: Seq<Seq<char>>)
    ensures
        first_batches(suites, batch_count(suites.len())) == suites,
{
    let n = batch_count(suites.len());
    lemma_first_batches(suites, n);
    assert(suites.take(suites.len() as int) =~= suites);
}

/// No batch is empty, and none holds more suites than resmoke is asked for at once.
pub proof fn law_batches_are_bounded(suites: Seq<Seq<char>>, k: int)
    requires
        0 <= k < batch_count(suites.len()),
    ensures
        0 < batch_of(suites, k).len() <= BATCH_SIZE,
{
}

/// What an answer for several suites says of one of them is what is found under its name afterwards,
/// if the suite was asked for once.
pub proof fn law_seeded_tests_are_found(
    cache: Map<Seq<char>, Seq<Seq<char>>>,
    batch: Seq<Seq<char>>,
    docs: Seq<TestDiscoveryOutputView>,
    existing: Seq<Seq<bool>>,
    i: int,
)
    requires
        batch.no_duplicates(),
        docs.len() == batch.len(),
        existing.len() == batch.len(),
        0 <= i < batch.len(),
    ensures
        seeded(cache, batch, docs, existing).contains_key(batch[i]),
        seeded(cache, batch, docs, existing)[batch[i]] == kept(docs[i].tests, existing[i]),
    decreases batch.len(),
{
    if i < batch.len() - 1 {
        assert(batch.drop_last().no_duplicates());
        assert(batch.drop_last()[i] == batch[i]);
        assert(docs.drop_last()[i] == docs[i]);
        assert(existing.drop_last()[i] == existing[i]);
        law_seeded_tests_are_found(
            cache,
            batch.drop_last(),
            docs.drop_last(),
            existing.drop_last(),
            i,
        );
        assert(batch.last() == batch[batch.len() - 1]);
    }
}

/// An answer for several suites leaves what is known of other suites as it is.
pub proof fn law_seeding_keeps_other_suites(
    cache: Map<Seq<char>, Seq<Seq<char>>>,
    batch: Seq<Seq<char>>,
    docs: Seq<TestDiscoveryOutputView>,
    existing: Seq<Seq<bool>>,
    suite: Seq<char>,
)
    requires
        docs.len() == batch.len(),
        existing.len() == batch.len(),
        !batch.contains(suite),
    ensures
        seeded(cache, batch, docs, existing).contains_key(suite) == cache.contains_key(suite),
        cache.contains_key(suite) ==> seeded(cache, batch, docs, existing)[suite] == cache[suite],
    decreases batch.len(),
{
    if batch.len() > 0 {
        assert(batch.contains(batch[batch.len() - 1]));
        assert(!batch.drop_last().contains(suite)) by {
            if batch.drop_last().contains(suite) {
                let j = batch.drop_last().index_of(suite);
                assert(batch[j] == suite);
            }
        }
        law_seeding_keeps_other_suites(
            cache,
            batch.drop_last(),
            docs.drop_last(),
            existing.drop_last(),
            suite,
        );
    }
}

/// Nothing of a useless answer for several suites is used: how to get at the tests of a suite is what
/// it was before, and where they were not known, that is to ask for this suite alone.
pub proof fn law_useless_answers_leave_no_trace(
    before: ResmokeProxy,
    after: ResmokeProxy,
    batch: Seq<Seq<char>>,
    outcome: BatchOutcomeView,
    suite: Seq<char>,
)
    requires
        after.same_setup(&before),
        after.discovery_cache.deep_view() == after_batch(
            before.discovery_cache.deep_view(),
            before.configs(),
            batch,
            outcome,
        ),
        outcome_problem(before.configs(), batch, outcome) is Some,
    ensures
        after.step_for(suite) == before.step_for(suite),
        !before.discovery_cache.deep_view().contains_key(suite) ==> after.step_for(suite)
            == (DiscoveryStepView::Ask { command: before.discovery_command(seq![suite]) }),
{
}

/// Only tests of the answer are kept, and all of them that exist.
pub proof fn law_existing_tests_are_kept(tests: Seq<Seq<char>>, existing: Seq<bool>, test: Seq<char>)
    requires
        tests.len() == existing.len(),
    ensures
        kept(tests, existing).contains(test) <==> exists|i: int|
            0 <= i < tests.len() && #[trigger] tests[i] == test && existing[i],
    decreases tests.len(),
{
    if tests.len() > 0 {
        let n = tests.len() - 1;
        let rest = kept(tests.drop_last(), existing.drop_last());
        law_existing_tests_are_kept(tests.drop_last(), existing.drop_last(), test);
        if kept(tests, existing).contains(test) {
            if existing.last() && tests.last() == test {
                assert(tests[n] == test && existing[n]);
            } else {
                assert(rest.contains(test)) by {
                    let k = kept(tests, existing).index_of(test);
                    assert(rest[k] == test);
                }
                let i = choose|i: int|
                    0 <= i < tests.drop_last().len() && #[trigger] tests.drop_last()[i] == test
                        && existing.drop_last()[i];
                assert(tests[i] == test && existing[i]);
            }
        }
        if exists|i: int| 0 <= i < tests.len() && #[trigger] tests[i] == test && existing[i] {
            let i = choose|i: int| 0 <= i < tests.len() && #[trigger] tests[i] == test && existing[i];
            if i < n {
                assert(tests.drop_last()[i] == test && existing.drop_last()[i]);
                let k = rest.index_of(test);
                assert(kept(tests, existing)[k] == test);
            } else {
                assert(kept(tests, existing)[rest.len() as int] == test);
            }
        }
    }
}

} // verus!
