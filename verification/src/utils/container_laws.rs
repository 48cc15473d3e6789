//! What holds of the entries of maps, and of what it takes to load nodes inside one another.

use vstd::prelude::*;

use crate::utils::lists::kept;
use crate::utils::string_map::{
    collected, distinct_keys, has_key, inserted, key_at, lemma_entry, map_of,
};
use crate::utils::yaml_events::{
    after_event, after_node, is_light, is_loadable, is_too_heavy, weighed, yaml_events,
    WeighingView, Weight, YamlEvent,
};

verus! {

/// A value that is put into a map takes the place of the one under its key, or comes last. The
/// entries around it stay.
pub proof fn law_entries_keep_their_places<V>(
    entries: Seq<(String, V)>,
    key: String,
    value: V,
    i: int,
)
    requires
        0 <= i < entries.len(),
    ensures
        inserted(entries, key, value)[i].0@ == entries[i].0@,
        entries[i].0@ != key@ ==> inserted(entries, key, value)[i] == entries[i],
        entries[i].0@ == key@ ==> inserted(entries, key, value)[i].1 == value
            && inserted(entries, key, value).len() == entries.len(),
        (forall|j: int| 0 <= j < entries.len() ==> (#[trigger] entries[j]).0@ != key@) ==> inserted(
            entries,
            key,
            value,
        ) == entries.push((key, value)),
{
    if entries[i].0@ == key@ {
        assert(key_at(entries, i, key@));
    }
    if forall|j: int| 0 <= j < entries.len() ==> (#[trigger] entries[j]).0@ != key@ {
        assert(!has_key(entries, key@)) by {
            if has_key(entries, key@) {
                let j = choose|j: int| key_at(entries, j, key@);
                assert(entries[j].0@ == key@);
            }
        }
    }
}

/// The map of entries with a further one has it under its key, and is the same otherwise.
pub proof fn law_maps_hold_what_is_put_in<V>(
    entries: Seq<(String, V)>,
    key: String,
    value: V,
    other: Seq<char>,
)
    requires
        distinct_keys(entries),
    ensures
        distinct_keys(inserted(entries, key, value)),
        map_of(inserted(entries, key, value)).contains_key(key@),
        map_of(inserted(entries, key, value))[key@] == value,
        other != key@ ==> (map_of(inserted(entries, key, value)).contains_key(other) <==> map_of(
            entries,
        ).contains_key(other)),
        other != key@ && map_of(entries).contains_key(other) ==> map_of(
            inserted(entries, key, value),
        )[other] == map_of(entries)[other],
{
    let after = inserted(entries, key, value);
    assert forall|i: int, j: int|
        #![trigger after[i], after[j]]
        0 <= i < j < after.len() implies after[i].0@ != after[j].0@ by {
        if j < entries.len() {
            assert(entries[i].0@ != entries[j].0@);
        } else {
            assert(!key_at(entries, i, key@));
        }
    }
    let place = if has_key(entries, key@) {
        choose|i: int| key_at(entries, i, key@)
    } else {
        entries.len() as int
    };
    assert(after[place].0@ == key@ && after[place].1 == value);
    lemma_entry(after, place);
    if other != key@ {
        if has_key(entries, other) {
            let i = choose|i: int| key_at(entries, i, other);
            assert(key_at(after, i, other));
            lemma_entry(after, i);
            lemma_entry(entries, i);
        }
        if has_key(after, other) {
            let i = choose|i: int| key_at(after, i, other);
            assert(key_at(entries, i, other));
        }
    }
}

/// Pairs are put into a map one after the other, so that the last one of a key counts.
pub proof fn law_last_pair_of_a_key_counts<V>(
    pairs: Seq<(String, V)>,
    more: (String, V),
    other: Seq<char>,
)
    ensures
        collected(Seq::<(String, V)>::empty()).len() == 0,
        distinct_keys(collected(pairs)),
        map_of(collected(pairs.push(more))).contains_key(more.0@),
        map_of(collected(pairs.push(more)))[more.0@] == more.1,
        other != more.0@ ==> (map_of(collected(pairs.push(more))).contains_key(other) <==> map_of(
            collected(pairs),
        ).contains_key(other)),
        other != more.0@ && map_of(collected(pairs)).contains_key(other) ==> map_of(
            collected(pairs.push(more)),
        )[other] == map_of(collected(pairs))[other],
    decreases pairs.len(),
{
    if pairs.len() > 0 {
        law_last_pair_of_a_key_counts(pairs.drop_last(), pairs.last(), other);
        law_maps_hold_what_is_put_in(
            collected(pairs.drop_last()),
            pairs.last().0,
            pairs.last().1,
            other,
        );
    }
    assert(pairs.push(more).drop_last() =~= pairs);
    law_maps_hold_what_is_put_in(collected(pairs), more.0, more.1, other);
}

/// Items that are flagged are kept in their order, as often as they occur.
pub proof fn law_flagged_items_keep_their_order<T>(
    items: Seq<T>,
    keep: Seq<bool>,
    more: T,
    keep_too: bool,
)
    requires
        items.len() == keep.len(),
    ensures
        kept(Seq::<T>::empty(), Seq::empty()).len() == 0,
        keep_too ==> kept(items.push(more), keep.push(true)) == kept(items, keep).push(more),
        !keep_too ==> kept(items.push(more), keep.push(false)) == kept(items, keep),
{
    assert(items.push(more).drop_last() =~= items);
    assert(keep.push(keep_too).drop_last() =~= keep);
}

/// The larger of two numbers.
pub open spec fn larger(a: int, b: int) -> int {
    if a < b {
        b
    } else {
        a
    }
}

/// A list or map is one level deeper than the deepest node in it, and counts them all and itself.
pub proof fn law_lists_are_deeper_than_their_nodes(
    state: WeighingView,
    id: usize,
    first: Weight,
    second: Weight,
)
    requires
        1 <= first.levels,
        1 <= second.levels,
        larger(first.levels as int, second.levels as int) < 150,
        1 + first.nodes + second.nodes <= 50_000_000,
    ensures
        after_event(
            after_node(
                after_node(after_event(state, YamlEvent::SequenceStart(id)), 0, first),
                0,
                second,
            ),
            YamlEvent::SequenceEnd,
        ) == after_node(
            state,
            id,
            Weight {
                levels: (1 + larger(first.levels as int, second.levels as int)) as u64,
                nodes: (1 + first.nodes + second.nodes) as u64,
            },
        ),
        after_event(
            after_node(
                after_node(after_event(state, YamlEvent::MappingStart(id)), 0, first),
                0,
                second,
            ),
            YamlEvent::MappingEnd,
        ) == after_node(
            state,
            id,
            Weight {
                levels: (1 + larger(first.levels as int, second.levels as int)) as u64,
                nodes: (1 + first.nodes + second.nodes) as u64,
            },
        ),
{
    let opened = after_event(state, YamlEvent::SequenceStart(id));
    let one = after_node(opened, 0, first);
    let two = after_node(one, 0, second);
    assert(opened.open.drop_last() =~= state.open);
    assert(one.open.drop_last() =~= state.open);
    assert(two.open.drop_last() =~= state.open);
}

/// A name stands for the node that it was given to.
pub proof fn law_names_weigh_what_they_stand_for(state: WeighingView, id: usize, weight: Weight)
    requires
        id > 0,
    ensures
        after_event(after_node(state, id, weight), YamlEvent::Alias(id)) == after_node(
            after_node(state, id, weight),
            0,
            weight,
        ),
        after_event(state, YamlEvent::Scalar(id)) == after_node(
            state,
            id,
            Weight { levels: 1, nodes: 1 },
        ),
{
}

/// What is at most so deep and so large is loaded, and nothing else.
pub proof fn law_light_nodes_are_loaded(weight: Weight)
    ensures
        is_light(weight) <==> weight.levels <= 150 && weight.nodes <= 50_000_000,
{
}

/// Events are weighed one after the other, from nothing on.
pub proof fn law_events_are_weighed_in_turn(events: Seq<YamlEvent>, more: YamlEvent)
    ensures
        weighed(Seq::empty()).open.len() == 0,
        weighed(Seq::empty()).total == (Weight { levels: 0, nodes: 0 }),
        weighed(events.push(more)) == after_event(weighed(events), more),
{
    assert(events.push(more).drop_last() =~= events);
}

/// A text that can be read at all is loaded or is too heavy for that, and never both.
pub proof fn law_texts_are_loaded_or_too_heavy(text: Seq<char>)
    ensures
        !(is_loadable(text) && is_too_heavy(text)),
        yaml_events(text) is Some <==> is_loadable(text) || is_too_heavy(text),
        yaml_events(text) matches Some(events) ==> (is_loadable(text) <==> weighed(
            events,
        ).total.levels <= 150 && weighed(events).total.nodes <= 50_000_000),
{
}

} // verus!
