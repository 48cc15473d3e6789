//! Operations on lists of texts.

use vstd::prelude::*;

use crate::utils::text::{split_on, split_text};

verus! {

/// The items whose flag is set, in their order.
pub open spec fn kept<T>(items: Seq<T>, keep: Seq<bool>) -> Seq<T>
    decreases items.len(),
{
    if items.len() == 0 || keep.len() == 0 {
        Seq::empty()
    } else {
        let rest = kept(items.drop_last(), keep.drop_last());
        if keep.last() {
            rest.push(items.last())
        } else {
            rest
        }
    }
}

/// Keep the texts whose flag is set.
///
/// # Arguments
///
/// * `texts` - Texts to choose from.
/// * `keep` - For each of the texts, should it be kept.
pub fn keep_flagged(texts: &Vec<String>, keep: &Vec<bool>) -> (result: Vec<String>)
    requires
        texts@.len() == keep@.len(),
    ensures
        result.deep_view() == kept(texts.deep_view(), keep@),
{
    let mut result: Vec<String> = Vec::new();
    let ghost all = texts.deep_view();
    let mut i: usize = 0;
    assert(result.deep_view() =~= kept(all.take(0), keep@.take(0)));
    while i < texts.len()
        invariant
            i <= texts@.len(),
            texts@.len() == keep@.len(),
            all == texts.deep_view(),
            result.deep_view() == kept(all.take(i as int), keep@.take(i as int)),
        decreases texts@.len() - i,
    {
        let ghost before = result.deep_view();
        assert(all.take(i + 1).drop_last() =~= all.take(i as int));
        assert(keep@.take(i + 1).drop_last() =~= keep@.take(i as int));
        if keep[i] {
            result.push(texts[i].clone());
            assert(result.deep_view() =~= before.push(all[i as int]));
        }
        i += 1;
    }
    assert(all.take(i as int) =~= all);
    assert(keep@.take(i as int) =~= keep@);
    result
}

/// Copy a list of texts.
pub fn clone_texts(texts: &Vec<String>) -> (copy: Vec<String>)
    ensures
        copy.deep_view() == texts.deep_view(),
{
    let copy = texts.clone();
    assert(copy.deep_view() =~~= texts.deep_view());
    copy
}

/// Append a text to a list.
pub fn push_text(texts: &mut Vec<String>, text: &str)
    ensures
        final(texts).deep_view() == old(texts).deep_view().push(text@),
{
    let ghost before = texts.deep_view();
    texts.push(text.to_owned());
    assert(texts.deep_view() =~= before.push(text@));
}

/// Split a command line at its blanks into the command and its arguments.
pub fn split_command(command_line: &str) -> (parts: (String, Vec<String>))
    ensures
        parts.0@ == split_on(command_line@, ' ').first(),
        parts.1.deep_view() == split_on(command_line@, ' ').drop_first(),
{
    let mut pieces: Vec<String> = split_text(command_line, ' ');
    let ghost all = pieces.deep_view();
    let command: String = pieces.remove(0);
    assert(command@ == all[0]);
    assert(pieces.deep_view() =~= all.drop_first());
    (command, pieces)
}

} // verus!
