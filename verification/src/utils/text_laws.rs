//! What holds of taking texts apart and putting them together.

use vstd::prelude::*;

use crate::utils::text::{
    after_last, before_first, closed_words, joined, last_word, occurs_at, occurs_in, replaced,
    split_on, trimmed_end, white_space, words,
};

verus! {

/// Blanks and line breaks are white space, printed characters are not.
pub proof fn law_printed_characters_are_no_white_space(c: char)
    ensures
        c == ' ' || c == '\t' || c == '\n' || c == '\r' ==> white_space(c),
        '!' <= c <= '~' ==> !white_space(c),
{
}

/// The text behind the last separator is what stands behind it.
pub proof fn law_text_behind_last(front: Seq<char>, sep: char, back: Seq<char>)
    requires
        !back.contains(sep),
    ensures
        after_last(front.push(sep) + back, sep) == back,
        after_last(back, sep) == back,
    decreases back.len(),
{
    let text = front.push(sep) + back;
    if back.len() > 0 {
        let rest = back.drop_last();
        assert forall|c: char| rest.contains(c) implies back.contains(c) by {
            let i = rest.index_of(c);
            assert(back[i] == c);
        }
        assert(back.contains(back[back.len() - 1]));
        law_text_behind_last(front, sep, rest);
        assert(text.drop_last() =~= front.push(sep) + rest);
        assert(rest.push(back.last()) =~= back);
    } else {
        assert(text.last() == sep);
        assert(back =~= Seq::<char>::empty());
    }
}

/// What stands behind the last separator holds none, and a separator stands before it.
pub(crate) proof fn lemma_behind_last(text: Seq<char>, sep: char)
    ensures
        !after_last(text, sep).contains(sep),
        after_last(text, sep).len() <= text.len(),
        after_last(text, sep) == text.subrange(
            text.len() - after_last(text, sep).len(),
            text.len() as int,
        ),
        text.contains(sep) ==> after_last(text, sep).len() < text.len() && text[text.len()
            - after_last(text, sep).len() - 1] == sep,
        !text.contains(sep) ==> after_last(text, sep) == text,
    decreases text.len(),
{
    if text.len() == 0 || text.last() == sep {
        assert(text.subrange(text.len() as int, text.len() as int) =~= Seq::<char>::empty());
        if text.len() > 0 {
            assert(text.contains(text[text.len() - 1]));
        } else {
            assert(text =~= Seq::<char>::empty());
        }
    } else {
        let rest = text.drop_last();
        lemma_behind_last(rest, sep);
        let found = after_last(rest, sep);
        let all = after_last(text, sep);
        if all.contains(sep) {
            let i = all.index_of(sep);
            if i < found.len() {
                assert(found[i] == sep);
            }
        }
        assert(all =~= text.subrange(text.len() - all.len(), text.len() as int));
        if text.contains(sep) {
            let i = text.index_of(sep);
            assert(rest[i] == sep);
        } else {
            if rest.contains(sep) {
                assert(text[rest.index_of(sep)] == sep);
            }
            assert(all =~= text);
        }
    }
}

/// What stands before the first separator is what stands before it.
pub proof fn law_text_before_first(front: Seq<char>, sep: char, back: Seq<char>)
    requires
        !front.contains(sep),
    ensures
        before_first(front + seq![sep] + back, sep) == front,
        before_first(front, sep) == front,
    decreases front.len(),
{
    let text = front + seq![sep] + back;
    if front.len() > 0 {
        let rest = front.drop_first();
        assert forall|c: char| rest.contains(c) implies front.contains(c) by {
            let i = rest.index_of(c);
            assert(front[i + 1] == c);
        }
        assert(front.contains(front[0]));
        law_text_before_first(rest, sep, back);
        assert(text.drop_first() =~= rest + seq![sep] + back);
        assert(seq![front.first()] + rest =~= front);
    } else {
        assert(text.first() == sep);
        assert(front =~= Seq::<char>::empty());
    }
}

/// The pieces of a text put together again with the separator are the text, and none of them holds
/// the separator.
pub proof fn law_pieces_make_up_the_text(text: Seq<char>, sep: char)
    ensures
        joined(split_on(text, sep), seq![sep]) == text,
        split_on(text, sep).len() > 0,
        forall|i: int|
            0 <= i < split_on(text, sep).len() ==> !(#[trigger] split_on(text, sep)[i]).contains(
                sep,
            ),
    decreases text.len(),
{
    let pieces = split_on(text, sep);
    if text.len() == 0 {
        assert(text =~= Seq::<char>::empty());
    } else {
        let rest = text.drop_last();
        let before = split_on(rest, sep);
        law_pieces_make_up_the_text(rest, sep);
        assert(rest.push(text.last()) =~= text);
        if text.last() == sep {
            assert(pieces.drop_last() =~= before);
            assert(joined(pieces, seq![sep]) =~= text);
            assert forall|i: int| 0 <= i < pieces.len() implies !(#[trigger] pieces[i]).contains(
                sep,
            ) by {
                if i < before.len() {
                    assert(pieces[i] == before[i]);
                }
            }
        } else {
            let last = before.last().push(text.last());
            assert(pieces.drop_last() =~= before.drop_last());
            assert(pieces.last() == last);
            assert forall|i: int| 0 <= i < pieces.len() implies !(#[trigger] pieces[i]).contains(
                sep,
            ) by {
                if i < before.len() - 1 {
                    assert(pieces[i] == before[i]);
                } else {
                    assert(!before[before.len() - 1].contains(sep));
                    if last.contains(sep) {
                        let k = last.index_of(sep);
                        assert(before.last()[k] == sep);
                    }
                }
            }
            if before.len() == 1 {
                assert(joined(pieces, seq![sep]) =~= text);
            } else {
                assert(joined(pieces, seq![sep]) =~= text);
            }
        }
    }
}

/// A word stands at a place of a text: no white space is in it, and nothing else stands beside it.
pub open spec fn is_word_at(text: Seq<char>, a: int, b: int) -> bool {
    &&& 0 <= a < b <= text.len()
    &&& forall|i: int| a <= i < b ==> !white_space(#[trigger] text[i])
    &&& a > 0 ==> white_space(text[a - 1])
    &&& b < text.len() ==> white_space(text[b])
}

/// What has been read of the last word stands at the end of the text.
proof fn lemma_last_word(text: Seq<char>)
    ensures
        last_word(text).len() <= text.len(),
        last_word(text) == text.subrange(
            text.len() - last_word(text).len(),
            text.len() as int,
        ),
        forall|i: int|
            text.len() - last_word(text).len() <= i < text.len() ==> !white_space(
                #[trigger] text[i],
            ),
        last_word(text).len() < text.len() ==> white_space(
            text[text.len() - last_word(text).len() - 1],
        ),
    decreases text.len(),
{
    if text.len() == 0 || white_space(text.last()) {
        assert(text.subrange(text.len() as int, text.len() as int) =~= Seq::<char>::empty());
    } else {
        let rest = text.drop_last();
        lemma_last_word(rest);
        assert forall|i: int| text.len() - last_word(text).len() <= i < text.len() implies
            !white_space(#[trigger] text[i]) by {
            if i < rest.len() {
                assert(rest[i] == text[i]);
            }
        }
        assert(last_word(text) =~= text.subrange(
            text.len() - last_word(text).len(),
            text.len() as int,
        ));
    }
}

/// A word stands in front of white space in a text.
spec fn is_closed_word_at(text: Seq<char>, a: int, b: int) -> bool {
    is_word_at(text, a, b) && b < text.len()
}

proof fn lemma_closed_words(text: Seq<char>, word: Seq<char>)
    ensures
        closed_words(text).contains(word) <==> exists|a: int, b: int| #[trigger]
            is_closed_word_at(text, a, b) && text.subrange(a, b) == word,
    decreases text.len(),
{
    let found = closed_words(text);
    if text.len() > 0 {
        let rest = text.drop_last();
        let n = rest.len() as int;
        let before = closed_words(rest);
        lemma_closed_words(rest, word);
        lemma_last_word(rest);
        let last = last_word(rest);
        let start = n - last.len();
        assert forall|a: int, b: int| #[trigger] is_closed_word_at(rest, a, b) implies
            is_closed_word_at(text, a, b) && text.subrange(a, b) == rest.subrange(a, b) by {
            assert forall|i: int| a <= i < b implies !white_space(#[trigger] text[i]) by {
                assert(rest[i] == text[i]);
            }
            assert(text.subrange(a, b) =~= rest.subrange(a, b));
        }
        let closes = white_space(text.last()) && last.len() > 0;
        if closes {
            assert(found == before.push(last));
            assert forall|i: int| start <= i < n implies !white_space(#[trigger] text[i]) by {
                assert(rest[i] == text[i]);
            }
            assert(is_closed_word_at(text, start, n));
            assert(text.subrange(start, n) =~= last);
            assert(found[before.len() as int] == last);
        }
        if found.contains(word) {
            let i = found.index_of(word);
            if i < before.len() {
                assert(before[i] == word);
                let (a, b) = choose|a: int, b: int| #[trigger]
                    is_closed_word_at(rest, a, b) && rest.subrange(a, b) == word;
                assert(is_closed_word_at(text, a, b) && text.subrange(a, b) == word);
            } else {
                assert(is_closed_word_at(text, start, n) && text.subrange(start, n) == word);
            }
        }
        if exists|a: int, b: int| #[trigger]
            is_closed_word_at(text, a, b) && text.subrange(a, b) == word {
            let (a, b) = choose|a: int, b: int| #[trigger]
                is_closed_word_at(text, a, b) && text.subrange(a, b) == word;
            if b < n {
                assert forall|i: int| a <= i < b implies !white_space(#[trigger] rest[i]) by {
                    assert(rest[i] == text[i]);
                }
                assert(is_closed_word_at(rest, a, b));
                assert(rest.subrange(a, b) =~= word);
                let i = before.index_of(word);
                assert(found[i] == word);
            } else {
                assert(b == n);
                assert(white_space(text[n]));
                assert(a == start) by {
                    if a < start {
                        assert(!white_space(text[start - 1]));
                    } else if a > start {
                        assert(!white_space(rest[a - 1]));
                    }
                }
                assert(word =~= last);
            }
        }
    }
}

/// The words of a text are what stands between white space.
pub proof fn law_words_are_found(text: Seq<char>, word: Seq<char>)
    ensures
        words(text).contains(word) <==> exists|a: int, b: int| #[trigger]
            is_word_at(text, a, b) && text.subrange(a, b) == word,
{
    lemma_closed_words(text, word);
    lemma_last_word(text);
    let last = last_word(text);
    let n = text.len() as int;
    let start = n - last.len();
    if words(text).contains(word) {
        let i = words(text).index_of(word);
        if i < closed_words(text).len() {
            assert(closed_words(text)[i] == word);
            let (a, b) = choose|a: int, b: int| #[trigger]
                is_closed_word_at(text, a, b) && text.subrange(a, b) == word;
            assert(is_word_at(text, a, b));
        } else {
            assert(is_word_at(text, start, n) && text.subrange(start, n) == word);
        }
    }
    if exists|a: int, b: int| #[trigger] is_word_at(text, a, b) && text.subrange(a, b) == word {
        let (a, b) = choose|a: int, b: int| #[trigger]
            is_word_at(text, a, b) && text.subrange(a, b) == word;
        if b < n {
            assert(is_closed_word_at(text, a, b));
            let i = closed_words(text).index_of(word);
            assert(words(text)[i] == word);
        } else {
            assert(a == start) by {
                if a < start {
                    assert(!white_space(text[start - 1]));
                } else if a > start {
                    assert(!white_space(text[a - 1]));
                }
            }
            assert(last =~= word);
            assert(words(text)[closed_words(text).len() as int] == word);
        }
    }
}

/// A part occurs in a text if it stands at some place.
pub(crate) proof fn lemma_occurrence(text: Seq<char>, part: Seq<char>, at: int)
    ensures
        0 <= at && at + part.len() <= text.len() && text.subrange(at, at + part.len()) == part
            ==> occurs_in(text, part),
        occurs_in(text, part) ==> exists|a: int|
            0 <= a && a + part.len() <= text.len() && #[trigger] text.subrange(a, a + part.len())
                == part,
{
    if 0 <= at && at + part.len() <= text.len() && text.subrange(at, at + part.len()) == part {
        assert(occurs_at(text, part, at));
    }
}

/// Replacing a character leaves all others in their places.
pub proof fn law_only_the_character_is_replaced(text: Seq<char>, from: char, to: char, i: int)
    requires
        0 <= i < text.len(),
    ensures
        replaced(text, from, to).len() == text.len(),
        text[i] == from ==> replaced(text, from, to)[i] == to,
        text[i] != from ==> replaced(text, from, to)[i] == text[i],
{
}

/// An ending is taken off as often as it stands there, and nothing else is.
pub proof fn law_endings_come_off(text: Seq<char>, suffix: Seq<char>)
    requires
        suffix.len() > 0,
    ensures
        trimmed_end(text + suffix, suffix) == trimmed_end(text, suffix),
        !suffix.is_suffix_of(trimmed_end(text, suffix)),
        !suffix.is_suffix_of(text) ==> trimmed_end(text, suffix) == text,
    decreases text.len(),
{
    assert((text + suffix).subrange(
        (text + suffix).len() - suffix.len(),
        (text + suffix).len() as int,
    ) =~= suffix);
    assert((text + suffix).take((text + suffix).len() - suffix.len()) =~= text);
    if suffix.is_suffix_of(text) {
        law_endings_come_off(text.take(text.len() - suffix.len()), suffix);
    }
}

/// Joined texts stand one behind the other, with the separator between them.
pub proof fn law_joined_texts_are_separated(texts: Seq<Seq<char>>, sep: Seq<char>, more: Seq<char>)
    ensures
        joined(Seq::<Seq<char>>::empty(), sep) == Seq::<char>::empty(),
        joined(seq![more], sep) == more,
        texts.len() > 0 ==> joined(texts.push(more), sep) == joined(texts, sep) + sep + more,
{
    if texts.len() > 0 {
        assert(texts.push(more).drop_last() =~= texts);
    }
}

/// The words of a text are listed in their order.
pub proof fn law_words_keep_their_order(text: Seq<char>, word: Seq<char>)
    requires
        word.len() > 0,
        forall|i: int| 0 <= i < word.len() ==> !white_space(#[trigger] word[i]),
    ensures
        words(Seq::empty()).len() == 0,
        words(text + " "@ + word) == words(text).push(word),
{
    reveal_strlit(" ");
    let spaced = text.push(' ');
    assert(text + " "@ =~= spaced);
    assert(spaced.drop_last() =~= text);
    assert(white_space(' '));
    assert(last_word(spaced) =~= Seq::<char>::empty());
    assert(closed_words(spaced) == words(text));
    lemma_word_behind(spaced, word);
}

/// A word that follows white space is the last word, and closes none.
proof fn lemma_word_behind(front: Seq<char>, word: Seq<char>)
    requires
        last_word(front).len() == 0,
        forall|i: int| 0 <= i < word.len() ==> !white_space(#[trigger] word[i]),
    ensures
        last_word(front + word) == word,
        closed_words(front + word) == closed_words(front),
    decreases word.len(),
{
    if word.len() > 0 {
        let rest = word.drop_last();
        assert forall|i: int| 0 <= i < rest.len() implies !white_space(#[trigger] rest[i]) by {
            assert(rest[i] == word[i]);
        }
        lemma_word_behind(front, rest);
        assert((front + word).drop_last() =~= front + rest);
        assert(!white_space(word[word.len() - 1]));
        assert(rest.push(word.last()) =~= word);
    } else {
        assert(front + word =~= front);
        assert(last_word(front) =~= word);
    }
}

} // verus!
