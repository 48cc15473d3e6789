//! Operations on text, stated over the characters that a text holds.

use vstd::prelude::*;

verus! {

/// `String::push` appends one character at the end of the string.
pub assume_specification[ std::string::String::push ](text: &mut std::string::String, c: char)
    ensures
        final(text)@ == old(text)@.push(c),
;

/// The characters of a text.
pub fn chars_of(text: &str) -> (chars: Vec<char>)
    ensures
        chars@ == text@,
{
    let mut chars: Vec<char> = Vec::new();
    for c in it: text.chars()
        invariant
            chars@ == it.seq().take(it.index() as int),
            it.seq() == text@,
    {
        chars.push(c);
    }
    chars
}

/// Do two texts hold the same characters?
pub fn str_eq(left: &str, right: &str) -> (same: bool)
    ensures
        same == (left@ == right@),
{
    let a: Vec<char> = chars_of(left);
    let b: Vec<char> = chars_of(right);
    if a.len() != b.len() {
        return false;
    }
    let mut i: usize = 0;
    while i < a.len()
        invariant
            i <= a@.len(),
            a@ == left@,
            b@ == right@,
            a@.len() == b@.len(),
            forall|j: int| 0 <= j < i ==> a@[j] == b@[j],
        decreases a@.len() - i,
    {
        if a[i] != b[i] {
            return false;
        }
        i += 1;
    }
    assert(a@ =~= b@);
    true
}

/// Is the text one of the listed ones?
pub fn contains_str(texts: &Vec<String>, text: &str) -> (found: bool)
    ensures
        found == texts.deep_view().contains(text@),
{
    let mut i: usize = 0;
    while i < texts.len()
        invariant
            i <= texts@.len(),
            forall|j: int| 0 <= j < i ==> texts.deep_view()[j] != text@,
        decreases texts@.len() - i,
    {
        if str_eq(texts[i].as_str(), text) {
            assert(texts.deep_view()[i as int] == text@);
            return true;
        }
        i += 1;
    }
    false
}

/// Does the text start with the given prefix?
pub fn starts_with(text: &str, prefix: &str) -> (found: bool)
    ensures
        found == prefix@.is_prefix_of(text@),
{
    let a: Vec<char> = chars_of(text);
    let b: Vec<char> = chars_of(prefix);
    matches_at(&a, &b, 0)
}

/// Does the text end with the given suffix?
pub fn ends_with(text: &str, suffix: &str) -> (found: bool)
    ensures
        found == suffix@.is_suffix_of(text@),
{
    let a: Vec<char> = chars_of(text);
    let b: Vec<char> = chars_of(suffix);
    if a.len() < b.len() {
        return false;
    }
    matches_at(&a, &b, a.len() - b.len())
}

/// The characters of `part` stand in `text` from position `at` on.
pub open spec fn occurs_at(text: Seq<char>, part: Seq<char>, at: int) -> bool {
    &&& 0 <= at
    &&& at + part.len() <= text.len()
    &&& text.subrange(at, at + part.len()) == part
}

/// The characters of `part` stand somewhere in `text`.
pub open spec fn occurs_in(text: Seq<char>, part: Seq<char>) -> bool {
    exists|at: int| occurs_at(text, part, at)
}

fn matches_at(text: &Vec<char>, part: &Vec<char>, at: usize) -> (found: bool)
    requires
        at <= text@.len(),
    ensures
        found == occurs_at(text@, part@, at as int),
{
    if text.len() - at < part.len() {
        return false;
    }
    let mut i: usize = 0;
    while i < part.len()
        invariant
            i <= part@.len(),
            at + part@.len() <= text.len(),
            forall|j: int| 0 <= j < i ==> text@[at + j] == part@[j],
        decreases part@.len() - i,
    {
        if text[at + i] != part[i] {
            assert(text@.subrange(at as int, at + part@.len())[i as int] != part@[i as int]);
            return false;
        }
        i += 1;
    }
    assert(text@.subrange(at as int, at + part@.len()) =~= part@);
    true
}

/// Do the characters of `part` stand somewhere in `text`?
pub fn contains_text(text: &str, part: &str) -> (found: bool)
    ensures
        found == occurs_in(text@, part@),
{
    let a: Vec<char> = chars_of(text);
    let b: Vec<char> = chars_of(part);
    let mut at: usize = 0;
    while at < a.len()
        invariant
            at <= a@.len(),
            a@ == text@,
            b@ == part@,
            forall|j: int| 0 <= j < at ==> !occurs_at(a@, b@, j),
        decreases a@.len() - at,
    {
        if matches_at(&a, &b, at) {
            return true;
        }
        at += 1;
    }
    matches_at(&a, &b, at)
}

/// The part of a text before its first `sep`, the whole text if there is none.
pub open spec fn before_first(text: Seq<char>, sep: char) -> Seq<char>
    decreases text.len(),
{
    if text.len() == 0 || text.first() == sep {
        Seq::empty()
    } else {
        seq![text.first()] + before_first(text.drop_first(), sep)
    }
}

/// The part of a text after its last `sep`, the whole text if there is none.
pub open spec fn after_last(text: Seq<char>, sep: char) -> Seq<char>
    decreases text.len(),
{
    if text.len() == 0 || text.last() == sep {
        Seq::empty()
    } else {
        after_last(text.drop_last(), sep).push(text.last())
    }
}

proof fn lemma_before_first(text: Seq<char>, sep: char, n: int)
    requires
        0 <= n <= text.len(),
        forall|j: int| 0 <= j < n ==> text[j] != sep,
        n < text.len() ==> text[n] == sep,
    ensures
        before_first(text, sep) == text.subrange(0, n),
    decreases n,
{
    if n > 0 {
        lemma_before_first(text.drop_first(), sep, n - 1);
        assert(seq![text.first()] + text.drop_first().subrange(0, n - 1) =~= text.subrange(0, n));
    } else {
        assert(text.subrange(0, 0) =~= Seq::<char>::empty());
    }
}

proof fn lemma_after_last(text: Seq<char>, sep: char, n: int)
    requires
        0 <= n <= text.len(),
        forall|j: int| n <= j < text.len() ==> text[j] != sep,
        n > 0 ==> text[n - 1] == sep,
    ensures
        after_last(text, sep) == text.subrange(n, text.len() as int),
    decreases text.len() - n,
{
    if n < text.len() {
        lemma_after_last(text.drop_last(), sep, n);
        assert(text.drop_last().subrange(n, text.len() - 1).push(text.last()) =~= text.subrange(
            n,
            text.len() as int,
        ));
    } else {
        assert(text.subrange(n, n) =~= Seq::<char>::empty());
    }
}

/// The part of a text before its first `sep`, the whole text if there is none.
pub fn text_before_first(text: &str, sep: char) -> (part: &str)
    ensures
        part@ == before_first(text@, sep),
{
    let chars: Vec<char> = chars_of(text);
    let mut n: usize = 0;
    while n < chars.len() && chars[n] != sep
        invariant
            n <= chars@.len(),
            forall|j: int| 0 <= j < n ==> chars@[j] != sep,
        decreases chars@.len() - n,
    {
        n += 1;
    }
    proof {
        lemma_before_first(text@, sep, n as int);
    }
    text.substring_char(0, n)
}

/// The part of a text after its last `sep`, the whole text if there is none.
pub fn text_after_last(text: &str, sep: char) -> (part: &str)
    ensures
        part@ == after_last(text@, sep),
{
    let chars: Vec<char> = chars_of(text);
    let mut n: usize = chars.len();
    while n > 0 && chars[n - 1] != sep
        invariant
            n <= chars@.len(),
            forall|j: int| n <= j < chars@.len() ==> chars@[j] != sep,
        decreases n,
    {
        n -= 1;
    }
    proof {
        lemma_after_last(text@, sep, n as int);
    }
    text.substring_char(n, chars.len())
}

/// Does the character stand in the text?
pub fn contains_char(text: &str, c: char) -> (found: bool)
    ensures
        found == text@.contains(c),
{
    let chars: Vec<char> = chars_of(text);
    let mut i: usize = 0;
    while i < chars.len()
        invariant
            i <= chars@.len(),
            chars@ == text@,
            forall|j: int| 0 <= j < i ==> chars@[j] != c,
        decreases chars@.len() - i,
    {
        if chars[i] == c {
            return true;
        }
        i += 1;
    }
    false
}

/// The pieces of a text between the characters `sep`.
pub open spec fn split_on(text: Seq<char>, sep: char) -> Seq<Seq<char>>
    decreases text.len(),
{
    if text.len() == 0 {
        seq![Seq::empty()]
    } else {
        let pieces = split_on(text.drop_last(), sep);
        if text.last() == sep {
            pieces.push(Seq::empty())
        } else {
            pieces.drop_last().push(pieces.last().push(text.last()))
        }
    }
}

proof fn lemma_split_on_nonempty(text: Seq<char>, sep: char)
    ensures
        split_on(text, sep).len() > 0,
    decreases text.len(),
{
    if text.len() > 0 {
        lemma_split_on_nonempty(text.drop_last(), sep);
    }
}

/// Split a text at each `sep`.
pub fn split_text(text: &str, sep: char) -> (pieces: Vec<String>)
    ensures
        pieces.deep_view() == split_on(text@, sep),
        pieces@.len() > 0,
{
    let chars: Vec<char> = chars_of(text);
    let mut pieces: Vec<String> = Vec::new();
    let mut piece: String = String::new();
    let mut i: usize = 0;
    proof {
        lemma_split_on_nonempty(text@, sep);
        assert(text@.take(0) =~= Seq::<char>::empty());
        assert(pieces.deep_view().push(piece@) =~= seq![Seq::<char>::empty()]);
    }
    while i < chars.len()
        invariant
            i <= chars@.len(),
            chars@ == text@,
            pieces.deep_view().push(piece@) == split_on(text@.take(i as int), sep),
        decreases chars@.len() - i,
    {
        let ghost old_pieces = pieces.deep_view();
        let ghost old_piece = piece@;
        proof {
            assert(text@.take(i + 1).drop_last() =~= text@.take(i as int));
            assert(old_pieces.push(old_piece).drop_last() =~= old_pieces);
        }
        if chars[i] == sep {
            pieces.push(piece);
            piece = String::new();
            assert(pieces.deep_view() =~= old_pieces.push(old_piece));
        } else {
            piece.push(chars[i]);
        }
        i += 1;
    }
    let ghost last_pieces = pieces.deep_view();
    let ghost last_piece = piece@;
    pieces.push(piece);
    assert(pieces.deep_view() =~= last_pieces.push(last_piece));
    assert(text@.take(text@.len() as int) =~= text@);
    pieces
}

/// The characters with the Unicode property White_Space.
pub open spec fn white_space(c: char) -> bool {
    let code = c as int;
    ||| 0x9 <= code <= 0xd
    ||| code == 0x20
    ||| code == 0x85
    ||| code == 0xa0
    ||| code == 0x1680
    ||| 0x2000 <= code <= 0x200a
    ||| code == 0x2028
    ||| code == 0x2029
    ||| code == 0x202f
    ||| code == 0x205f
    ||| code == 0x3000
}

/// Does the character have the Unicode property White_Space?
pub fn is_white_space(c: char) -> (found: bool)
    ensures
        found == white_space(c),
{
    let code: u32 = c as u32;
    (0x9 <= code && code <= 0xd) || code == 0x20 || code == 0x85 || code == 0xa0 || code == 0x1680
        || (0x2000 <= code && code <= 0x200a) || code == 0x2028 || code == 0x2029 || code == 0x202f
        || code == 0x205f || code == 0x3000
}

/// The characters behind the last white space of a text.
pub open spec fn last_word(text: Seq<char>) -> Seq<char>
    decreases text.len(),
{
    if text.len() == 0 || white_space(text.last()) {
        Seq::empty()
    } else {
        last_word(text.drop_last()).push(text.last())
    }
}

/// The words of a text that white space follows.
pub open spec fn closed_words(text: Seq<char>) -> Seq<Seq<char>>
    decreases text.len(),
{
    if text.len() == 0 {
        Seq::empty()
    } else if white_space(text.last()) && last_word(text.drop_last()).len() > 0 {
        closed_words(text.drop_last()).push(last_word(text.drop_last()))
    } else {
        closed_words(text.drop_last())
    }
}

/// The words of a text: its longest pieces without white space.
pub open spec fn words(text: Seq<char>) -> Seq<Seq<char>> {
    if last_word(text).len() > 0 {
        closed_words(text).push(last_word(text))
    } else {
        closed_words(text)
    }
}

/// Split a text into its words.
pub fn split_words(text: &str) -> (pieces: Vec<String>)
    ensures
        pieces.deep_view() == words(text@),
{
    let chars: Vec<char> = chars_of(text);
    let mut pieces: Vec<String> = Vec::new();
    let mut piece: String = String::new();
    let mut piece_len: usize = 0;
    let mut i: usize = 0;
    proof {
        assert(text@.take(0) =~= Seq::<char>::empty());
        assert(pieces.deep_view() =~= Seq::<Seq<char>>::empty());
    }
    while i < chars.len()
        invariant
            i <= chars@.len(),
            chars@ == text@,
            piece@ == last_word(text@.take(i as int)),
            piece_len == piece@.len(),
            piece_len <= i,
            pieces.deep_view() == closed_words(text@.take(i as int)),
        decreases chars@.len() - i,
    {
        let ghost old_pieces = pieces.deep_view();
        let ghost old_piece = piece@;
        assert(text@.take(i + 1).drop_last() =~= text@.take(i as int));
        if is_white_space(chars[i]) {
            if piece_len > 0 {
                pieces.push(piece);
                piece = String::new();
                piece_len = 0;
                assert(pieces.deep_view() =~= old_pieces.push(old_piece));
            }
        } else {
            piece.push(chars[i]);
            piece_len += 1;
        }
        i += 1;
    }
    let ghost last_pieces = pieces.deep_view();
    let ghost last_piece = piece@;
    assert(text@.take(text@.len() as int) =~= text@);
    if piece_len > 0 {
        pieces.push(piece);
        assert(pieces.deep_view() =~= last_pieces.push(last_piece));
    }
    pieces
}

/// A text with `to` in place of each `from`.
pub open spec fn replaced(text: Seq<char>, from: char, to: char) -> Seq<char> {
    text.map_values(|c: char| if c == from { to } else { c })
}

/// Put `to` in place of each `from`.
pub fn replace_char(text: &str, from: char, to: char) -> (result: String)
    ensures
        result@ == replaced(text@, from, to),
{
    let chars: Vec<char> = chars_of(text);
    let mut result: String = String::new();
    let mut i: usize = 0;
    assert(result@ =~= replaced(text@.take(0), from, to));
    while i < chars.len()
        invariant
            i <= chars@.len(),
            chars@ == text@,
            result@ == replaced(text@.take(i as int), from, to),
        decreases chars@.len() - i,
    {
        let c: char = chars[i];
        result.push(if c == from { to } else { c });
        i += 1;
        assert(result@ =~= replaced(text@.take(i as int), from, to));
    }
    assert(text@.take(text@.len() as int) =~= text@);
    result
}

/// A text without the copies of `suffix` at its end.
pub open spec fn trimmed_end(text: Seq<char>, suffix: Seq<char>) -> Seq<char>
    decreases text.len(),
{
    if suffix.len() > 0 && suffix.is_suffix_of(text) {
        trimmed_end(text.take(text.len() - suffix.len()), suffix)
    } else {
        text
    }
}

/// Take every copy of `suffix` off the end of a text.
pub fn trim_end<'a>(text: &'a str, suffix: &str) -> (rest: &'a str)
    ensures
        rest@ == trimmed_end(text@, suffix@),
{
    let a: Vec<char> = chars_of(text);
    let b: Vec<char> = chars_of(suffix);
    let mut n: usize = a.len();
    assert(text@.take(n as int) =~= text@);
    loop
        invariant
            n <= a@.len(),
            a@ == text@,
            b@ == suffix@,
            trimmed_end(text@.take(n as int), suffix@) == trimmed_end(text@, suffix@),
        decreases n,
    {
        let ghost part = text@.take(n as int);
        if b.len() == 0 || n < b.len() || !matches_at(&a, &b, n - b.len()) {
            proof {
                if b@.len() > 0 && n >= b@.len() {
                    assert(part.subrange(n - b@.len(), n as int) =~= a@.subrange(
                        n - b@.len(),
                        n as int,
                    ));
                }
                assert(text@.subrange(0, n as int) =~= part);
            }
            return text.substring_char(0, n);
        }
        n -= b.len();
        proof {
            assert(part.subrange(n as int, n + b@.len()) =~= a@.subrange(n as int, n + b@.len()));
            assert(part.take(n as int) =~= text@.take(n as int));
        }
    }
}

/// The texts one after the other, with `sep` between each two.
pub open spec fn joined(texts: Seq<Seq<char>>, sep: Seq<char>) -> Seq<char>
    decreases texts.len(),
{
    if texts.len() == 0 {
        Seq::empty()
    } else if texts.len() == 1 {
        texts[0]
    } else {
        joined(texts.drop_last(), sep) + sep + texts.last()
    }
}

/// Join texts, with `sep` between each two.
pub fn join(texts: &Vec<String>, sep: &str) -> (result: String)
    ensures
        result@ == joined(texts.deep_view(), sep@),
{
    let mut result: String = String::new();
    let mut i: usize = 0;
    let ghost all = texts.deep_view();
    while i < texts.len()
        invariant
            i <= texts@.len(),
            all == texts.deep_view(),
            result@ == joined(all.take(i as int), sep@),
        decreases texts@.len() - i,
    {
        assert(all.take(i + 1).drop_last() =~= all.take(i as int));
        assert(all.take(i + 1).last() == texts[i as int]@);
        if i > 0 {
            result.append(sep);
        }
        result.append(texts[i].as_str());
        i += 1;
        proof {
            if i == 1 {
                assert(result@ =~= all.take(1)[0]);
            }
        }
    }
    assert(all.take(all.len() as int) =~= all);
    result
}

} // verus!
