//! A line of input, cut into words at ASCII whitespace.

use vstd::prelude::*;
use vstd::string::*;

verus! {

/// ASCII whitespace: space, tab, line feed, form feed, carriage return.
pub open spec fn is_space(c: char) -> bool {
    c == ' ' || c == '\t' || c == '\n' || c == '\x0C' || c == '\r'
}

/// How many characters stand at the front of `text` before the first
/// whitespace, or before its end.
pub open spec fn word_len(text: Seq<char>) -> nat
    decreases text.len(),
{
    if text.len() == 0 || is_space(text[0]) {
        0
    } else {
        1 + word_len(text.drop_first())
    }
}

/// The words of `text`: its maximal runs of characters that are no
/// whitespace, from left to right.
pub open spec fn words(text: Seq<char>) -> Seq<Seq<char>>
    decreases text.len(),
    via words_decreases
{
    if text.len() == 0 {
        Seq::empty()
    } else if is_space(text[0]) {
        words(text.drop_first())
    } else {
        seq![text.take(word_len(text) as int)] + words(text.skip(word_len(text) as int))
    }
}

#[via_fn]
proof fn words_decreases(text: Seq<char>) {
    lemma_word_len(text);
}

/// The first word of a text ends within the text, and holds no whitespace.
pub proof fn lemma_word_len(text: Seq<char>)
    ensures
        word_len(text) <= text.len(),
        forall|i: int| 0 <= i < word_len(text) ==> !is_space(#[trigger] text[i]),
        word_len(text) < text.len() ==> is_space(text[word_len(text) as int]),
    decreases text.len(),
{
    if text.len() > 0 && !is_space(text[0]) {
        let rest = text.drop_first();
        lemma_word_len(rest);
        assert forall|i: int| 0 <= i < word_len(text) implies !is_space(#[trigger] text[i]) by {
            if i > 0 {
                assert(text[i] == rest[i - 1]);
            }
        }
        if word_len(text) < text.len() {
            assert(text[word_len(text) as int] == rest[word_len(rest) as int]);
        }
    }
}

/// A word: at least one character, none of them whitespace.
pub open spec fn is_word(text: Seq<char>) -> bool {
    text.len() > 0 && forall|i: int| 0 <= i < text.len() ==> !is_space(#[trigger] text[i])
}

/// Cutting a text yields words.
pub proof fn lemma_words_are_words(text: Seq<char>)
    ensures
        forall|k: int| 0 <= k < words(text).len() ==> is_word(#[trigger] words(text)[k]),
    decreases text.len(),
{
    if text.len() == 0 {
        assert(words(text).len() == 0);
    } else if is_space(text[0]) {
        lemma_words_are_words(text.drop_first());
        assert(words(text) == words(text.drop_first()));
    } else {
        let n = word_len(text) as int;
        lemma_word_len(text);
        lemma_words_are_words(text.skip(n));
        let first = text.take(n);
        let later = words(text.skip(n));
        assert(words(text) == seq![first] + later);
        assert forall|k: int| 0 <= k < words(text).len() implies is_word(
            #[trigger] words(text)[k],
        ) by {
            if k == 0 {
                assert(words(text)[0] == first);
                assert forall|i: int| 0 <= i < first.len() implies !is_space(
                    #[trigger] first[i],
                ) by {
                    assert(first[i] == text[i]);
                }
            } else {
                assert(words(text)[k] == later[k - 1]);
            }
        }
    }
}

/// Whether `c` is ASCII whitespace.
pub fn is_whitespace(c: char) -> (space: bool)
    ensures
        space == is_space(c),
{
    c == ' ' || c == '\t' || c == '\n' || c == '\x0C' || c == '\r'
}

/// Cuts a line into its words.
pub fn split_words(line: &str) -> (found: Vec<String>)
    ensures
        found.deep_view() == words(line@),
{
    let ghost text = line@;
    let n = line.unicode_len();
    let mut found: Vec<String> = Vec::new();
    let mut i: usize = 0;
    assert(text.skip(0) =~= text);
    assert(found.deep_view() =~= Seq::<Seq<char>>::empty());
    while i < n
        invariant
            text == line@,
            n == text.len(),
            i <= n,
            found.deep_view() + words(text.skip(i as int)) == words(text),
        decreases n - i,
    {
        let c = line.get_char(i);
        if is_whitespace(c) {
            assert(text.skip(i as int).drop_first() =~= text.skip(i + 1));
            i += 1;
        } else {
            let start = i;
            let ghost rest = text.skip(start as int);
            assert(rest.skip(0) =~= rest);
            while i < n && !is_whitespace(line.get_char(i))
                invariant
                    text == line@,
                    n == text.len(),
                    start <= i <= n,
                    rest == text.skip(start as int),
                    word_len(rest) == (i - start) + word_len(text.skip(i as int)),
                decreases n - i,
            {
                assert(text.skip(i as int).drop_first() =~= text.skip(i + 1));
                i += 1;
            }
            proof {
                if i < n {
                    assert(text.skip(i as int)[0] == text[i as int]);
                }
                assert(word_len(text.skip(i as int)) == 0);
                assert(rest.take(i - start) =~= text.subrange(start as int, i as int));
                assert(rest.skip(i - start) =~= text.skip(i as int));
            }
            let ghost before = found.deep_view();
            let word = String::from_str(line.substring_char(start, i));
            found.push(word);
            assert(found.deep_view() =~= before.push(text.subrange(start as int, i as int)));
            assert(found.deep_view() + words(text.skip(i as int)) =~= before + words(rest));
        }
    }
    assert(words(text.skip(n as int)) =~= Seq::<Seq<char>>::empty());
    assert(found.deep_view() + Seq::<Seq<char>>::empty() =~= found.deep_view());
    found
}

} // verus!
