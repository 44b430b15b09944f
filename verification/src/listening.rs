//! Local listening addresses, each to be announced once.

use vstd::prelude::*;

verus! {

/// The texts of `texts` without repetition: each at the place of its first
/// occurrence.
pub open spec fn distinct(texts: Seq<Seq<char>>) -> Seq<Seq<char>>
    decreases texts.len(),
{
    if texts.len() == 0 {
        Seq::empty()
    } else {
        let earlier = distinct(texts.drop_last());
        if earlier.contains(texts.last()) {
            earlier
        } else {
            earlier.push(texts.last())
        }
    }
}

/// No text occurs twice in `distinct(texts)`, and it holds the texts of
/// `texts` and no others.
pub proof fn lemma_distinct(texts: Seq<Seq<char>>)
    ensures
        distinct(texts).no_duplicates(),
        distinct(texts).len() <= texts.len(),
        forall|text: Seq<char>| distinct(texts).contains(text) <==> texts.contains(text),
    decreases texts.len(),
{
    if texts.len() > 0 {
        let front = texts.drop_last();
        let earlier = distinct(front);
        lemma_distinct(front);
        assert forall|text: Seq<char>| distinct(texts).contains(text) <==> texts.contains(
            text,
        ) by {
            if texts.contains(text) {
                let i = choose|i: int| 0 <= i < texts.len() && texts[i] == text;
                if i < front.len() {
                    assert(front[i] == text);
                    assert(front.contains(text));
                    assert(earlier.contains(text));
                    let j = choose|j: int| 0 <= j < earlier.len() && earlier[j] == text;
                    assert(distinct(texts)[j] == text);
                } else {
                    assert(text == texts.last());
                    if !earlier.contains(text) {
                        assert(distinct(texts)[earlier.len() as int] == text);
                    }
                }
            }
            if distinct(texts).contains(text) {
                let j = choose|j: int| 0 <= j < distinct(texts).len() && distinct(texts)[j] == text;
                if j < earlier.len() {
                    assert(earlier[j] == text);
                    assert(earlier.contains(text));
                    assert(front.contains(text));
                    let i = choose|i: int| 0 <= i < front.len() && front[i] == text;
                    assert(texts[i] == text);
                } else {
                    assert(text == texts.last());
                    assert(texts[texts.len() - 1] == text);
                }
            }
        }
    }
}

/// Whether `text` is among `texts`.
pub fn contains_text(texts: &Vec<String>, text: &String) -> (found: bool)
    ensures
        found == texts.deep_view().contains(text@),
{
    let mut i: usize = 0;
    while i < texts.len()
        invariant
            i <= texts.len(),
            forall|j: int| 0 <= j < i ==> texts[j]@ != text@,
        decreases texts.len() - i,
    {
        if texts[i] == *text {
            assert(texts.deep_view()[i as int] == text@);
            return true;
        }
        i += 1;
    }
    false
}

/// Drops every text that occurred before.
pub fn distinct_texts(texts: &Vec<String>) -> (kept: Vec<String>)
    ensures
        kept.deep_view() == distinct(texts.deep_view()),
{
    let ghost all = texts.deep_view();
    let mut kept: Vec<String> = Vec::new();
    let mut i: usize = 0;
    assert(kept.deep_view() =~= distinct(all.take(0)));
    while i < texts.len()
        invariant
            i <= texts.len(),
            all == texts.deep_view(),
            kept.deep_view() == distinct(all.take(i as int)),
        decreases texts.len() - i,
    {
        let ghost before = kept.deep_view();
        proof {
            assert(all.take(i + 1).drop_last() =~= all.take(i as int));
            assert(all.take(i + 1).last() == texts[i as int]@);
        }
        if !contains_text(&kept, &texts[i]) {
            kept.push(texts[i].clone());
            assert(kept.deep_view() =~= before.push(texts[i as int]@));
        }
        i += 1;
    }
    assert(all.take(texts.len() as int) =~= all);
    kept
}

} // verus!
