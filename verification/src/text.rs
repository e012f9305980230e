//! The display text of a run of words.

use vstd::prelude::*;
use crate::word::{Word, WordView};

verus! {

/// The values of the words of a vector, in order.
pub open spec fn word_views(words: Seq<Word>) -> Seq<WordView> {
    Seq::new(words.len(), |i: int| words[i]@)
}

/// The texts of a run of words, in order.
pub open spec fn word_texts(words: Seq<WordView>) -> Seq<Seq<char>> {
    Seq::new(words.len(), |i: int| words[i].text)
}

/// The given texts, with one space between each two neighbours.
pub open spec fn join_with_space(texts: Seq<Seq<char>>) -> Seq<char>
    decreases texts.len(),
{
    if texts.len() == 0 {
        Seq::empty()
    } else if texts.len() == 1 {
        texts[0]
    } else {
        join_with_space(texts.drop_last()) + seq![' '] + texts.last()
    }
}

/// The display text of a run of words: their texts joined by single spaces.
pub open spec fn full_text_of(words: Seq<WordView>) -> Seq<char> {
    join_with_space(word_texts(words))
}

/// The display text of no words is empty.
pub proof fn lemma_full_text_empty()
    ensures
        full_text_of(Seq::<WordView>::empty()) == Seq::<char>::empty(),
{
    assert(word_texts(Seq::<WordView>::empty()).len() == 0);
}

/// The display text of a run of words extended by one word: the text of the
/// run, a space unless the run was empty, and the text of the word.
pub proof fn lemma_full_text_push(words: Seq<WordView>, word: WordView)
    ensures
        full_text_of(words.push(word)) == if words.len() == 0 {
            word.text
        } else {
            full_text_of(words) + seq![' '] + word.text
        },
{
    let texts = word_texts(words.push(word));
    assert(texts.len() == words.len() + 1);
    assert(texts.last() == word.text);
    assert(texts.drop_last() =~= word_texts(words));
}

/// The display text of two runs of words, one after the other: the two
/// display texts with a space between them, or the text of the one run where
/// the other is empty.
pub proof fn lemma_full_text_concat(first: Seq<WordView>, second: Seq<WordView>)
    ensures
        full_text_of(first + second) == if first.len() == 0 {
            full_text_of(second)
        } else if second.len() == 0 {
            full_text_of(first)
        } else {
            full_text_of(first) + seq![' '] + full_text_of(second)
        },
    decreases second.len(),
{
    if first.len() == 0 {
        assert(first + second =~= second);
    } else if second.len() == 0 {
        assert(first + second =~= first);
    } else {
        let head = second.drop_last();
        let word = second.last();
        assert(first + second =~= (first + head).push(word));
        assert(second =~= head.push(word));
        lemma_full_text_push(first + head, word);
        lemma_full_text_push(head, word);
        lemma_full_text_concat(first, head);
        if head.len() == 0 {
            assert(first + head =~= first);
        } else {
            assert(full_text_of(first) + seq![' '] + full_text_of(head) + seq![' '] + word.text
                =~= full_text_of(first) + seq![' '] + (full_text_of(head) + seq![' ']
                + word.text));
        }
    }
}

/// Builds the space-separated display text of `raw_words`, in their order.
pub fn build_full_text(raw_words: &Vec<Word>) -> (full_text: String)
    ensures
        full_text@ == full_text_of(word_views(raw_words@)),
{
    let mut full_text = String::new();
    let mut i: usize = 0;
    proof {
        lemma_full_text_empty();
        assert(word_views(raw_words@).take(0) =~= Seq::<WordView>::empty());
    }
    while i < raw_words.len()
        invariant
            i <= raw_words.len(),
            full_text@ == full_text_of(word_views(raw_words@).take(i as int)),
        decreases raw_words.len() - i,
    {
        proof {
            reveal_strlit(" ");
            let views = word_views(raw_words@);
            assert(views.take(i + 1) =~= views.take(i as int).push(views[i as int]));
            lemma_full_text_push(views.take(i as int), views[i as int]);
            assert(" "@ =~= seq![' ']);
        }
        if i > 0 {
            full_text.append(" ");
        }
        full_text.append(raw_words[i].text.as_str());
        i += 1;
    }
    proof {
        assert(word_views(raw_words@).take(i as int) =~= word_views(raw_words@));
    }
    full_text
}

/// A copy of `words`, word for word.
pub fn clone_words(words: &Vec<Word>) -> (copy: Vec<Word>)
    ensures
        word_views(copy@) == word_views(words@),
{
    let mut copy: Vec<Word> = Vec::new();
    let mut i: usize = 0;
    while i < words.len()
        invariant
            i <= words.len(),
            copy@.len() == i,
            forall|j: int| 0 <= j < i ==> (#[trigger] copy@[j])@ == words@[j]@,
        decreases words.len() - i,
    {
        copy.push(words[i].clone());
        i += 1;
    }
    proof {
        assert(word_views(copy@) =~= word_views(words@));
    }
    copy
}

} // verus!
