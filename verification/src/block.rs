//! Blocks: one speaker's run of words, with its display text.

use vstd::prelude::*;
use crate::text::{build_full_text, full_text_of, word_views};
use crate::word::{Word, WordView};

verus! {

/// One contiguous, speaker-attributed run of transcript words.
///
/// The display text is kept beside the words and is rebuilt whenever they
/// change. A block that was merged into a predecessor stays where it is and
/// is marked as not visible.
#[derive(Debug)]
pub struct RenderBlock {
    id: usize,
    speaker: String,
    raw_words: Vec<Word>,
    full_text: String,
    is_visible: bool,
}

/// The mathematical value of a [`RenderBlock`].
pub struct BlockView {
    pub id: usize,
    pub speaker: Seq<char>,
    pub raw_words: Seq<WordView>,
    pub full_text: Seq<char>,
    pub is_visible: bool,
}

impl BlockView {
    /// The display text is the one that the words give.
    pub open spec fn wf(self) -> bool {
        self.full_text == full_text_of(self.raw_words)
    }

    /// A new, visible block of the given words.
    pub open spec fn fresh(id: usize, speaker: Seq<char>, words: Seq<WordView>) -> BlockView {
        BlockView {
            id,
            speaker,
            raw_words: words,
            full_text: full_text_of(words),
            is_visible: true,
        }
    }

    /// This block with `words` behind its own, and the display text of them all.
    pub open spec fn with_appended(self, words: Seq<WordView>) -> BlockView {
        BlockView {
            raw_words: self.raw_words + words,
            full_text: full_text_of(self.raw_words + words),
            ..self
        }
    }

    /// This block with its visibility set to `visible`.
    pub open spec fn with_visibility(self, visible: bool) -> BlockView {
        BlockView { is_visible: visible, ..self }
    }
}

/// The number of text rows in which a block of `word_count` words is
/// edited: one row for every fifteen words, and six at least.
pub open spec fn edit_rows_of(word_count: nat) -> nat {
    if word_count * 5 / 75 > 6 {
        word_count * 5 / 75
    } else {
        6
    }
}

impl View for RenderBlock {
    type V = BlockView;

    closed spec fn view(&self) -> BlockView {
        BlockView {
            id: self.id,
            speaker: self.speaker@,
            raw_words: word_views(self.raw_words@),
            full_text: self.full_text@,
            is_visible: self.is_visible,
        }
    }
}

impl RenderBlock {
    /// Whether the kept display text is the one that the words give.
    pub open spec fn wf(&self) -> bool {
        self@.wf()
    }

    /// A new, visible block that holds `words`.
    pub fn new(id: usize, speaker: String, words: Vec<Word>) -> (block: RenderBlock)
        ensures
            block@ == BlockView::fresh(id, speaker@, word_views(words@)),
            block.wf(),
    {
        let full_text = build_full_text(&words);
        RenderBlock { id, speaker, raw_words: words, full_text, is_visible: true }
    }

    /// The block's identifier.
    pub fn id(&self) -> (id: usize)
        ensures
            id == self@.id,
    {
        self.id
    }

    /// The label of the speaker.
    pub fn speaker(&self) -> (speaker: &String)
        ensures
            speaker@ == self@.speaker,
    {
        &self.speaker
    }

    /// The block's words, oldest first.
    pub fn raw_words(&self) -> (words: &Vec<Word>)
        ensures
            word_views(words@) == self@.raw_words,
    {
        &self.raw_words
    }

    /// The display text: the words' texts joined by single spaces.
    pub fn full_text(&self) -> (text: &String)
        ensures
            text@ == self@.full_text,
    {
        &self.full_text
    }

    /// Whether the block is shown, that is, was not merged into another.
    pub fn is_visible(&self) -> (visible: bool)
        ensures
            visible == self@.is_visible,
    {
        self.is_visible
    }

    /// The number of text rows in which the block is edited.
    pub fn edit_rows(&self) -> (rows: usize)
        ensures
            rows == edit_rows_of(self@.raw_words.len()),
    {
        let word_count = self.raw_words.len();
        assert(word_count * 5 / 75 == word_count / 15) by (nonlinear_arith);
        let rows = word_count / 15;
        if rows > 6 {
            rows
        } else {
            6
        }
    }

    /// Puts `words` behind the block's own words and rebuilds the display text.
    pub fn append_words(&mut self, words: Vec<Word>)
        ensures
            final(self)@ == old(self)@.with_appended(word_views(words@)),
            final(self).wf(),
    {
        let mut words = words;
        let ghost added = words@;
        self.raw_words.append(&mut words);
        proof {
            assert(word_views(old(self).raw_words@ + added) =~= word_views(old(self).raw_words@)
                + word_views(added));
        }
        self.full_text = build_full_text(&self.raw_words);
    }

    /// Sets whether the block is shown.
    pub fn set_visible(&mut self, visible: bool)
        ensures
            final(self)@ == old(self)@.with_visibility(visible),
            old(self).wf() ==> final(self).wf(),
    {
        self.is_visible = visible;
    }
}

} // verus!
