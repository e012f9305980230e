//! The rules by which the relay's messages change a store.

use vstd::prelude::*;
use crate::block::BlockView;
use crate::messages::{DownMsg, DownMsgView};
use crate::model::{
    appended, created, holds, lemma_merge_target_is, lemma_position_of_place, merge_target,
    merged, position_of, removed,
};
use crate::store::{block_views, BlockStore, CreateResult};
use crate::text::word_views;
use crate::word::Word;

verus! {

/// Why a merge did not hand any words over.
#[derive(Debug, Clone, Copy, PartialEq, Eq, Structural)]
pub enum MergeError {
    /// No block of the store has the identifier; nothing changed.
    BlockNotFound,
    /// The block is the first of the store, with nothing above it; nothing changed.
    FirstElement,
    /// The block above has another speaker; the block was hidden all the same.
    SpeakerMismatch,
}

/// What applying one message came to.
#[derive(Debug, Clone, Copy, PartialEq, Eq, Structural)]
pub enum Outcome {
    /// The message was about the choice of an event, not about a block.
    EventSelected,
    /// A new block was put at the end of the store.
    Created,
    /// The block to create was there already; nothing changed.
    AlreadyExists,
    /// The block took the message's words.
    Edited,
    /// The block was taken out of the store.
    Deleted,
    /// The block was hidden and the one above took the message's words.
    Merged,
    /// The store has no such block; nothing changed.
    BlockNotFound,
    /// The block to merge is the first of the store; nothing changed.
    FirstElementMergeRejected,
    /// The block to merge was hidden, but the one above has another speaker
    /// and took no words.
    SpeakerMismatch,
}

/// What a merge of the block `id` into the one above reports.
pub open spec fn merge_result(blocks: Seq<BlockView>, id: usize) -> Result<(), MergeError> {
    match position_of(blocks, id) {
        Some(from) => if from == 0 {
            Err(MergeError::FirstElement)
        } else if blocks[merge_target(blocks, from)].speaker == blocks[from].speaker {
            Ok(())
        } else {
            Err(MergeError::SpeakerMismatch)
        },
        None => Err(MergeError::BlockNotFound),
    }
}

/// The store after one message.
pub open spec fn applied(blocks: Seq<BlockView>, msg: DownMsgView) -> Seq<BlockView> {
    match msg {
        DownMsgView::EventSelected(_) => blocks,
        DownMsgView::BlockCreated(m) => created(blocks, m.id, m.speaker, m.words),
        DownMsgView::BlockEdited(m) => appended(blocks, m.id, m.words),
        DownMsgView::BlockDeleted(m) => removed(blocks, m.id),
        DownMsgView::BlockMergedWithAbove(m) => merged(blocks, m.id, m.words),
    }
}

/// What applying one message reports.
pub open spec fn outcome_of(blocks: Seq<BlockView>, msg: DownMsgView) -> Outcome {
    match msg {
        DownMsgView::EventSelected(_) => Outcome::EventSelected,
        DownMsgView::BlockCreated(m) => if holds(blocks, m.id) {
            Outcome::AlreadyExists
        } else {
            Outcome::Created
        },
        DownMsgView::BlockEdited(m) => if holds(blocks, m.id) {
            Outcome::Edited
        } else {
            Outcome::BlockNotFound
        },
        DownMsgView::BlockDeleted(m) => if holds(blocks, m.id) {
            Outcome::Deleted
        } else {
            Outcome::BlockNotFound
        },
        DownMsgView::BlockMergedWithAbove(m) => match merge_result(blocks, m.id) {
            Ok(_) => Outcome::Merged,
            Err(MergeError::BlockNotFound) => Outcome::BlockNotFound,
            Err(MergeError::FirstElement) => Outcome::FirstElementMergeRejected,
            Err(MergeError::SpeakerMismatch) => Outcome::SpeakerMismatch,
        },
    }
}

/// Merges the block `id` into the nearest visible block above it.
///
/// The block is hidden, never taken out. Where the block above has the same
/// speaker it takes `words` behind its own and its display text is rebuilt;
/// where it has another, the block is hidden all the same and the error says
/// so. The walk back over hidden blocks ends at the first place of the store,
/// whether that block is visible or not. A missing block and the first block
/// of the store are reported with nothing changed.
pub fn merge_with_above(store: &mut BlockStore, id: usize, words: Vec<Word>) -> (result: Result<
    (),
    MergeError,
>)
    requires
        old(store).wf(),
    ensures
        final(store).wf(),
        final(store)@ == merged(old(store)@, id, word_views(words@)),
        result == merge_result(old(store)@, id),
{
    let from = match store.position_of(id) {
        Some(from) => from,
        None => {
            return Err(MergeError::BlockNotFound);
        },
    };
    if from == 0 {
        return Err(MergeError::FirstElement);
    }
    let blocks = store.blocks();
    let mut target: usize = from - 1;
    while target != 0 && !blocks[target].is_visible()
        invariant
            block_views(blocks@) == store@,
            0 <= target < from < store@.len(),
            forall|j: int| target < j < from ==> !(#[trigger] store@[j]).is_visible,
        decreases target,
    {
        target -= 1;
    }
    proof {
        lemma_merge_target_is(store@, from as int, target as int);
    }
    let same_speaker = *blocks[target].speaker() == *blocks[from].speaker();
    let target_id = blocks[target].id();
    let _ = store.set_visible(id, false);
    if !same_speaker {
        return Err(MergeError::SpeakerMismatch);
    }
    proof {
        lemma_position_of_place(store@, target as int);
    }
    let _ = store.append_words(target_id, words);
    Ok(())
}

/// Applies one message of the relay to the store and reports what it came to.
///
/// A message that cannot be applied leaves the store as it was, but for a
/// merge between different speakers, which hides the block.
pub fn apply(store: &mut BlockStore, msg: DownMsg) -> (outcome: Outcome)
    requires
        old(store).wf(),
    ensures
        final(store).wf(),
        final(store)@ == applied(old(store)@, msg@),
        outcome == outcome_of(old(store)@, msg@),
{
    match msg {
        DownMsg::EventSelected(_) => Outcome::EventSelected,
        DownMsg::BlockCreated(m) => match store.create(m.id, m.speaker, m.words) {
            CreateResult::Created => Outcome::Created,
            CreateResult::AlreadyExists => Outcome::AlreadyExists,
        },
        DownMsg::BlockEdited(m) => match store.append_words(m.id, m.words) {
            Ok(_) => Outcome::Edited,
            Err(_) => Outcome::BlockNotFound,
        },
        DownMsg::BlockDeleted(m) => match store.remove(m.id) {
            Ok(_) => Outcome::Deleted,
            Err(_) => Outcome::BlockNotFound,
        },
        DownMsg::BlockMergedWithAbove(m) => match merge_with_above(store, m.id, m.words) {
            Ok(_) => Outcome::Merged,
            Err(MergeError::BlockNotFound) => Outcome::BlockNotFound,
            Err(MergeError::FirstElement) => Outcome::FirstElementMergeRejected,
            Err(MergeError::SpeakerMismatch) => Outcome::SpeakerMismatch,
        },
    }
}

} // verus!
