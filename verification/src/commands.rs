//! The requests that a client sends up to the relay.
//!
//! A request changes nothing in the client's own store: the store follows
//! only the messages that come back down.

use vstd::prelude::*;
use crate::messages::{BlockMessage, BlockMessageView, EventChoiceMessage, UpMsg, UpMsgView};
use crate::model::{holds, position_of};
use crate::navigation::Route;
use crate::store::BlockStore;
use crate::text::{clone_words, word_views};
use crate::word::{Word, WordView};

verus! {

/// The speaker that a request to delete names; the relay reads the identifier only.
pub open spec fn no_speaker() -> Seq<char> {
    "n/a"@
}

/// The request to choose an event, where one is set.
pub fn choose_event(event_id: Option<usize>) -> (msg: Option<UpMsg>)
    ensures
        match event_id {
            Some(id) => msg.is_some() && msg.unwrap()@ == UpMsgView::ChooseEvent(
                (EventChoiceMessage { id }),
            ),
            None => msg.is_none(),
        },
{
    match event_id {
        Some(id) => Some(UpMsg::ChooseEvent(EventChoiceMessage { id })),
        None => None,
    }
}

/// The request to delete the block `id`. It carries no words.
pub fn remove_block(id: usize) -> (msg: UpMsg)
    ensures
        msg@ == UpMsgView::DeleteBlock(
            (BlockMessageView { id, speaker: no_speaker(), words: Seq::<WordView>::empty() }),
        ),
{
    let words: Vec<Word> = Vec::new();
    assert(word_views(words@) =~= Seq::<WordView>::empty());
    UpMsg::DeleteBlock(BlockMessage { id, speaker: String::from_str("n/a"), words })
}

/// The request to merge the block `id` into the one above: it names the
/// block's speaker and hands over a copy of all its words. There is no
/// request where the store has no such block.
pub fn merge_above(store: &BlockStore, id: usize) -> (msg: Option<UpMsg>)
    ensures
        match position_of(store@, id) {
            Some(i) => msg.is_some() && msg.unwrap()@ == UpMsgView::MergeBlockAbove(
                (BlockMessageView {
                    id,
                    speaker: store@[i].speaker,
                    words: store@[i].raw_words,
                }),
            ),
            None => msg.is_none(),
        },
{
    match store.find(id) {
        Some(block) => Some(
            UpMsg::MergeBlockAbove(
                BlockMessage {
                    id,
                    speaker: block.speaker().clone(),
                    words: clone_words(block.raw_words()),
                },
            ),
        ),
        None => None,
    }
}

/// The request to add `words` to the block `id`, under the block's speaker.
/// There is no request where the store has no such block.
pub fn block_edit_message(store: &BlockStore, id: usize, words: Vec<Word>) -> (msg: Option<UpMsg>)
    ensures
        match position_of(store@, id) {
            Some(i) => msg.is_some() && msg.unwrap()@ == UpMsgView::EditBlock(
                (BlockMessageView { id, speaker: store@[i].speaker, words: word_views(words@) }),
            ),
            None => msg.is_none(),
        },
{
    match store.find(id) {
        Some(block) => Some(
            UpMsg::EditBlock(BlockMessage { id, speaker: block.speaker().clone(), words }),
        ),
        None => None,
    }
}

/// The route to the page on which the block `id` of the event `event_id` is
/// edited. There is none where the store has no such block.
pub fn edit_block(store: &BlockStore, event_id: usize, id: usize) -> (route: Option<Route>)
    ensures
        route == if holds(store@, id) {
            Some(Route::BlockEdit { event_id, block_id: id })
        } else {
            None
        },
{
    match store.position_of(id) {
        Some(_) => Some(Route::BlockEdit { event_id, block_id: id }),
        None => None,
    }
}

} // verus!
