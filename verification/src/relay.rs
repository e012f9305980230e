//! What the session relay makes of a client's request, and the feed of
//! blocks that it starts when an event is chosen.
//!
//! The functions here decide; whoever runs the relay sends the messages,
//! reads the files and waits.

use vstd::prelude::*;
use crate::messages::{
    BlockMessage, BlockMessageView, DownMsg, DownMsgView, EventStreamMessage,
    EventStreamMessageView, UpMsg, UpMsgView, Utterance,
};
use crate::naming::{
    block_path, block_path_of, event_name, event_name_of, selection_text, selection_text_of,
};
use crate::text::word_views;

verus! {

/// What the relay does on a request.
#[derive(Debug)]
pub enum Relayed {
    /// The message goes to every client of the session.
    Broadcast(DownMsg),
    /// The message goes to every client of the session, and the blocks of
    /// the named event are fed to them from then on.
    Feed { announce: DownMsg, event_name: String },
}

/// The mathematical value of a [`Relayed`].
pub enum RelayedView {
    Broadcast(DownMsgView),
    Feed { announce: DownMsgView, event_name: Seq<char> },
}

impl View for Relayed {
    type V = RelayedView;

    open spec fn view(&self) -> RelayedView {
        match *self {
            Relayed::Broadcast(m) => RelayedView::Broadcast(m@),
            Relayed::Feed { announce, event_name } => RelayedView::Feed {
                announce: announce@,
                event_name: event_name@,
            },
        }
    }
}

/// What the relay does on each request: an edit, a delete and a merge go
/// back down to every client with the block message that they came with;
/// the choice of an event is announced and starts the feed of its blocks.
pub open spec fn relayed(up_msg: UpMsgView) -> RelayedView {
    match up_msg {
        UpMsgView::DeleteBlock(block) => RelayedView::Broadcast(DownMsgView::BlockDeleted(block)),
        UpMsgView::EditBlock(block) => RelayedView::Broadcast(DownMsgView::BlockEdited(block)),
        UpMsgView::MergeBlockAbove(block) => RelayedView::Broadcast(
            DownMsgView::BlockMergedWithAbove(block),
        ),
        UpMsgView::ChooseEvent(event) => RelayedView::Feed {
            announce: DownMsgView::EventSelected(
                (EventStreamMessageView { id: event.id, data: selection_text_of(event.id) }),
            ),
            event_name: event_name_of(event.id),
        },
    }
}

/// Decides what the relay does on the request `up_msg`.
pub fn up_msg_handler(up_msg: UpMsg) -> (action: Relayed)
    ensures
        action@ == relayed(up_msg@),
{
    match up_msg {
        UpMsg::DeleteBlock(block) => Relayed::Broadcast(DownMsg::BlockDeleted(block)),
        UpMsg::EditBlock(block) => Relayed::Broadcast(DownMsg::BlockEdited(block)),
        UpMsg::MergeBlockAbove(block) => Relayed::Broadcast(DownMsg::BlockMergedWithAbove(block)),
        UpMsg::ChooseEvent(event) => Relayed::Feed {
            announce: DownMsg::EventSelected(
                EventStreamMessage { id: event.id, data: selection_text(event.id) },
            ),
            event_name: event_name(event.id),
        },
    }
}

/// The block that an utterance read for the identifier `id` stands for: the
/// utterance's words under its speaker, or under no name where it has none.
pub open spec fn block_of_utterance(utterance: Utterance, id: usize) -> BlockMessageView {
    BlockMessageView {
        id,
        speaker: match utterance.speaker {
            Some(speaker) => speaker@,
            None => Seq::<char>::empty(),
        },
        words: word_views(utterance.words@),
    }
}

/// The message for the block `id`, from what reading its file gave: none
/// where the file could not be read.
pub fn get_transcription_results(read: Option<Utterance>, id: usize) -> (block: Option<
    BlockMessage,
>)
    ensures
        match read {
            Some(utterance) => block.is_some() && block.unwrap()@ == block_of_utterance(
                utterance,
                id,
            ),
            None => block.is_none(),
        },
{
    match read {
        Some(utterance) => {
            let speaker = match utterance.speaker {
                Some(speaker) => speaker,
                None => String::new(),
            };
            Some(BlockMessage { id, words: utterance.words, speaker })
        },
        None => None,
    }
}

/// The feed of an event's blocks: it asks for one block after the other,
/// from block 1 on, and stays at a block until its file can be read.
#[derive(Debug)]
pub struct BlockFeed {
    event_name: String,
    next_id: usize,
}

impl BlockFeed {
    /// The name of the event that is fed.
    pub closed spec fn event(&self) -> Seq<char> {
        self.event_name@
    }

    /// The identifier of the block that the feed waits for.
    pub closed spec fn waits_for(&self) -> usize {
        self.next_id
    }

    /// The feed of the event named `event_name`, waiting for block 1.
    pub fn new(event_name: String) -> (feed: BlockFeed)
        ensures
            feed.event() == event_name@,
            feed.waits_for() == 1,
    {
        BlockFeed { event_name, next_id: 1 }
    }

    /// The identifier of the block that the feed waits for.
    pub fn next_id(&self) -> (id: usize)
        ensures
            id == self.waits_for(),
    {
        self.next_id
    }

    /// The path of the file to read next.
    pub fn next_path(&self) -> (path: String)
        ensures
            path@ == block_path_of(self.event(), self.waits_for()),
    {
        block_path(self.event_name.as_str(), self.next_id)
    }

    /// Takes what reading the file at [`BlockFeed::next_path`] gave. Where it
    /// gave an utterance, the result is the message that creates its block,
    /// and the feed moves on to the next block; where it gave none, there is
    /// no message and the feed stays.
    pub fn on_read(&mut self, read: Option<Utterance>) -> (msg: Option<DownMsg>)
        requires
            read.is_some() ==> old(self).waits_for() < usize::MAX,
        ensures
            final(self).event() == old(self).event(),
            match read {
                Some(utterance) => {
                    &&& msg.is_some()
                    &&& msg.unwrap()@ == DownMsgView::BlockCreated(
                        block_of_utterance(utterance, old(self).waits_for()),
                    )
                    &&& final(self).waits_for() == old(self).waits_for() + 1
                },
                None => msg.is_none() && final(self).waits_for() == old(self).waits_for(),
            },
    {
        match get_transcription_results(read, self.next_id) {
            Some(block) => {
                self.next_id = self.next_id + 1;
                Some(DownMsg::BlockCreated(block))
            },
            None => None,
        }
    }
}

} // verus!
