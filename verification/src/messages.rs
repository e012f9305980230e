//! The messages that a client and the session relay exchange.

use vstd::prelude::*;
use crate::text::word_views;
use crate::word::{Word, WordView};

verus! {

/// What a client asks of the relay.
#[derive(Debug)]
pub enum UpMsg {
    ChooseEvent(EventChoiceMessage),
    EditBlock(BlockMessage),
    DeleteBlock(BlockMessage),
    MergeBlockAbove(BlockMessage),
}

/// What the relay tells every client of a session.
#[derive(Debug)]
pub enum DownMsg {
    EventSelected(EventStreamMessage),
    BlockCreated(BlockMessage),
    BlockEdited(BlockMessage),
    BlockDeleted(BlockMessage),
    BlockMergedWithAbove(BlockMessage),
}

/// A block's identifier and speaker, with the words that the message is about.
#[derive(Debug)]
pub struct BlockMessage {
    pub id: usize,
    pub speaker: String,
    pub words: Vec<Word>,
}

/// The answer to the choice of an event.
#[derive(Debug)]
pub struct EventStreamMessage {
    pub id: usize,
    pub data: String,
}

/// The choice of an event.
#[derive(Debug, Clone, Copy, PartialEq, Eq, Structural)]
pub struct EventChoiceMessage {
    pub id: usize,
}

/// One utterance as the recognizer reports it: a speaker's words with their
/// text and the span of audio that they cover.
///
/// `confidence` is a bit pattern, as in [`Word`].
#[derive(Debug)]
pub struct Utterance {
    pub confidence: u32,
    pub audio_end: usize,
    pub speaker: Option<String>,
    pub audio_start: usize,
    pub text: String,
    pub words: Vec<Word>,
}

/// The mathematical value of a [`BlockMessage`].
pub struct BlockMessageView {
    pub id: usize,
    pub speaker: Seq<char>,
    pub words: Seq<WordView>,
}

/// The mathematical value of an [`EventStreamMessage`].
pub struct EventStreamMessageView {
    pub id: usize,
    pub data: Seq<char>,
}

/// The mathematical value of an [`UpMsg`].
pub enum UpMsgView {
    ChooseEvent(EventChoiceMessage),
    EditBlock(BlockMessageView),
    DeleteBlock(BlockMessageView),
    MergeBlockAbove(BlockMessageView),
}

/// The mathematical value of a [`DownMsg`].
pub enum DownMsgView {
    EventSelected(EventStreamMessageView),
    BlockCreated(BlockMessageView),
    BlockEdited(BlockMessageView),
    BlockDeleted(BlockMessageView),
    BlockMergedWithAbove(BlockMessageView),
}

impl View for BlockMessage {
    type V = BlockMessageView;

    open spec fn view(&self) -> BlockMessageView {
        BlockMessageView { id: self.id, speaker: self.speaker@, words: word_views(self.words@) }
    }
}

impl View for EventStreamMessage {
    type V = EventStreamMessageView;

    open spec fn view(&self) -> EventStreamMessageView {
        EventStreamMessageView { id: self.id, data: self.data@ }
    }
}

impl View for UpMsg {
    type V = UpMsgView;

    open spec fn view(&self) -> UpMsgView {
        match *self {
            UpMsg::ChooseEvent(m) => UpMsgView::ChooseEvent(m),
            UpMsg::EditBlock(m) => UpMsgView::EditBlock(m@),
            UpMsg::DeleteBlock(m) => UpMsgView::DeleteBlock(m@),
            UpMsg::MergeBlockAbove(m) => UpMsgView::MergeBlockAbove(m@),
        }
    }
}

impl View for DownMsg {
    type V = DownMsgView;

    open spec fn view(&self) -> DownMsgView {
        match *self {
            DownMsg::EventSelected(m) => DownMsgView::EventSelected(m@),
            DownMsg::BlockCreated(m) => DownMsgView::BlockCreated(m@),
            DownMsg::BlockEdited(m) => DownMsgView::BlockEdited(m@),
            DownMsg::BlockDeleted(m) => DownMsgView::BlockDeleted(m@),
            DownMsg::BlockMergedWithAbove(m) => DownMsgView::BlockMergedWithAbove(m@),
        }
    }
}

} // verus!
