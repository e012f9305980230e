//! The ordered store of blocks.

use vstd::prelude::*;
use crate::block::{BlockView, RenderBlock};
use crate::model::{
    appended, created, holds, is_position_of, lemma_position_is, position_of,
    removed, store_wf, with_visibility,
};
use crate::text::word_views;
use crate::word::Word;

verus! {

/// What a request to create a block came to.
#[derive(Debug, Clone, Copy, PartialEq, Eq, Structural)]
pub enum CreateResult {
    /// The block was put at the end of the store.
    Created,
    /// A block with that identifier was there already; nothing changed.
    AlreadyExists,
}

/// Why an operation on one block changed nothing.
#[derive(Debug, Clone, Copy, PartialEq, Eq, Structural)]
pub enum StoreError {
    /// No block of the store has the identifier.
    BlockNotFound,
}

/// The values of the blocks of a vector, in order.
pub open spec fn block_views(blocks: Seq<RenderBlock>) -> Seq<BlockView> {
    Seq::new(blocks.len(), |i: int| blocks[i]@)
}

/// The blocks of one transcript, in the order in which they arrived.
#[derive(Debug)]
pub struct BlockStore {
    blocks: Vec<RenderBlock>,
}

impl View for BlockStore {
    type V = Seq<BlockView>;

    closed spec fn view(&self) -> Seq<BlockView> {
        block_views(self.blocks@)
    }
}

impl BlockStore {
    /// Every block's display text fits its words, and no identifier occurs twice.
    pub open spec fn wf(&self) -> bool {
        store_wf(self@)
    }

    /// A store without blocks.
    pub fn new() -> (store: BlockStore)
        ensures
            store@ == Seq::<BlockView>::empty(),
            store.wf(),
    {
        let store = BlockStore { blocks: Vec::new() };
        assert(store@ =~= Seq::<BlockView>::empty());
        store
    }

    /// The blocks, in arrival order.
    pub fn blocks(&self) -> (blocks: &Vec<RenderBlock>)
        ensures
            block_views(blocks@) == self@,
    {
        &self.blocks
    }

    /// The number of blocks, the hidden ones included.
    pub fn len(&self) -> (len: usize)
        ensures
            len == self@.len(),
    {
        self.blocks.len()
    }

    /// Whether the store has any block, hidden ones included.
    pub fn blocks_exist(&self) -> (any: bool)
        ensures
            any == (self@.len() > 0),
    {
        self.blocks.len() > 0
    }

    /// The current place of the block `id` in arrival order.
    pub fn position_of(&self, id: usize) -> (position: Option<usize>)
        ensures
            match position {
                Some(i) => position_of(self@, id) == Some(i as int) && is_position_of(
                    self@,
                    id,
                    i as int,
                ),
                None => position_of(self@, id).is_none() && !holds(self@, id),
            },
    {
        let mut i: usize = 0;
        while i < self.blocks.len()
            invariant
                i <= self.blocks.len(),
                forall|j: int| 0 <= j < i ==> (#[trigger] self@[j]).id != id,
            decreases self.blocks.len() - i,
        {
            if self.blocks[i].id() == id {
                proof {
                    lemma_position_is(self@, id, i as int);
                }
                return Some(i);
            }
            i += 1;
        }
        None
    }

    /// The block `id`, if the store has one.
    pub fn find(&self, id: usize) -> (found: Option<&RenderBlock>)
        ensures
            match position_of(self@, id) {
                Some(i) => found.is_some() && found.unwrap()@ == self@[i],
                None => found.is_none(),
            },
    {
        match self.position_of(id) {
            Some(i) => Some(&self.blocks[i]),
            None => None,
        }
    }

    /// Puts a new visible block of `words` at the end, unless the store has
    /// a block `id` already: then nothing changes.
    pub fn create(&mut self, id: usize, speaker: String, words: Vec<Word>) -> (result:
        CreateResult)
        requires
            old(self).wf(),
        ensures
            final(self).wf(),
            final(self)@ == created(old(self)@, id, speaker@, word_views(words@)),
            result == if holds(old(self)@, id) {
                CreateResult::AlreadyExists
            } else {
                CreateResult::Created
            },
    {
        match self.position_of(id) {
            Some(_) => CreateResult::AlreadyExists,
            None => {
                let block = RenderBlock::new(id, speaker, words);
                self.blocks.push(block);
                proof {
                    assert(self@ =~= old(self)@.push(block@));
                }
                CreateResult::Created
            },
        }
    }

    /// Puts `new_words` behind the words of the block `id` and rebuilds its
    /// display text. Without such a block nothing changes.
    pub fn append_words(&mut self, id: usize, new_words: Vec<Word>) -> (result: Result<
        (),
        StoreError,
    >)
        requires
            old(self).wf(),
        ensures
            final(self).wf(),
            final(self)@ == appended(old(self)@, id, word_views(new_words@)),
            result == if holds(old(self)@, id) {
                Ok::<(), StoreError>(())
            } else {
                Err::<(), StoreError>(StoreError::BlockNotFound)
            },
    {
        match self.position_of(id) {
            Some(i) => {
                self.blocks[i].append_words(new_words);
                proof {
                    assert(self@ =~= old(self)@.update(
                        i as int,
                        old(self)@[i as int].with_appended(word_views(new_words@)),
                    ));
                }
                Ok(())
            },
            None => Err(StoreError::BlockNotFound),
        }
    }

    /// Takes the block `id` out of the store; the others keep their order.
    /// Without such a block nothing changes.
    pub fn remove(&mut self, id: usize) -> (result: Result<(), StoreError>)
        requires
            old(self).wf(),
        ensures
            final(self).wf(),
            final(self)@ == removed(old(self)@, id),
            result == if holds(old(self)@, id) {
                Ok::<(), StoreError>(())
            } else {
                Err::<(), StoreError>(StoreError::BlockNotFound)
            },
    {
        match self.position_of(id) {
            Some(i) => {
                let _ = self.blocks.remove(i);
                proof {
                    assert(self@ =~= old(self)@.remove(i as int));
                }
                Ok(())
            },
            None => Err(StoreError::BlockNotFound),
        }
    }

    /// Sets whether the block `id` is shown. Without such a block nothing changes.
    pub fn set_visible(&mut self, id: usize, visible: bool) -> (result: Result<(), StoreError>)
        requires
            old(self).wf(),
        ensures
            final(self).wf(),
            final(self)@ == with_visibility(old(self)@, id, visible),
            result == if holds(old(self)@, id) {
                Ok::<(), StoreError>(())
            } else {
                Err::<(), StoreError>(StoreError::BlockNotFound)
            },
    {
        match self.position_of(id) {
            Some(i) => {
                self.blocks[i].set_visible(visible);
                proof {
                    assert(self@ =~= old(self)@.update(
                        i as int,
                        old(self)@[i as int].with_visibility(visible),
                    ));
                }
                Ok(())
            },
            None => Err(StoreError::BlockNotFound),
        }
    }
}

} // verus!
