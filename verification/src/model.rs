//! The mathematical model of a store: a sequence of block values in arrival
//! order, and what each operation makes of it.

use vstd::prelude::*;
use crate::block::BlockView;
use crate::word::WordView;

verus! {

/// Every block's display text fits its words, and no identifier occurs twice.
pub open spec fn store_wf(blocks: Seq<BlockView>) -> bool {
    &&& forall|i: int| 0 <= i < blocks.len() ==> (#[trigger] blocks[i]).wf()
    &&& forall|i: int, j: int|
        0 <= i < j < blocks.len() ==> (#[trigger] blocks[i]).id != (#[trigger] blocks[j]).id
}

/// Whether some block of the store has the identifier `id`.
pub open spec fn holds(blocks: Seq<BlockView>, id: usize) -> bool {
    exists|i: int| 0 <= i < blocks.len() && (#[trigger] blocks[i]).id == id
}

/// Whether `i` is the place of the first block with the identifier `id`.
pub open spec fn is_position_of(blocks: Seq<BlockView>, id: usize, i: int) -> bool {
    &&& 0 <= i < blocks.len()
    &&& blocks[i].id == id
    &&& forall|j: int| 0 <= j < i ==> (#[trigger] blocks[j]).id != id
}

/// The place, in arrival order, of the first block with the identifier `id`.
pub open spec fn position_of(blocks: Seq<BlockView>, id: usize) -> Option<int> {
    if holds(blocks, id) {
        Some(choose|i: int| is_position_of(blocks, id, i))
    } else {
        None
    }
}

/// The store after a request to create a block: unchanged where the
/// identifier is taken, else with the new block at the end.
pub open spec fn created(
    blocks: Seq<BlockView>,
    id: usize,
    speaker: Seq<char>,
    words: Seq<WordView>,
) -> Seq<BlockView> {
    if holds(blocks, id) {
        blocks
    } else {
        blocks.push(BlockView::fresh(id, speaker, words))
    }
}

/// The store after `words` were appended to the block `id`, if there is one.
pub open spec fn appended(blocks: Seq<BlockView>, id: usize, words: Seq<WordView>) -> Seq<
    BlockView,
> {
    match position_of(blocks, id) {
        Some(i) => blocks.update(i, blocks[i].with_appended(words)),
        None => blocks,
    }
}

/// The store after the block `id`, if there is one, was taken out.
pub open spec fn removed(blocks: Seq<BlockView>, id: usize) -> Seq<BlockView> {
    match position_of(blocks, id) {
        Some(i) => blocks.remove(i),
        None => blocks,
    }
}

/// The store after the visibility of the block `id`, if there is one, was set.
pub open spec fn with_visibility(blocks: Seq<BlockView>, id: usize, visible: bool) -> Seq<
    BlockView,
> {
    match position_of(blocks, id) {
        Some(i) => blocks.update(i, blocks[i].with_visibility(visible)),
        None => blocks,
    }
}

/// The place that a merge from place `from` lands on: the nearest place
/// before `from` whose block is visible, and place 0 where none is.
pub open spec fn merge_target(blocks: Seq<BlockView>, from: int) -> int
    decreases from,
{
    if from <= 1 {
        0
    } else if blocks[from - 1].is_visible {
        from - 1
    } else {
        merge_target(blocks, from - 1)
    }
}

/// Whether a merge of the block `id` into the one above changes the text of
/// its target: the block is there, is not the first, and has its target's speaker.
pub open spec fn merge_combines(blocks: Seq<BlockView>, id: usize) -> bool {
    match position_of(blocks, id) {
        Some(from) => from > 0 && blocks[merge_target(blocks, from)].speaker
            == blocks[from].speaker,
        None => false,
    }
}

/// The store after a merge of the block `id` into the one above, with `words`
/// as the words to hand over.
///
/// Nothing changes where the block is missing or is the first of the store.
/// Else the block is hidden, and where its target has the same speaker the
/// target also takes the words.
pub open spec fn merged(blocks: Seq<BlockView>, id: usize, words: Seq<WordView>) -> Seq<
    BlockView,
> {
    match position_of(blocks, id) {
        Some(from) => if from == 0 {
            blocks
        } else {
            let target = merge_target(blocks, from);
            let hidden = blocks.update(from, blocks[from].with_visibility(false));
            if blocks[target].speaker == blocks[from].speaker {
                hidden.update(target, blocks[target].with_appended(words))
            } else {
                hidden
            }
        },
        None => blocks,
    }
}

/// A place that holds `id` with no earlier one that does is the position of `id`.
pub proof fn lemma_position_is(blocks: Seq<BlockView>, id: usize, i: int)
    requires
        is_position_of(blocks, id, i),
    ensures
        position_of(blocks, id) == Some(i),
{
    let k = choose|k: int| is_position_of(blocks, id, k);
    assert(is_position_of(blocks, id, k));
    if k < i {
        assert(blocks[k].id != id);
    } else if i < k {
        assert(blocks[i].id != id);
    }
}

/// Where some place up to `bound` holds `id`, there is a first such place.
proof fn lemma_first_exists(blocks: Seq<BlockView>, id: usize, bound: int) -> (i: int)
    requires
        0 <= bound < blocks.len(),
        blocks[bound].id == id,
    ensures
        is_position_of(blocks, id, i),
        i <= bound,
    decreases bound,
{
    if exists|j: int| 0 <= j < bound && (#[trigger] blocks[j]).id == id {
        let j = choose|j: int| 0 <= j < bound && (#[trigger] blocks[j]).id == id;
        lemma_first_exists(blocks, id, j)
    } else {
        bound
    }
}

/// What the position of `id` is: the first place that holds it, and nothing
/// exactly where no place does.
pub proof fn lemma_position_of(blocks: Seq<BlockView>, id: usize)
    ensures
        match position_of(blocks, id) {
            Some(i) => is_position_of(blocks, id, i),
            None => forall|j: int| 0 <= j < blocks.len() ==> (#[trigger] blocks[j]).id != id,
        },
{
    if holds(blocks, id) {
        let j = choose|j: int| 0 <= j < blocks.len() && (#[trigger] blocks[j]).id == id;
        let i = lemma_first_exists(blocks, id, j);
        lemma_position_is(blocks, id, i);
    }
}

/// In a well-formed store every place is the position of its block's identifier.
pub proof fn lemma_position_of_place(blocks: Seq<BlockView>, i: int)
    requires
        store_wf(blocks),
        0 <= i < blocks.len(),
    ensures
        position_of(blocks, blocks[i].id) == Some(i),
{
    assert forall|j: int| 0 <= j < i implies (#[trigger] blocks[j]).id != blocks[i].id by {}
    lemma_position_is(blocks, blocks[i].id, i);
}

/// What the target of a merge is: a place before `from`, with only hidden
/// blocks between the two, whose block is visible unless it is place 0.
pub proof fn lemma_merge_target(blocks: Seq<BlockView>, from: int)
    requires
        0 < from <= blocks.len(),
    ensures
        0 <= merge_target(blocks, from) < from,
        forall|j: int| merge_target(blocks, from) < j < from ==> !(#[trigger] blocks[j]).is_visible,
        merge_target(blocks, from) == 0 || blocks[merge_target(blocks, from)].is_visible,
    decreases from,
{
    if from > 1 && !blocks[from - 1].is_visible {
        lemma_merge_target(blocks, from - 1);
    }
}

/// A place before `from` with only hidden blocks between the two, whose
/// block is visible unless it is place 0, is the target of the merge.
pub proof fn lemma_merge_target_is(blocks: Seq<BlockView>, from: int, target: int)
    requires
        0 <= target < from <= blocks.len(),
        forall|j: int| target < j < from ==> !(#[trigger] blocks[j]).is_visible,
        target == 0 || blocks[target].is_visible,
    ensures
        merge_target(blocks, from) == target,
    decreases from,
{
    if from > 1 && target < from - 1 {
        assert(!blocks[from - 1].is_visible);
        lemma_merge_target_is(blocks, from - 1, target);
    }
}

} // verus!
