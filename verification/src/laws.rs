//! What holds of the store's operations, taken together.

use vstd::prelude::*;
use crate::block::BlockView;
use crate::engine::{applied, merge_result, MergeError};
use crate::messages::{BlockMessageView, DownMsgView, UpMsgView};
use crate::relay::{relayed, RelayedView};
use crate::model::{
    appended, created, holds, is_position_of, lemma_merge_target, lemma_merge_target_is,
    lemma_position_is, lemma_position_of, merge_target, merged, position_of, removed, store_wf,
    with_visibility,
};
use crate::text::{full_text_of, lemma_full_text_concat, lemma_full_text_push};
use crate::word::WordView;

verus! {

/// Two words read as the first one's text, a space, and the second one's text.
pub proof fn lemma_full_text_of_two(first: WordView, second: WordView)
    ensures
        full_text_of(seq![first, second]) == first.text + seq![' '] + second.text,
{
    let one = Seq::<WordView>::empty().push(first);
    assert(seq![first, second] =~= one.push(second));
    lemma_full_text_push(Seq::<WordView>::empty(), first);
    lemma_full_text_push(one, second);
}

/// Creating keeps a store well formed, and afterwards the store holds the
/// identifier at exactly one place.
pub proof fn lemma_created_holds_once(
    blocks: Seq<BlockView>,
    id: usize,
    speaker: Seq<char>,
    words: Seq<WordView>,
)
    requires
        store_wf(blocks),
    ensures
        store_wf(created(blocks, id, speaker, words)),
        holds(created(blocks, id, speaker, words), id),
        forall|i: int, j: int|
            0 <= i < j < created(blocks, id, speaker, words).len() ==> !(created(
                blocks,
                id,
                speaker,
                words,
            )[i].id == id && created(blocks, id, speaker, words)[j].id == id),
{
    let after = created(blocks, id, speaker, words);
    if !holds(blocks, id) {
        assert(after[blocks.len() as int].id == id);
        assert forall|i: int, j: int| 0 <= i < j < after.len() implies (#[trigger] after[i]).id != (
        #[trigger] after[j]).id by {
            if j == blocks.len() {
                assert(blocks[i].id != id);
            } else {
                assert(after[i] == blocks[i] && after[j] == blocks[j]);
            }
        }
        assert forall|i: int| 0 <= i < after.len() implies (#[trigger] after[i]).wf() by {
            if i < blocks.len() {
                assert(after[i] == blocks[i]);
            }
        }
    }
}

/// Creating the same block twice gives the store that creating it once gives.
pub proof fn lemma_create_is_idempotent(
    blocks: Seq<BlockView>,
    id: usize,
    speaker: Seq<char>,
    words: Seq<WordView>,
)
    ensures
        created(created(blocks, id, speaker, words), id, speaker, words) == created(
            blocks,
            id,
            speaker,
            words,
        ),
{
    lemma_create_again_changes_nothing(blocks, id, speaker, words, speaker, words);
}

/// A second request to create a block changes nothing, whatever speaker and
/// words it names.
pub proof fn lemma_create_again_changes_nothing(
    blocks: Seq<BlockView>,
    id: usize,
    speaker: Seq<char>,
    words: Seq<WordView>,
    other_speaker: Seq<char>,
    other_words: Seq<WordView>,
)
    ensures
        created(created(blocks, id, speaker, words), id, other_speaker, other_words) == created(
            blocks,
            id,
            speaker,
            words,
        ),
{
    let once = created(blocks, id, speaker, words);
    if !holds(blocks, id) {
        assert(once[blocks.len() as int].id == id);
    }
    assert(holds(once, id));
}

/// Words appended to a block that was just created accumulate: the block
/// holds the words it was created with and then the appended ones, and its
/// display text is that of them all.
pub proof fn lemma_append_after_create(
    blocks: Seq<BlockView>,
    id: usize,
    speaker: Seq<char>,
    words: Seq<WordView>,
    more: Seq<WordView>,
)
    requires
        !holds(blocks, id),
    ensures
        appended(created(blocks, id, speaker, words), id, more) == blocks.push(
            BlockView::fresh(id, speaker, words + more),
        ),
        words.len() > 0 && more.len() > 0 ==> BlockView::fresh(id, speaker, words + more).full_text
            == full_text_of(words) + seq![' '] + full_text_of(more),
{
    let once = created(blocks, id, speaker, words);
    let last = blocks.len() as int;
    assert forall|j: int| 0 <= j < last implies (#[trigger] once[j]).id != id by {
        assert(once[j] == blocks[j]);
    }
    lemma_position_is(once, id, last);
    assert(appended(once, id, more) =~= blocks.push(BlockView::fresh(id, speaker, words + more)));
    lemma_full_text_concat(words, more);
}

/// Appending in two steps gives what appending all the words at once gives.
pub proof fn lemma_append_accumulates(
    blocks: Seq<BlockView>,
    id: usize,
    words: Seq<WordView>,
    more: Seq<WordView>,
)
    ensures
        appended(appended(blocks, id, words), id, more) == appended(blocks, id, words + more),
{
    lemma_position_of(blocks, id);
    match position_of(blocks, id) {
        Some(i) => {
            let once = appended(blocks, id, words);
            assert forall|j: int| 0 <= j < i implies (#[trigger] once[j]).id != id by {
                assert(once[j] == blocks[j]);
            }
            lemma_position_is(once, id, i);
            assert((blocks[i].raw_words + words) + more =~= blocks[i].raw_words + (words + more));
            assert(appended(once, id, more) =~= appended(blocks, id, words + more));
        },
        None => {},
    }
}

/// A merge asked of the first block of the store changes nothing and is
/// reported as such.
pub proof fn lemma_merge_of_first_changes_nothing(
    blocks: Seq<BlockView>,
    id: usize,
    words: Seq<WordView>,
)
    requires
        blocks.len() > 0,
        blocks[0].id == id,
    ensures
        merged(blocks, id, words) == blocks,
        merge_result(blocks, id) == Err::<(), MergeError>(MergeError::FirstElement),
{
    lemma_position_is(blocks, id, 0);
}

/// A merge asked of a block that the store does not hold changes nothing and
/// is reported as such.
pub proof fn lemma_merge_of_missing_changes_nothing(
    blocks: Seq<BlockView>,
    id: usize,
    words: Seq<WordView>,
)
    requires
        !holds(blocks, id),
    ensures
        merged(blocks, id, words) == blocks,
        merge_result(blocks, id) == Err::<(), MergeError>(MergeError::BlockNotFound),
{
}

/// A merge between different speakers hides the block and combines nothing:
/// every other block, the target among them, stays as it was.
pub proof fn lemma_merge_speaker_mismatch(
    blocks: Seq<BlockView>,
    id: usize,
    words: Seq<WordView>,
    from: int,
)
    requires
        is_position_of(blocks, id, from),
        from > 0,
        blocks[merge_target(blocks, from)].speaker != blocks[from].speaker,
    ensures
        merge_result(blocks, id) == Err::<(), MergeError>(MergeError::SpeakerMismatch),
        merged(blocks, id, words).len() == blocks.len(),
        merged(blocks, id, words)[from] == blocks[from].with_visibility(false),
        !merged(blocks, id, words)[from].is_visible,
        forall|j: int|
            0 <= j < blocks.len() && j != from ==> merged(blocks, id, words)[j] == blocks[j],
        merged(blocks, id, words) == with_visibility(blocks, id, false),
{
    lemma_position_is(blocks, id, from);
}

/// A merge lands on the nearest visible block above, passing over hidden
/// ones: where `target` is visible, every block between it and the merged
/// block is hidden, and the two have one speaker, `target` takes the words
/// and reads as all its words; the merged block is hidden; the rest stays.
pub proof fn lemma_merge_skips_hidden(
    blocks: Seq<BlockView>,
    id: usize,
    words: Seq<WordView>,
    target: int,
    from: int,
)
    requires
        is_position_of(blocks, id, from),
        0 <= target < from,
        blocks[target].is_visible,
        forall|j: int| target < j < from ==> !(#[trigger] blocks[j]).is_visible,
        blocks[target].speaker == blocks[from].speaker,
    ensures
        merge_result(blocks, id) == Ok::<(), MergeError>(()),
        merged(blocks, id, words).len() == blocks.len(),
        merged(blocks, id, words)[target] == blocks[target].with_appended(words),
        merged(blocks, id, words)[target].full_text == full_text_of(
            blocks[target].raw_words + words,
        ),
        merged(blocks, id, words)[from] == blocks[from].with_visibility(false),
        forall|j: int|
            0 <= j < blocks.len() && j != from && j != target ==> merged(blocks, id, words)[j]
                == blocks[j],
{
    lemma_position_is(blocks, id, from);
    lemma_merge_target_is(blocks, from, target);
}

/// The text that a merge target shows afterwards: its own text, a space, and
/// the text of the words it took, where neither is without words.
pub proof fn lemma_merge_joins_texts(target: BlockView, words: Seq<WordView>)
    requires
        target.wf(),
    ensures
        target.with_appended(words).wf(),
        target.with_appended(words).full_text == if target.raw_words.len() == 0 {
            full_text_of(words)
        } else if words.len() == 0 {
            target.full_text
        } else {
            target.full_text + seq![' '] + full_text_of(words)
        },
{
    lemma_full_text_concat(target.raw_words, words);
}

/// A merge never takes a block out of the store nor changes an identifier,
/// and it keeps the store well formed.
pub proof fn lemma_merge_keeps_blocks(blocks: Seq<BlockView>, id: usize, words: Seq<WordView>)
    requires
        store_wf(blocks),
    ensures
        store_wf(merged(blocks, id, words)),
        merged(blocks, id, words).len() == blocks.len(),
        forall|j: int|
            0 <= j < blocks.len() ==> (#[trigger] merged(blocks, id, words)[j]).id == blocks[j].id,
{
    lemma_position_of(blocks, id);
    match position_of(blocks, id) {
        Some(from) => {
            if from > 0 {
                lemma_merge_target(blocks, from);
                let after = merged(blocks, id, words);
                assert forall|j: int| 0 <= j < blocks.len() implies (#[trigger] after[j]).id
                    == blocks[j].id && after[j].wf() by {
                    assert(blocks[j].wf());
                }
            }
        },
        None => {},
    }
}

/// Removing a block takes it out for good: the store no longer holds the
/// identifier, the blocks before its place stay at their places, and those
/// behind it move up by one, in their order.
pub proof fn lemma_remove_takes_out(blocks: Seq<BlockView>, id: usize, at: int)
    requires
        store_wf(blocks),
        is_position_of(blocks, id, at),
    ensures
        store_wf(removed(blocks, id)),
        !holds(removed(blocks, id), id),
        position_of(removed(blocks, id), id).is_none(),
        removed(blocks, id).len() == blocks.len() - 1,
        forall|j: int| 0 <= j < at ==> removed(blocks, id)[j] == blocks[j],
        forall|j: int| at <= j < blocks.len() - 1 ==> removed(blocks, id)[j] == blocks[j + 1],
{
    lemma_position_is(blocks, id, at);
    let after = removed(blocks, id);
    assert(after == blocks.remove(at));
    assert forall|j: int| 0 <= j < after.len() implies (#[trigger] after[j]).id != id
        && after[j].wf() by {
        if j < at {
            assert(after[j] == blocks[j]);
        } else {
            assert(after[j] == blocks[j + 1]);
            assert(blocks[at].id != blocks[j + 1].id);
        }
    }
    assert forall|i: int, j: int| 0 <= i < j < after.len() implies (#[trigger] after[i]).id != (
    #[trigger] after[j]).id by {
        let i0 = if i < at { i } else { i + 1 };
        let j0 = if j < at { j } else { j + 1 };
        assert(after[i] == blocks[i0] && after[j] == blocks[j0]);
    }
}

/// Removing a block that the store does not hold changes nothing.
pub proof fn lemma_remove_of_missing_changes_nothing(blocks: Seq<BlockView>, id: usize)
    requires
        !holds(blocks, id),
    ensures
        removed(blocks, id) == blocks,
{
}

/// Appending keeps a store well formed, with every block at its place and
/// under its identifier.
pub proof fn lemma_append_keeps_blocks(blocks: Seq<BlockView>, id: usize, words: Seq<WordView>)
    requires
        store_wf(blocks),
    ensures
        store_wf(appended(blocks, id, words)),
        appended(blocks, id, words).len() == blocks.len(),
        forall|j: int|
            0 <= j < blocks.len() ==> (#[trigger] appended(blocks, id, words)[j]).id
                == blocks[j].id && appended(blocks, id, words)[j].is_visible
                == blocks[j].is_visible,
{
    lemma_position_of(blocks, id);
    let after = appended(blocks, id, words);
    assert forall|j: int| 0 <= j < blocks.len() implies (#[trigger] after[j]).id == blocks[j].id
        && after[j].is_visible == blocks[j].is_visible && after[j].wf() by {
        assert(blocks[j].wf());
    }
}

/// Every message leaves a well-formed store well formed.
pub proof fn lemma_apply_keeps_store_wf(blocks: Seq<BlockView>, msg: DownMsgView)
    requires
        store_wf(blocks),
    ensures
        store_wf(applied(blocks, msg)),
{
    match msg {
        DownMsgView::EventSelected(_) => {},
        DownMsgView::BlockCreated(m) => {
            lemma_created_holds_once(blocks, m.id, m.speaker, m.words);
        },
        DownMsgView::BlockEdited(m) => {
            lemma_append_keeps_blocks(blocks, m.id, m.words);
        },
        DownMsgView::BlockDeleted(m) => {
            lemma_position_of(blocks, m.id);
            match position_of(blocks, m.id) {
                Some(at) => {
                    lemma_remove_takes_out(blocks, m.id, at);
                },
                None => {},
            }
        },
        DownMsgView::BlockMergedWithAbove(m) => {
            lemma_merge_keeps_blocks(blocks, m.id, m.words);
        },
    }
}

/// No message makes a hidden block visible again: a block that is hidden
/// before a message is hidden after it, unless the message took it out.
pub proof fn lemma_hidden_stays_hidden(
    blocks: Seq<BlockView>,
    msg: DownMsgView,
    id: usize,
    before: int,
    after: int,
)
    requires
        store_wf(blocks),
        is_position_of(blocks, id, before),
        !blocks[before].is_visible,
        is_position_of(applied(blocks, msg), id, after),
    ensures
        !applied(blocks, msg)[after].is_visible,
{
    let next = applied(blocks, msg);
    match msg {
        DownMsgView::EventSelected(_) => {
            assert(after == before) by {
                lemma_position_is(blocks, id, before);
                lemma_position_is(blocks, id, after);
            }
        },
        DownMsgView::BlockCreated(m) => {
            if after != before {
                if after < blocks.len() {
                    assert(next[after] == blocks[after]);
                    lemma_position_is(blocks, id, before);
                    if after < before {
                        assert(blocks[after].id != blocks[before].id);
                    } else {
                        assert(blocks[before].id != blocks[after].id);
                    }
                } else {
                    assert(next[before] == blocks[before]);
                }
            }
        },
        DownMsgView::BlockEdited(m) => {
            lemma_append_keeps_blocks(blocks, m.id, m.words);
            if after != before {
                if after < before {
                    assert(blocks[after].id != blocks[before].id);
                } else {
                    assert(blocks[before].id != blocks[after].id);
                }
            }
        },
        DownMsgView::BlockDeleted(m) => {
            lemma_position_of(blocks, m.id);
            match position_of(blocks, m.id) {
                Some(at) => {
                    lemma_remove_takes_out(blocks, m.id, at);
                    let origin = if after < at {
                        after
                    } else {
                        after + 1
                    };
                    assert(next[after] == blocks[origin]);
                    if origin < before {
                        assert(blocks[origin].id != blocks[before].id);
                    } else if before < origin {
                        assert(blocks[before].id != blocks[origin].id);
                    }
                },
                None => {
                    if after < before {
                        assert(blocks[after].id != blocks[before].id);
                    } else if before < after {
                        assert(blocks[before].id != blocks[after].id);
                    }
                },
            }
        },
        DownMsgView::BlockMergedWithAbove(m) => {
            lemma_merge_keeps_blocks(blocks, m.id, m.words);
            assert(next[after].id == blocks[after].id);
            if after < before {
                assert(blocks[after].id != blocks[before].id);
            } else if before < after {
                assert(blocks[before].id != blocks[after].id);
            }
            lemma_position_of(blocks, m.id);
            match position_of(blocks, m.id) {
                Some(from) => {
                    if from > 0 {
                        lemma_merge_target(blocks, from);
                    }
                },
                None => {},
            }
        },
    }
}

/// A request to merge that names the block's own speaker and words, once
/// the relay has passed it on and the store has taken it, hands the block's
/// own words over to its target.
pub proof fn lemma_relayed_merge_hands_own_words_over(blocks: Seq<BlockView>, id: usize, from: int)
    requires
        is_position_of(blocks, id, from),
    ensures
        relayed(
            UpMsgView::MergeBlockAbove(
                (BlockMessageView {
                    id,
                    speaker: blocks[from].speaker,
                    words: blocks[from].raw_words,
                }),
            ),
        ) matches RelayedView::Broadcast(down) && applied(blocks, down) == merged(
            blocks,
            id,
            blocks[from].raw_words,
        ),
{
}

/// A request to delete, once the relay has passed it on and the store has
/// taken it, takes the block out, whatever speaker and words the request names.
pub proof fn lemma_relayed_delete_takes_out(blocks: Seq<BlockView>, request: BlockMessageView)
    ensures
        relayed(UpMsgView::DeleteBlock(request)) matches RelayedView::Broadcast(down) && down
            == DownMsgView::BlockDeleted(request) && applied(blocks, down) == removed(
            blocks,
            request.id,
        ),
{
}

} // verus!
