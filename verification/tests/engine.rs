use jadili::engine::{apply, merge_with_above, MergeError, Outcome};
use jadili::messages::{BlockMessage, DownMsg, EventStreamMessage};
use jadili::store::BlockStore;
use jadili::word::Word;

fn word(text: &str) -> Word {
    Word {
        confidence: 0.8f32.to_bits(),
        end: 900,
        speaker: None,
        start: 100,
        text: text.to_string(),
    }
}

fn message(id: usize, speaker: &str, texts: &[&str]) -> BlockMessage {
    BlockMessage {
        id,
        speaker: speaker.to_string(),
        words: texts.iter().map(|t| word(t)).collect(),
    }
}

fn store_of(blocks: &[(usize, &str, &[&str])]) -> BlockStore {
    let mut store = BlockStore::new();
    for (id, speaker, texts) in blocks {
        let outcome = apply(&mut store, DownMsg::BlockCreated(message(*id, speaker, texts)));
        assert_eq!(outcome, Outcome::Created);
    }
    store
}

fn snapshot(store: &BlockStore) -> Vec<(usize, String, String, bool)> {
    store
        .blocks()
        .iter()
        .map(|b| (b.id(), b.speaker().clone(), b.full_text().clone(), b.is_visible()))
        .collect()
}

fn row(id: usize, speaker: &str, text: &str, visible: bool) -> (usize, String, String, bool) {
    (id, speaker.to_string(), text.to_string(), visible)
}

#[test]
fn merge_of_only_block_changes_nothing() {
    let mut store = store_of(&[(1, "A", &["foo"])]);
    let before = snapshot(&store);
    let outcome = apply(&mut store, DownMsg::BlockMergedWithAbove(message(1, "A", &["foo"])));
    assert_eq!(outcome, Outcome::FirstElementMergeRejected);
    assert_eq!(snapshot(&store), before);
    assert!(store.find(1).unwrap().is_visible());
}

#[test]
fn merge_of_first_block_leaves_the_rest() {
    let mut store = store_of(&[(1, "A", &["foo"]), (2, "A", &["bar"])]);
    assert_eq!(
        merge_with_above(&mut store, 1, vec![word("foo")]),
        Err(MergeError::FirstElement)
    );
    assert_eq!(snapshot(&store), vec![row(1, "A", "foo", true), row(2, "A", "bar", true)]);
}

#[test]
fn merge_of_missing_block_changes_nothing() {
    let mut store = store_of(&[(1, "A", &["foo"]), (2, "A", &["bar"])]);
    assert_eq!(
        merge_with_above(&mut store, 9, vec![word("baz")]),
        Err(MergeError::BlockNotFound)
    );
    assert_eq!(snapshot(&store), vec![row(1, "A", "foo", true), row(2, "A", "bar", true)]);
    let outcome = apply(&mut store, DownMsg::BlockMergedWithAbove(message(9, "A", &["baz"])));
    assert_eq!(outcome, Outcome::BlockNotFound);
    let mut empty = BlockStore::new();
    assert_eq!(merge_with_above(&mut empty, 1, vec![]), Err(MergeError::BlockNotFound));
    assert_eq!(empty.len(), 0);
}

#[test]
fn merge_between_speakers_hides_without_combining() {
    let mut store = store_of(&[(1, "A", &["foo"]), (2, "B", &["bar"])]);
    let outcome = apply(&mut store, DownMsg::BlockMergedWithAbove(message(2, "B", &["bar"])));
    assert_eq!(outcome, Outcome::SpeakerMismatch);
    assert!(!store.find(2).unwrap().is_visible());
    assert_eq!(store.find(1).unwrap().full_text(), "foo");
    assert_eq!(snapshot(&store), vec![row(1, "A", "foo", true), row(2, "B", "bar", false)]);
}

#[test]
fn merge_compares_the_stored_speakers() {
    let mut store = store_of(&[(1, "A", &["foo"]), (2, "A", &["bar"])]);
    let outcome = apply(&mut store, DownMsg::BlockMergedWithAbove(message(2, "B", &["bar"])));
    assert_eq!(outcome, Outcome::Merged);
    assert_eq!(snapshot(&store), vec![row(1, "A", "foo bar", true), row(2, "A", "bar", false)]);
}

#[test]
fn merge_with_same_speaker_combines_and_hides() {
    let mut store = store_of(&[(1, "A", &["four", "score"]), (2, "A", &["and", "seven"])]);
    assert_eq!(
        merge_with_above(&mut store, 2, vec![word("and"), word("seven")]),
        Ok(())
    );
    assert_eq!(
        snapshot(&store),
        vec![row(1, "A", "four score and seven", true), row(2, "A", "and seven", false)]
    );
    let target = store.find(1).unwrap();
    let texts: Vec<&str> = target.raw_words().iter().map(|w| w.text.as_str()).collect();
    assert_eq!(texts, vec!["four", "score", "and", "seven"]);
    assert_eq!(store.len(), 2);
}

#[test]
fn merge_hands_over_the_words_of_the_message() {
    let mut store = store_of(&[(1, "A", &["foo"]), (2, "A", &["bar"])]);
    assert_eq!(merge_with_above(&mut store, 2, vec![word("baz"), word("qux")]), Ok(()));
    assert_eq!(
        snapshot(&store),
        vec![row(1, "A", "foo baz qux", true), row(2, "A", "bar", false)]
    );
}

#[test]
fn chained_merge_skips_hidden_blocks() {
    let mut store = store_of(&[(1, "A", &["one"]), (2, "A", &["two"]), (3, "A", &["three"])]);
    assert_eq!(merge_with_above(&mut store, 2, vec![word("two")]), Ok(()));
    assert_eq!(merge_with_above(&mut store, 3, vec![word("three")]), Ok(()));
    assert_eq!(
        snapshot(&store),
        vec![
            row(1, "A", "one two three", true),
            row(2, "A", "two", false),
            row(3, "A", "three", false),
        ]
    );
}

#[test]
fn chained_merge_passes_over_hidden_block_of_another_speaker() {
    let mut store = store_of(&[(1, "A", &["one"]), (2, "B", &["two"]), (3, "A", &["three"])]);
    assert_eq!(
        merge_with_above(&mut store, 2, vec![word("two")]),
        Err(MergeError::SpeakerMismatch)
    );
    assert_eq!(merge_with_above(&mut store, 3, vec![word("three")]), Ok(()));
    assert_eq!(
        snapshot(&store),
        vec![
            row(1, "A", "one three", true),
            row(2, "B", "two", false),
            row(3, "A", "three", false),
        ]
    );
}

#[test]
fn merge_lands_on_nearest_visible_block() {
    let mut store = store_of(&[
        (1, "A", &["one"]),
        (2, "A", &["two"]),
        (3, "A", &["three"]),
        (4, "A", &["four"]),
    ]);
    assert_eq!(store.set_visible(3, false), Ok(()));
    assert_eq!(merge_with_above(&mut store, 4, vec![word("four")]), Ok(()));
    assert_eq!(
        snapshot(&store),
        vec![
            row(1, "A", "one", true),
            row(2, "A", "two four", true),
            row(3, "A", "three", false),
            row(4, "A", "four", false),
        ]
    );
}

#[test]
fn merge_lands_on_hidden_first_block_when_none_is_visible() {
    let mut store = store_of(&[(1, "A", &["one"]), (2, "A", &["two"]), (3, "A", &["three"])]);
    assert_eq!(store.set_visible(1, false), Ok(()));
    assert_eq!(store.set_visible(2, false), Ok(()));
    assert_eq!(merge_with_above(&mut store, 3, vec![word("three")]), Ok(()));
    assert_eq!(
        snapshot(&store),
        vec![
            row(1, "A", "one three", false),
            row(2, "A", "two", false),
            row(3, "A", "three", false),
        ]
    );
}

#[test]
fn merge_onto_hidden_first_block_of_another_speaker_is_a_mismatch() {
    let mut store = store_of(&[(1, "B", &["one"]), (2, "A", &["two"])]);
    assert_eq!(store.set_visible(1, false), Ok(()));
    assert_eq!(
        merge_with_above(&mut store, 2, vec![word("two")]),
        Err(MergeError::SpeakerMismatch)
    );
    assert_eq!(snapshot(&store), vec![row(1, "B", "one", false), row(2, "A", "two", false)]);
}

#[test]
fn merge_of_hidden_block_hands_its_words_over_again() {
    let mut store = store_of(&[(1, "A", &["one"]), (2, "A", &["two"])]);
    assert_eq!(merge_with_above(&mut store, 2, vec![word("two")]), Ok(()));
    assert_eq!(merge_with_above(&mut store, 2, vec![word("two")]), Ok(()));
    assert_eq!(snapshot(&store), vec![row(1, "A", "one two two", true), row(2, "A", "two", false)]);
}

#[test]
fn merge_with_no_words_only_hides() {
    let mut store = store_of(&[(1, "A", &["one"]), (2, "A", &["two"])]);
    assert_eq!(merge_with_above(&mut store, 2, vec![]), Ok(()));
    assert_eq!(snapshot(&store), vec![row(1, "A", "one", true), row(2, "A", "two", false)]);
}

#[test]
fn merge_into_block_without_words_takes_the_text_alone() {
    let mut store = store_of(&[(1, "A", &[]), (2, "A", &["two", "three"])]);
    assert_eq!(merge_with_above(&mut store, 2, vec![word("two"), word("three")]), Ok(()));
    assert_eq!(
        snapshot(&store),
        vec![row(1, "A", "two three", true), row(2, "A", "two three", false)]
    );
}

#[test]
fn apply_create_is_idempotent() {
    let mut store = BlockStore::new();
    assert_eq!(
        apply(&mut store, DownMsg::BlockCreated(message(5, "A", &["w1", "w2"]))),
        Outcome::Created
    );
    let once = snapshot(&store);
    assert_eq!(
        apply(&mut store, DownMsg::BlockCreated(message(5, "A", &["w1", "w2"]))),
        Outcome::AlreadyExists
    );
    assert_eq!(snapshot(&store), once);
    assert_eq!(once, vec![row(5, "A", "w1 w2", true)]);
}

#[test]
fn apply_edit_appends() {
    let mut store = store_of(&[(1, "A", &["Hi"])]);
    assert_eq!(
        apply(&mut store, DownMsg::BlockEdited(message(1, "ignored", &["there"]))),
        Outcome::Edited
    );
    assert_eq!(snapshot(&store), vec![row(1, "A", "Hi there", true)]);
    assert_eq!(
        apply(&mut store, DownMsg::BlockEdited(message(2, "A", &["lost"]))),
        Outcome::BlockNotFound
    );
    assert_eq!(snapshot(&store), vec![row(1, "A", "Hi there", true)]);
}

#[test]
fn apply_delete_removes_visible_and_hidden_blocks() {
    let mut store = store_of(&[(1, "A", &["one"]), (2, "A", &["two"]), (3, "B", &["three"])]);
    assert_eq!(merge_with_above(&mut store, 2, vec![word("two")]), Ok(()));
    assert_eq!(
        apply(&mut store, DownMsg::BlockDeleted(message(2, "n/a", &[]))),
        Outcome::Deleted
    );
    assert!(store.find(2).is_none());
    assert_eq!(snapshot(&store), vec![row(1, "A", "one two", true), row(3, "B", "three", true)]);
    assert_eq!(
        apply(&mut store, DownMsg::BlockDeleted(message(1, "n/a", &[]))),
        Outcome::Deleted
    );
    assert_eq!(snapshot(&store), vec![row(3, "B", "three", true)]);
    assert_eq!(
        apply(&mut store, DownMsg::BlockDeleted(message(1, "n/a", &[]))),
        Outcome::BlockNotFound
    );
    assert_eq!(snapshot(&store), vec![row(3, "B", "three", true)]);
}

#[test]
fn apply_event_selected_leaves_the_store() {
    let mut store = store_of(&[(1, "A", &["one"])]);
    let msg = DownMsg::EventSelected(EventStreamMessage {
        id: 4,
        data: "Selected event 4".to_string(),
    });
    assert_eq!(apply(&mut store, msg), Outcome::EventSelected);
    assert_eq!(snapshot(&store), vec![row(1, "A", "one", true)]);
}

#[test]
fn merge_before_create_is_not_found_and_can_be_driven_again() {
    let mut store = store_of(&[(1, "A", &["one"])]);
    assert_eq!(
        apply(&mut store, DownMsg::BlockMergedWithAbove(message(2, "A", &["two"]))),
        Outcome::BlockNotFound
    );
    assert_eq!(
        apply(&mut store, DownMsg::BlockCreated(message(2, "A", &["two"]))),
        Outcome::Created
    );
    assert_eq!(
        apply(&mut store, DownMsg::BlockMergedWithAbove(message(2, "A", &["two"]))),
        Outcome::Merged
    );
    assert_eq!(snapshot(&store), vec![row(1, "A", "one two", true), row(2, "A", "two", false)]);
}

#[test]
fn merge_after_delete_of_the_block_between() {
    let mut store = store_of(&[(1, "A", &["one"]), (2, "B", &["two"]), (3, "A", &["three"])]);
    assert_eq!(store.remove(2), Ok(()));
    assert_eq!(merge_with_above(&mut store, 3, vec![word("three")]), Ok(()));
    assert_eq!(snapshot(&store), vec![row(1, "A", "one three", true), row(3, "A", "three", false)]);
}
