use jadili::block::RenderBlock;
use jadili::store::{BlockStore, CreateResult, StoreError};
use jadili::text::build_full_text;
use jadili::word::Word;

fn w(text: &str) -> Word {
    Word {
        confidence: 0.9f32.to_bits(),
        end: 20,
        speaker: Some("A".to_string()),
        start: 10,
        text: text.to_string(),
    }
}

fn ids(store: &BlockStore) -> Vec<usize> {
    store.blocks().iter().map(|b| b.id()).collect()
}

fn texts(block: &RenderBlock) -> Vec<String> {
    block.raw_words().iter().map(|w| w.text.clone()).collect()
}

#[test]
fn full_text_of_no_words_is_empty() {
    assert_eq!(build_full_text(&vec![]), "");
}

#[test]
fn full_text_of_one_word_has_no_space() {
    assert_eq!(build_full_text(&vec![w("Hello")]), "Hello");
}

#[test]
fn full_text_joins_with_single_spaces() {
    assert_eq!(build_full_text(&vec![w("Hello"), w("world")]), "Hello world");
    assert_eq!(
        build_full_text(&vec![w("four"), w("score"), w("and"), w("seven")]),
        "four score and seven"
    );
}

#[test]
fn full_text_keeps_empty_and_non_ascii_texts() {
    assert_eq!(build_full_text(&vec![w("a"), w(""), w("b")]), "a  b");
    assert_eq!(build_full_text(&vec![w("habari"), w("yako?"), w("né")]), "habari yako? né");
}

#[test]
fn full_text_is_the_same_when_rebuilt() {
    let words = vec![w("Hello"), w("world")];
    let first = build_full_text(&words);
    let second = build_full_text(&words);
    assert_eq!(first, second);
    assert_eq!(second, "Hello world");
}

#[test]
fn new_block_is_visible_with_text() {
    let block = RenderBlock::new(7, "B".to_string(), vec![w("Hello"), w("world")]);
    assert_eq!(block.id(), 7);
    assert_eq!(block.speaker(), "B");
    assert_eq!(block.full_text(), "Hello world");
    assert!(block.is_visible());
    assert_eq!(texts(&block), vec!["Hello", "world"]);
}

#[test]
fn block_append_rebuilds_text() {
    let mut block = RenderBlock::new(7, "B".to_string(), vec![w("Hi")]);
    block.append_words(vec![w("there"), w("you")]);
    assert_eq!(block.full_text(), "Hi there you");
    assert_eq!(texts(&block), vec!["Hi", "there", "you"]);
    block.append_words(vec![]);
    assert_eq!(block.full_text(), "Hi there you");
}

#[test]
fn block_set_visible_toggles() {
    let mut block = RenderBlock::new(7, "B".to_string(), vec![w("Hi")]);
    block.set_visible(false);
    assert!(!block.is_visible());
    assert_eq!(block.full_text(), "Hi");
    block.set_visible(true);
    assert!(block.is_visible());
}

#[test]
fn word_clone_keeps_every_field() {
    let word = Word {
        confidence: 0.25f32.to_bits(),
        end: 1500,
        speaker: None,
        start: 1200,
        text: "score".to_string(),
    };
    let copy = word.clone();
    assert_eq!(copy.confidence, 0.25f32.to_bits());
    assert_eq!(f32::from_bits(copy.confidence), 0.25);
    assert_eq!(copy.end, 1500);
    assert_eq!(copy.speaker, None);
    assert_eq!(copy.start, 1200);
    assert_eq!(copy.text, "score");
    assert_eq!(w("x").clone().speaker, Some("A".to_string()));
}

#[test]
fn new_store_is_empty() {
    let store = BlockStore::new();
    assert_eq!(store.len(), 0);
    assert!(store.blocks().is_empty());
    assert!(store.find(1).is_none());
    assert_eq!(store.position_of(1), None);
}

#[test]
fn create_appends_at_the_end() {
    let mut store = BlockStore::new();
    assert_eq!(store.create(3, "A".to_string(), vec![w("one")]), CreateResult::Created);
    assert_eq!(store.create(1, "B".to_string(), vec![w("two")]), CreateResult::Created);
    assert_eq!(store.create(2, "A".to_string(), vec![]), CreateResult::Created);
    assert_eq!(ids(&store), vec![3, 1, 2]);
    assert_eq!(store.len(), 3);
    assert_eq!(store.position_of(3), Some(0));
    assert_eq!(store.position_of(1), Some(1));
    assert_eq!(store.position_of(2), Some(2));
    assert_eq!(store.position_of(4), None);
    let block = store.find(1).unwrap();
    assert_eq!(block.speaker(), "B");
    assert_eq!(block.full_text(), "two");
    assert!(block.is_visible());
    assert_eq!(store.find(2).unwrap().full_text(), "");
}

#[test]
fn create_twice_keeps_one_block() {
    let mut store = BlockStore::new();
    assert_eq!(
        store.create(5, "A".to_string(), vec![w("w1"), w("w2")]),
        CreateResult::Created
    );
    assert_eq!(
        store.create(5, "A".to_string(), vec![w("w1"), w("w2")]),
        CreateResult::AlreadyExists
    );
    assert_eq!(ids(&store), vec![5]);
    let block = store.find(5).unwrap();
    assert_eq!(texts(block), vec!["w1", "w2"]);
    assert_eq!(block.full_text(), "w1 w2");
}

#[test]
fn create_again_with_other_payload_changes_nothing() {
    let mut store = BlockStore::new();
    store.create(5, "A".to_string(), vec![w("w1")]);
    assert_eq!(
        store.create(5, "B".to_string(), vec![w("other")]),
        CreateResult::AlreadyExists
    );
    let block = store.find(5).unwrap();
    assert_eq!(block.speaker(), "A");
    assert_eq!(block.full_text(), "w1");
    assert_eq!(store.len(), 1);
}

#[test]
fn append_accumulates() {
    let mut store = BlockStore::new();
    store.create(1, "A".to_string(), vec![w("Hi")]);
    assert_eq!(store.append_words(1, vec![w("there")]), Ok(()));
    let block = store.find(1).unwrap();
    assert_eq!(block.full_text(), "Hi there");
    assert_eq!(texts(block), vec!["Hi", "there"]);
}

#[test]
fn append_to_missing_block_is_reported() {
    let mut store = BlockStore::new();
    store.create(1, "A".to_string(), vec![w("Hi")]);
    assert_eq!(store.append_words(2, vec![w("there")]), Err(StoreError::BlockNotFound));
    assert_eq!(ids(&store), vec![1]);
    assert_eq!(store.find(1).unwrap().full_text(), "Hi");
}

#[test]
fn append_touches_only_its_block() {
    let mut store = BlockStore::new();
    store.create(1, "A".to_string(), vec![w("one")]);
    store.create(2, "B".to_string(), vec![w("two")]);
    store.create(3, "A".to_string(), vec![w("three")]);
    assert_eq!(store.append_words(2, vec![w("and"), w("more")]), Ok(()));
    assert_eq!(store.find(1).unwrap().full_text(), "one");
    assert_eq!(store.find(2).unwrap().full_text(), "two and more");
    assert_eq!(store.find(3).unwrap().full_text(), "three");
    assert_eq!(ids(&store), vec![1, 2, 3]);
}

#[test]
fn remove_takes_the_block_out_and_keeps_order() {
    let mut store = BlockStore::new();
    store.create(1, "A".to_string(), vec![w("one")]);
    store.create(2, "B".to_string(), vec![w("two")]);
    store.create(3, "A".to_string(), vec![w("three")]);
    store.create(4, "B".to_string(), vec![w("four")]);
    assert_eq!(store.remove(2), Ok(()));
    assert!(store.find(2).is_none());
    assert_eq!(store.position_of(2), None);
    assert_eq!(ids(&store), vec![1, 3, 4]);
    assert_eq!(store.find(3).unwrap().full_text(), "three");
    assert_eq!(store.position_of(3), Some(1));
}

#[test]
fn remove_of_missing_block_is_reported() {
    let mut store = BlockStore::new();
    store.create(1, "A".to_string(), vec![w("one")]);
    assert_eq!(store.remove(9), Err(StoreError::BlockNotFound));
    assert_eq!(ids(&store), vec![1]);
}

#[test]
fn removed_identifier_can_be_created_again() {
    let mut store = BlockStore::new();
    store.create(1, "A".to_string(), vec![w("one")]);
    store.create(2, "B".to_string(), vec![w("two")]);
    assert_eq!(store.remove(1), Ok(()));
    assert_eq!(store.create(1, "C".to_string(), vec![w("again")]), CreateResult::Created);
    assert_eq!(ids(&store), vec![2, 1]);
    assert_eq!(store.find(1).unwrap().speaker(), "C");
}

#[test]
fn set_visible_toggles_one_block() {
    let mut store = BlockStore::new();
    store.create(1, "A".to_string(), vec![w("one")]);
    store.create(2, "B".to_string(), vec![w("two")]);
    assert_eq!(store.set_visible(2, false), Ok(()));
    assert!(store.find(1).unwrap().is_visible());
    assert!(!store.find(2).unwrap().is_visible());
    assert_eq!(store.find(2).unwrap().full_text(), "two");
    assert_eq!(store.set_visible(2, true), Ok(()));
    assert!(store.find(2).unwrap().is_visible());
    assert_eq!(store.set_visible(3, false), Err(StoreError::BlockNotFound));
    assert_eq!(ids(&store), vec![1, 2]);
}
