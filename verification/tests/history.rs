use rboard::history::{ClipEntry, ClipHistory, HISTORY_LIMIT};

fn store(history: &mut ClipHistory, text: &str) {
    history.record(ClipEntry::new(text.to_string()));
}

#[test]
fn new_history_is_empty() {
    let history = ClipHistory::new();
    assert_eq!(history.len(), 0);
    assert!(history.contents().is_empty());
}

#[test]
fn stored_clips_are_listed_newest_first() {
    let mut history = ClipHistory::new();
    store(&mut history, "one");
    store(&mut history, "two");
    store(&mut history, "three");
    assert_eq!(history.contents(), vec!["three", "two", "one"]);
}

#[test]
fn storing_a_text_again_moves_it_to_the_front() {
    let mut history = ClipHistory::new();
    store(&mut history, "one");
    store(&mut history, "two");
    store(&mut history, "three");
    store(&mut history, "one");
    assert_eq!(history.contents(), vec!["one", "three", "two"]);
    assert_eq!(history.len(), 3);
}

#[test]
fn only_the_five_newest_clips_stay() {
    let mut history = ClipHistory::new();
    for text in ["a", "b", "c", "d", "e", "f", "g"] {
        store(&mut history, text);
    }
    assert_eq!(HISTORY_LIMIT, 5);
    assert_eq!(history.contents(), vec!["g", "f", "e", "d", "c"]);
}

#[test]
fn storing_the_same_clip_twice_is_storing_it_once() {
    let mut once = ClipHistory::new();
    let mut twice = ClipHistory::new();
    for text in ["a", "b", "c"] {
        store(&mut once, text);
        store(&mut twice, text);
    }
    store(&mut once, "b");
    store(&mut twice, "b");
    store(&mut twice, "b");
    assert_eq!(once.contents(), twice.contents());
    assert_eq!(twice.contents(), vec!["b", "c", "a"]);
}

#[test]
fn a_full_history_drops_its_oldest_for_a_repeated_text_nothing() {
    let mut history = ClipHistory::new();
    for text in ["a", "b", "c", "d", "e"] {
        store(&mut history, text);
    }
    store(&mut history, "c");
    assert_eq!(history.contents(), vec!["c", "e", "d", "b", "a"]);
}

#[test]
fn removing_a_text_deletes_it_and_keeps_the_rest() {
    let mut history = ClipHistory::new();
    for text in ["a", "b", "c"] {
        store(&mut history, text);
    }
    history.remove_content("b");
    assert_eq!(history.contents(), vec!["c", "a"]);
    history.remove_content("zzz");
    assert_eq!(history.contents(), vec!["c", "a"]);
    history.remove_content("c");
    history.remove_content("a");
    assert_eq!(history.len(), 0);
}

#[test]
fn entries_carry_their_key() {
    let entry = ClipEntry::new("hello".to_string());
    assert_eq!(entry.content(), "hello");
    assert_eq!(
        entry.content_hash(),
        "2cf24dba5fb0a30e26e83b2ac5b9e29e1b161e5c1fa7425e73043362938b9824"
    );
}
