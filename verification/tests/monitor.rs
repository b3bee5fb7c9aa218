use rboard::monitor::ClipboardMonitor;

#[test]
fn a_new_text_is_stored_once() {
    let mut monitor = ClipboardMonitor::new();
    let stored = monitor.observe(Some("copied".to_string())).expect("stored");
    assert_eq!(stored.content(), "copied");
    assert_eq!(stored.content_hash(), &rboard::digest::content_hash("copied"));
    assert!(monitor.observe(Some("copied".to_string())).is_none());
}

#[test]
fn empty_text_and_failed_reads_are_not_stored() {
    let mut monitor = ClipboardMonitor::new();
    assert!(monitor.observe(Some(String::new())).is_none());
    assert!(monitor.observe(None).is_none());
    let stored = monitor.observe(Some("x".to_string()));
    assert!(stored.is_some());
    assert!(monitor.observe(None).is_none());
    assert!(monitor.observe(Some(String::new())).is_none());
    // The last stored text is still "x".
    assert!(monitor.observe(Some("x".to_string())).is_none());
}

#[test]
fn a_text_copied_again_after_another_is_stored_again() {
    let mut monitor = ClipboardMonitor::new();
    assert!(monitor.observe(Some("a".to_string())).is_some());
    assert!(monitor.observe(Some("b".to_string())).is_some());
    assert!(monitor.observe(Some("a".to_string())).is_some());
}
