use clipboard_bridge::clipboard::ClipboardWatcher;

#[test]
fn first_reading_counts_as_a_change() {
    let mut watcher = ClipboardWatcher::new();
    let content = watcher.observe("hello".to_string(), 100).unwrap();
    assert_eq!(content.text, Some("hello".to_string()));
    assert_eq!(content.timestamp, 100);
}

#[test]
fn unchanged_text_is_not_reported_again() {
    let mut watcher = ClipboardWatcher::new();
    watcher.observe("hello".to_string(), 100);
    assert_eq!(watcher.observe("hello".to_string(), 101), None);
}

#[test]
fn changed_text_is_reported_with_its_own_timestamp() {
    let mut watcher = ClipboardWatcher::new();
    watcher.observe("hello".to_string(), 100);
    let content = watcher.observe("world".to_string(), 200).unwrap();
    assert_eq!(content.text, Some("world".to_string()));
    assert_eq!(content.timestamp, 200);
    assert_eq!(watcher.observe("hello".to_string(), 300).unwrap().timestamp, 300);
}

#[test]
fn a_local_write_is_not_observed_back_as_a_change() {
    let mut watcher = ClipboardWatcher::new();
    watcher.note_local_write("pasted from peer");
    assert_eq!(watcher.observe("pasted from peer".to_string(), 400), None);
}
