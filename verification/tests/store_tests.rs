use clipboard_history::classify::ClipboardReading;
use clipboard_history::classify::ImageCapture;
use clipboard_history::entry::ClipboardContentType;
use clipboard_history::entry::ClipboardItem;
use clipboard_history::store::ClipboardState;

fn text_reading(s: &str) -> ClipboardReading {
    ClipboardReading {
        has_image: false,
        image: ImageCapture::Skipped,
        has_rich_text: false,
        rich_text: None,
        has_html: false,
        html: None,
        text: Some(s.to_string()),
    }
}

fn plain_item(id: usize, content: &str, timestamp: u64) -> ClipboardItem {
    ClipboardItem {
        id,
        content: content.to_string(),
        content_type: ClipboardContentType::Text,
        html_content: None,
        rtf_content: None,
        image_path: None,
        timestamp,
    }
}

#[test]
fn capacity_three_keeps_most_recent() {
    let mut st = ClipboardState::default();
    st.set_max_history_size(3);
    for s in ["a", "b", "c", "d"] {
        let out = st.handle_clipboard_update(text_reading(s));
        assert!(out.is_some());
    }
    let snap = st.snapshot();
    assert_eq!(snap.len(), 3);
    let contents: Vec<&str> = snap.iter().map(|e| e.content.as_str()).collect();
    assert_eq!(contents, ["b", "c", "d"]);
    let ids: Vec<usize> = snap.iter().map(|e| e.id).collect();
    assert_eq!(ids, [1, 2, 3]);
}

#[test]
fn bounded_history_length_is_min_of_inserts_and_capacity() {
    let mut st = ClipboardState::default();
    st.set_max_history_size(3);
    st.handle_clipboard_update(text_reading("a"));
    st.handle_clipboard_update(text_reading("b"));
    assert_eq!(st.snapshot().len(), 2);
    for i in 0..5 {
        st.handle_clipboard_update(text_reading(&format!("entry {}", i)));
    }
    assert_eq!(st.snapshot().len(), 3);
}

#[test]
fn duplicate_insert_reports_no_change() {
    let mut st = ClipboardState::default();
    let first = st.handle_clipboard_update(text_reading("x"));
    assert!(first.is_some());
    let second = st.handle_clipboard_update(text_reading("x"));
    assert!(second.is_none());
    let snap = st.snapshot();
    assert_eq!(snap.len(), 1);
    assert_eq!(snap[0].content, "x");
    assert_eq!(snap[0].id, 0);
}

#[test]
fn reverting_to_older_content_is_novel_again() {
    let mut st = ClipboardState::default();
    st.handle_clipboard_update(text_reading("x"));
    st.handle_clipboard_update(text_reading("y"));
    let out = st.handle_clipboard_update(text_reading("x"));
    assert!(out.is_some());
    assert_eq!(st.snapshot().len(), 3);
}

#[test]
fn clear_resets_id_generation() {
    let mut st = ClipboardState::default();
    st.handle_clipboard_update(text_reading("a"));
    st.handle_clipboard_update(text_reading("b"));
    let snap = st.snapshot();
    assert_eq!(snap[1].id, 1);
    st.clear();
    assert_eq!(st.snapshot().len(), 0);
    let out = st.handle_clipboard_update(text_reading("c"));
    assert_eq!(out.unwrap().id, 0);
}

#[test]
fn clear_drops_duplicate_gate() {
    let mut st = ClipboardState::default();
    st.handle_clipboard_update(text_reading("same"));
    st.clear();
    let out = st.handle_clipboard_update(text_reading("same"));
    assert!(out.is_some());
}

#[test]
fn zero_capacity_disables_history() {
    let mut st = ClipboardState::default();
    st.set_max_history_size(0);
    let out = st.handle_clipboard_update(text_reading("anything"));
    assert!(out.is_some());
    assert_eq!(st.snapshot().len(), 0);
}

#[test]
fn resize_truncates_to_most_recent() {
    let mut st = ClipboardState::default();
    for s in ["a", "b", "c", "d"] {
        st.handle_clipboard_update(text_reading(s));
    }
    st.set_max_history_size(2);
    let snap = st.snapshot();
    let contents: Vec<&str> = snap.iter().map(|e| e.content.as_str()).collect();
    assert_eq!(contents, ["c", "d"]);
}

#[test]
fn resize_to_larger_keeps_contents() {
    let mut st = ClipboardState::default();
    for s in ["a", "b", "c"] {
        st.handle_clipboard_update(text_reading(s));
    }
    st.set_max_history_size(10);
    let snap = st.snapshot();
    let contents: Vec<&str> = snap.iter().map(|e| e.content.as_str()).collect();
    assert_eq!(contents, ["a", "b", "c"]);
}

#[test]
fn default_capacity_is_one_hundred() {
    let mut st = ClipboardState::default();
    for i in 0..101 {
        let out = st.handle_clipboard_update(text_reading(&format!("entry {}", i)));
        assert!(out.is_some());
    }
    let snap = st.snapshot();
    assert_eq!(snap.len(), 100);
    assert_eq!(snap[0].content, "entry 1");
    assert_eq!(snap[99].content, "entry 100");
}

#[test]
fn snapshot_does_not_mutate() {
    let mut st = ClipboardState::default();
    st.handle_clipboard_update(text_reading("a"));
    let first = st.snapshot();
    let second = st.snapshot();
    assert_eq!(first.len(), second.len());
    assert_eq!(first[0].content, second[0].content);
    assert_eq!(first[0].id, second[0].id);
}

#[test]
fn insert_returns_the_stored_entry() {
    let mut st = ClipboardState::default();
    let out = st.handle_clipboard_update(text_reading("hello")).unwrap();
    let snap = st.snapshot();
    assert_eq!(out.id, snap[0].id);
    assert_eq!(out.content, snap[0].content);
    assert_eq!(out.timestamp, snap[0].timestamp);
}

#[test]
fn fingerprint_ignores_id_timestamp_and_kind() {
    let st = ClipboardState::default();
    let a = plain_item(0, "same content", 111);
    let mut b = plain_item(42, "same content", 999);
    b.content_type = ClipboardContentType::Unknown;
    assert_eq!(st.calculate_hash(&a), st.calculate_hash(&b));
}

#[test]
fn fingerprint_differs_on_content() {
    let st = ClipboardState::default();
    let a = plain_item(0, "one", 0);
    let b = plain_item(0, "two", 0);
    assert_ne!(st.calculate_hash(&a), st.calculate_hash(&b));
}

#[test]
fn fingerprint_separates_variant_fields() {
    let st = ClipboardState::default();
    let mut a = plain_item(0, "a", 0);
    a.html_content = Some("b".to_string());
    let b = plain_item(0, "ab", 0);
    assert_ne!(st.calculate_hash(&a), st.calculate_hash(&b));
    let mut c = plain_item(0, "a", 0);
    c.rtf_content = Some("b".to_string());
    assert_ne!(st.calculate_hash(&a), st.calculate_hash(&c));
}

#[test]
fn create_item_assigns_pending_id_without_consuming_it() {
    let mut st = ClipboardState::default();
    let item = st.create_item(
        "text".to_string(),
        ClipboardContentType::Text,
        None,
        None,
        None,
    );
    assert_eq!(item.id, 0);
    assert_eq!(item.content, "text");
    assert_eq!(st.snapshot().len(), 0);
    let again = st.create_item(
        "more".to_string(),
        ClipboardContentType::Text,
        None,
        None,
        None,
    );
    assert_eq!(again.id, 0);
}

#[test]
fn add_item_evicts_from_the_front() {
    let mut st = ClipboardState::default();
    st.set_max_history_size(2);
    for s in ["a", "b", "c"] {
        let item = st.create_item(s.to_string(), ClipboardContentType::Text, None, None, None);
        st.add_item(item);
    }
    let snap = st.snapshot();
    let contents: Vec<&str> = snap.iter().map(|e| e.content.as_str()).collect();
    assert_eq!(contents, ["b", "c"]);
}
