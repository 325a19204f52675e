use dashcat::clipboard::{
    capture_text, expiry_cutoff, image_files_to_remove, items_from_records, like_pattern, make_preview,
    text_to_copy, thumbnail_file_name, thumbnail_path, entry_for_record, item_for_entry, retention_days, ClipboardEntry, ClipboardItem, ClipboardRecord,
    NewClipboardItem, SequenceTracker, MAX_TEXT_CHARS,
};
use dashcat::text::truncate_chars;

fn record(id: i64, image: Option<&str>, pinned: bool) -> ClipboardRecord {
    ClipboardRecord::from_row(
        id,
        Some(format!("text {}", id)),
        image.map(|s| s.to_string()),
        "app".to_string(),
        if pinned { 1 } else { 0 },
        1_700_000_000 + id,
    )
}

#[test]
fn record_from_row_pin_flag() {
    assert!(record(1, None, true).is_pinned);
    assert!(!record(1, None, false).is_pinned);
    let r = ClipboardRecord::from_row(3, None, None, String::new(), -5, 9);
    assert!(r.is_pinned);
    assert_eq!(r.created_at, 9);
}

#[test]
fn item_from_record_keeps_fields() {
    let r = record(5, Some("C:/img/a.png"), true);
    let item = ClipboardItem::from(r);
    assert_eq!(item.id, 5);
    assert_eq!(item.content.as_deref(), Some("text 5"));
    assert_eq!(item.image_path.as_deref(), Some("C:/img/a.png"));
    assert_eq!(item.source_app, "app");
    assert!(item.is_pinned);
    assert_eq!(item.created_at, 1_700_000_005);
    assert!(item.is_image());
    assert!(!ClipboardItem::from(record(6, None, false)).is_image());
}

#[test]
fn items_keep_record_order() {
    let records = vec![record(3, None, true), record(1, Some("x.png"), false), record(2, None, false)];
    let items = items_from_records(&records);
    let ids: Vec<i64> = items.iter().map(|i| i.id).collect();
    assert_eq!(ids, vec![3, 1, 2]);
    assert_eq!(items[1].image_path.as_deref(), Some("x.png"));
    assert!(items_from_records(&Vec::new()).is_empty());
}

#[test]
fn inserted_item_is_unpinned_text() {
    let new = NewClipboardItem::from_text("hello");
    assert_eq!(new.content.as_deref(), Some("hello"));
    assert!(new.image_path.is_none());
    assert_eq!(new.source_app, "");
    let item = ClipboardItem::inserted(42, new, 1_700_000_000);
    assert_eq!(item.id, 42);
    assert_eq!(item.content.as_deref(), Some("hello"));
    assert!(!item.is_pinned);
    assert!(!item.is_image());
    assert_eq!(item.created_at, 1_700_000_000);
}

#[test]
fn long_text_is_cut_to_ten_thousand_chars() {
    let long: String = "ab".repeat(6000);
    let item = NewClipboardItem::from_text(&long);
    let content = item.content.unwrap();
    assert_eq!(content.chars().count(), MAX_TEXT_CHARS);
    assert!(long.starts_with(&content));
    // over 10000 bytes but under 10000 characters: kept whole
    let wide: String = "\u{4e2d}".repeat(5000);
    assert_eq!(NewClipboardItem::from_text(&wide).content.unwrap(), wide);
    assert_eq!(truncate_chars("h\u{e9}llo", 2), "h\u{e9}");
    assert_eq!(truncate_chars("hi", 10), "hi");
}

#[test]
fn sequence_numbers_capture_each_change_once() {
    let mut t = SequenceTracker::new();
    assert!(!t.observe(0));
    assert!(t.observe(7));
    assert!(!t.observe(7));
    assert!(t.observe(8));
    assert!(t.observe(7));
    assert!(!t.observe(0));
    assert!(!t.observe(7));
}

#[test]
fn preview_drops_control_characters() {
    assert_eq!(make_preview("a\tb\nc d\u{7f}e\u{85}f", 100), "abc def");
    assert_eq!(make_preview("abcdef", 3), "abc");
    assert_eq!(make_preview("\n\n\nabc", 2), "ab");
    assert_eq!(make_preview("", 5), "");
}

#[test]
fn capture_of_empty_text_is_nothing() {
    assert!(capture_text("").is_none());
    let c = capture_text("h\u{e9}\nllo").unwrap();
    assert_eq!(c.content, "h\u{e9}\nllo".as_bytes().to_vec());
    assert_eq!(c.content_type, "text");
    assert_eq!(c.preview, "h\u{e9}llo");
    let long = "x".repeat(150);
    assert_eq!(capture_text(&long).unwrap().preview.len(), 100);
}

#[test]
fn captured_text_copies_back_unchanged() {
    let text = "caf\u{e9} \u{1F431}\r\n";
    let c = capture_text(text).unwrap();
    let entry = ClipboardEntry { id: 1, content: c.content, content_type: c.content_type, preview: c.preview };
    assert_eq!(text_to_copy(&entry).as_deref(), Some(text));
}

#[test]
fn only_text_entries_are_copied() {
    let image = ClipboardEntry { id: 2, content: vec![1, 2, 3], content_type: "image".to_string(), preview: String::new() };
    assert_eq!(text_to_copy(&image), None);
    let bad = ClipboardEntry { id: 3, content: vec![b'a', 0xFF, b'b'], content_type: "text".to_string(), preview: String::new() };
    assert_eq!(text_to_copy(&bad).as_deref(), Some("a\u{FFFD}b"));
}

#[test]
fn search_pattern_escapes_wildcards() {
    assert_eq!(like_pattern("abc"), "%abc%");
    assert_eq!(like_pattern(""), "%%");
    assert_eq!(like_pattern("50%_off"), "%50\\%\\_off%");
    assert_eq!(like_pattern("a\\b"), "%a\\b%");
}

#[test]
fn expiry_cutoff_counts_whole_days() {
    assert_eq!(expiry_cutoff(1_700_000_000, 30), 1_700_000_000 - 30 * 86400);
    assert_eq!(expiry_cutoff(100, 0), 100);
    assert_eq!(expiry_cutoff(i64::MIN + 10, 1), i64::MIN);
}

#[test]
fn thumbnail_names() {
    assert_eq!(thumbnail_file_name("a1", "jpg"), "a1_thumb.jpg");
    assert_eq!(thumbnail_path("abc.jpg").as_deref(), Some("abc_thumb.jpg"));
    assert_eq!(thumbnail_path("a.b.png").as_deref(), Some("a.b_thumb.png"));
    assert_eq!(thumbnail_path("abc").as_deref(), None);
    assert_eq!(thumbnail_path(".hidden").as_deref(), None);
    assert_eq!(thumbnail_path("..x").as_deref(), Some("._thumb.x"));
    assert_eq!(thumbnail_path("trail.").as_deref(), Some("trail_thumb."));
    // Windows-style paths give the same result on every platform.
    assert_eq!(
        thumbnail_path("C:\\Users\\me\\Images\\x.png").as_deref(),
        Some("C:\\Users\\me\\Images\\x_thumb.png")
    );
    assert_eq!(thumbnail_path("Images\\a.b.jpg").as_deref(), Some("Images\\a.b_thumb.jpg"));
    // With a `/` directory, the separator is the platform's.
    let expected = std::path::Path::new("img").join("cat_thumb.jpg").to_string_lossy().into_owned();
    assert_eq!(thumbnail_path(&std::path::Path::new("img").join("cat.jpg").to_string_lossy()), Some(expected));
    assert_eq!(thumbnail_path("noext"), None);
    assert_eq!(thumbnail_path("img/noext"), None);
    assert_eq!(thumbnail_path(""), None);
}

#[test]
fn files_removed_with_an_item() {
    let records = vec![record(1, None, false), record(2, Some("a.png"), false), record(2, Some("b.png"), false), record(3, Some("noext"), false)];
    assert_eq!(image_files_to_remove(&records, 2), vec!["a.png".to_string(), "a_thumb.png".to_string()]);
    assert_eq!(image_files_to_remove(&records, 3), vec!["noext".to_string()]);
    let records = vec![record(4, Some("C:\\Img\\c.png"), false)];
    assert_eq!(
        image_files_to_remove(&records, 4),
        vec!["C:\\Img\\c.png".to_string(), "C:\\Img\\c_thumb.png".to_string()]
    );
    assert!(image_files_to_remove(&records, 1).is_empty());
    assert!(image_files_to_remove(&records, 9).is_empty());
}

#[test]
fn entries_are_stored_by_type() {
    let item = item_for_entry("h\u{e9}".as_bytes(), "text");
    assert_eq!(item.content.as_deref(), Some("h\u{e9}"));
    assert!(item.image_path.is_none());
    assert_eq!(item.source_app, "");
    let item = item_for_entry(b"C:\\Img\\a.png", "image");
    assert!(item.content.is_none());
    assert_eq!(item.image_path.as_deref(), Some("C:\\Img\\a.png"));
    let item = item_for_entry(&[b'a', 0xFF], "text");
    assert_eq!(item.content.as_deref(), Some("a\u{FFFD}"));
}

#[test]
fn records_become_entries() {
    let r = ClipboardRecord::from_row(1, Some("a\tb".to_string()), None, String::new(), 0, 5);
    let e = entry_for_record(&r);
    assert_eq!((e.id, e.content.clone(), e.content_type.as_str(), e.preview.as_str()), (1, b"a\tb".to_vec(), "text", "ab"));
    let r = ClipboardRecord::from_row(2, None, Some("x.png".to_string()), String::new(), 0, 5);
    let e = entry_for_record(&r);
    assert_eq!((e.content.clone(), e.content_type.as_str(), e.preview.as_str()), (b"x.png".to_vec(), "image", ""));
    let r = ClipboardRecord::from_row(3, None, None, String::new(), 0, 5);
    let e = entry_for_record(&r);
    assert_eq!((e.content.len(), e.content_type.as_str(), e.preview.as_str()), (0, "text", ""));
    // a captured text survives storage and comes back whole
    let item = item_for_entry("caf\u{e9}".as_bytes(), "text");
    let r = ClipboardRecord::from_row(4, item.content, item.image_path, item.source_app, 0, 5);
    assert_eq!(text_to_copy(&entry_for_record(&r)).as_deref(), Some("caf\u{e9}"));
}

#[test]
fn retention_of_negative_days_is_zero() {
    assert_eq!(retention_days(-3), 0);
    assert_eq!(retention_days(0), 0);
    assert_eq!(retention_days(30), 30);
    assert_eq!(retention_days(i32::MAX), i32::MAX as u32);
}

#[test]
fn records_and_items_clone() {
    let r = record(7, Some("a.png"), true);
    let c = r.clone();
    assert_eq!(c.id, 7);
    assert_eq!(format!("{:?}", ClipboardItem::from(c)).contains("a.png"), true);
}
