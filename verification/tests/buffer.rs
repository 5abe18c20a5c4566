use teamlens_agent::buffer::{buffer_home, save_to_buffer, BufferUpdate, Flush};

fn stored(items: &[&str]) -> Option<String> {
    let mut contents: Option<String> = None;
    for item in items {
        contents = Some(save_to_buffer(contents.as_deref(), item));
    }
    contents
}

fn flush(contents: Option<&str>, outcomes: &[bool]) -> (Vec<String>, bool, BufferUpdate) {
    let mut flush = Flush::start(contents).unwrap();
    let mut sent = Vec::new();
    let mut outcomes = outcomes.iter();
    while let Some(item) = flush.next_item() {
        sent.push(item.to_string());
        flush.record(*outcomes.next().unwrap());
    }
    let (all, update) = flush.finish();
    (sent, all, update)
}

#[test]
fn reports_wait_in_order() {
    assert_eq!(stored(&["a"]).unwrap(), r#"["a"]"#);
    assert_eq!(stored(&["a", "b", "a"]).unwrap(), r#"["a","b","a"]"#);
    assert_eq!(stored(&["{\"k\":\"v\\n\"}"]).unwrap(), r#"["{\"k\":\"v\\n\"}"]"#);
}

#[test]
fn a_file_without_reports_counts_as_empty() {
    assert_eq!(save_to_buffer(Some("garbage"), "a"), r#"["a"]"#);
    assert_eq!(save_to_buffer(Some("[1,2]"), "a"), r#"["a"]"#);
    assert_eq!(save_to_buffer(Some(""), "a"), r#"["a"]"#);
    assert!(Flush::start(None).is_none());
    assert!(Flush::start(Some("[]")).is_none());
    assert!(Flush::start(Some("garbage")).is_none());
}

#[test]
fn what_is_saved_is_sent() {
    let odd = ["", "\"quoted\"", "\u{0}\u{1f}", "é€😀", "back\\slash", "\u{2028}"];
    let contents = stored(&odd);
    let (sent, all, update) = flush(contents.as_deref(), &[true; 6]);
    assert_eq!(sent, odd);
    assert!(all);
    assert_eq!(update, BufferUpdate::Remove);
}

#[test]
fn what_cannot_be_delivered_stays() {
    let contents = stored(&["a", "b", "c", "d"]);
    let (sent, all, update) = flush(contents.as_deref(), &[false, true, false, true]);
    assert_eq!(sent, ["a", "b", "c", "d"]);
    assert!(!all);
    assert_eq!(update, BufferUpdate::Write(r#"["a","c"]"#.to_string()));
}

#[test]
fn a_flush_that_delivers_nothing_changes_nothing() {
    let contents = stored(&["a", "b"]);
    let (_, all, update) = flush(contents.as_deref(), &[false, false]);
    assert!(!all);
    assert_eq!(update, BufferUpdate::Write(contents.unwrap()));
}

#[test]
fn offline_reports_queue_up_and_are_delivered_later() {
    let mut file: Option<String> = None;
    for report in ["one", "two", "three"] {
        if file.is_some() {
            match flush(file.as_deref(), &vec![false; 3]).2 {
                BufferUpdate::Write(contents) => file = Some(contents),
                BufferUpdate::Remove => file = None,
            }
        }
        file = Some(save_to_buffer(file.as_deref(), report));
    }
    let (sent, all, update) = flush(file.as_deref(), &[true, true, true]);
    assert_eq!(sent, ["one", "two", "three"]);
    assert!(all);
    assert_eq!(update, BufferUpdate::Remove);
}

#[test]
fn buffer_lies_at_home() {
    assert_eq!(buffer_home(Some("/home/ann")), "/home/ann");
    assert_eq!(buffer_home(None), ".");
}
