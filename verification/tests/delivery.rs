use teamlens_agent::buffer::{save_to_buffer, BufferUpdate};
use teamlens_agent::delivery::{
    buffer_read, buffer_updated, deliver, delivered, report_sent, waiting_sent, DeliveryStep,
};

/// Delivers a report while `online` says how the program that sends a text
/// ends; gives the texts in the order in which they were sent.
fn run_with(
    file: &mut Option<String>,
    report: &str,
    online: impl Fn(&str) -> Option<bool>,
) -> Vec<String> {
    let mut sent = Vec::new();
    let mut step = deliver(report.to_string());
    loop {
        step = match step {
            DeliveryStep::ReadBuffer { report } => buffer_read(report, file.as_deref()),
            DeliveryStep::SendWaiting { report, flush } => {
                let item = flush.next_item().unwrap().to_string();
                let end = online(&item);
                sent.push(item);
                waiting_sent(report, flush, end)
            }
            DeliveryStep::UpdateBuffer { report, update } => {
                *file = match update {
                    BufferUpdate::Remove => None,
                    BufferUpdate::Write(contents) => Some(contents),
                };
                buffer_updated(report)
            }
            DeliveryStep::SendReport { report } => {
                let end = online(&report);
                sent.push(report.clone());
                report_sent(report, end)
            }
            DeliveryStep::SaveReport { report } => {
                *file = Some(save_to_buffer(file.as_deref(), &report));
                return sent;
            }
            DeliveryStep::Done => return sent,
        };
    }
}

fn run(file: &mut Option<String>, report: &str, online: fn(&str) -> bool) -> Vec<String> {
    run_with(file, report, |text| Some(online(text)))
}

#[test]
fn a_request_gets_through_only_where_its_program_succeeds() {
    assert!(delivered(Some(true)));
    assert!(!delivered(Some(false)));
    assert!(!delivered(None));
}

#[test]
fn a_report_is_kept_where_its_request_fails() {
    for end in [Some(false), None] {
        let mut file = None;
        assert_eq!(run_with(&mut file, "a", |_| end), ["a"]);
        assert_eq!(file.as_deref(), Some(r#"["a"]"#));
        assert_eq!(run_with(&mut file, "b", |text| if text == "a" { end } else { Some(true) }), ["a", "b"]);
        assert_eq!(file.as_deref(), Some(r#"["a"]"#));
    }
}

#[test]
fn a_report_is_delivered_at_once_while_online() {
    let mut file = None;
    assert_eq!(run(&mut file, "a", |_| true), ["a"]);
    assert_eq!(file, None);
}

#[test]
fn a_report_waits_while_offline() {
    let mut file = None;
    assert_eq!(run(&mut file, "a", |_| false), ["a"]);
    assert_eq!(file.as_deref(), Some(r#"["a"]"#));
    assert_eq!(run(&mut file, "b", |_| false), ["a", "b"]);
    assert_eq!(file.as_deref(), Some(r#"["a","b"]"#));
    assert_eq!(run(&mut file, "c", |_| true), ["a", "b", "c"]);
    assert_eq!(file, None);
}

#[test]
fn a_report_that_gets_through_does_not_wait() {
    let mut file = Some(r#"["a","b","c"]"#.to_string());
    assert_eq!(run(&mut file, "d", |text| text != "b"), ["a", "b", "c", "d"]);
    assert_eq!(file.as_deref(), Some(r#"["b"]"#));
    assert_eq!(run(&mut file, "e", |text| text != "e"), ["b", "e"]);
    assert_eq!(file.as_deref(), Some(r#"["e"]"#));
}

#[test]
fn a_damaged_file_is_left_until_a_report_is_saved() {
    let mut file = Some("damaged".to_string());
    assert_eq!(run(&mut file, "a", |_| true), ["a"]);
    assert_eq!(file.as_deref(), Some("damaged"));
    assert_eq!(run(&mut file, "b", |_| false), ["b"]);
    assert_eq!(file.as_deref(), Some(r#"["b"]"#));
}
