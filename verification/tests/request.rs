use teamlens_agent::program::ShellCommand;
use teamlens_agent::request::{
    command_request, config_request, control_accepted, control_accepted_in, control_request,
    ingest_body, ingest_request,
};

fn line(command: &ShellCommand) -> String {
    format!("{} {}", command.program, command.args.join(" "))
}

#[test]
fn requests_are_made_with_curl() {
    assert_eq!(
        line(&config_request()),
        "curl -s https://app.teamlens.co/api/agent/config --max-time 8"
    );
    assert_eq!(
        line(&command_request("agent-box-ann")),
        "curl -s https://app.teamlens.co/api/agent/command?agent_id=agent-box-ann --max-time 8"
    );
    let command = ingest_request("{a b}");
    assert_eq!(
        command.args,
        [
            "-s",
            "-X",
            "POST",
            "https://app.teamlens.co/api/ingest",
            "-H",
            "Content-Type: application/json",
            "-d",
            "{a b}",
            "--max-time",
            "15",
        ]
    );
    let command = control_request("agent-box-ann", "pause");
    assert_eq!(
        command.args,
        [
            "-s",
            "-X",
            "POST",
            "https://app.teamlens.co/api/agent/control",
            "-H",
            "Content-Type: application/json",
            "-d",
            r#"{"agent_id":"agent-box-ann","action":"pause"}"#,
            "--max-time",
            "8",
        ]
    );
}

#[test]
fn the_service_agrees_by_saying_ok() {
    assert!(control_accepted(Some(br#"{"status":"ok"}"#)));
    assert!(control_accepted(Some(b"\xfftoken\xff")));
    assert!(!control_accepted(Some(br#"{"status":"OK"}"#)));
    assert!(!control_accepted(Some(b"")));
    assert!(!control_accepted(None));
    assert!(control_accepted_in(Some("ok")));
}

#[test]
fn a_report_without_a_screenshot() {
    assert_eq!(
        ingest_body("agent-box-ann", "Editor \"x\"", "Chrome: \"y\"", false, 75, 75, None),
        concat_parts(&[
            r#"{"agent_id":"agent-box-ann","active_app":"Editor 'x'","app_name":"Chrome: 'y'","#,
            r#""window_title":"Editor 'x'","keyboard_activity":75,"mouse_activity":75,"#,
            r#""is_idle":false,"productivity":75}"#,
        ])
    );
}

#[test]
fn a_report_with_a_screenshot() {
    assert_eq!(
        ingest_body("a", "b", "c", true, 0, 15, Some("Zm9v")),
        concat_parts(&[
            r#"{"agent_id":"a","active_app":"b","app_name":"c","#,
            r#""window_title":"b","keyboard_activity":15,"mouse_activity":15,"#,
            r#""is_idle":true,"productivity":0,"screenshot_b64":"Zm9v"}"#,
        ])
    );
}

#[test]
fn a_report_is_json() {
    let body = ingest_body("a", "say \"hi\"", "é", false, 4294967295, 40, Some("Zg=="));
    let value: serde_json::Value = serde_json::from_str(&body).unwrap();
    assert_eq!(value["active_app"].as_str(), Some("say 'hi'"));
    assert_eq!(value["productivity"].as_u64(), Some(4294967295));
    assert_eq!(value["screenshot_b64"].as_str(), Some("Zg=="));
}

fn concat_parts(parts: &[&str]) -> String {
    parts.concat()
}
