use teamlens_agent::config::{config_in, fetch_agent_config, get_command};
use teamlens_agent::json::{read_answer, JsonDocument, JsonMember, JsonValue};

fn config(body: &[u8]) -> (u64, String, bool) {
    let config = fetch_agent_config(Some(body));
    (config.screenshot_interval_secs, config.screenshot_quality, config.screenshots_enabled)
}

fn order(body: Option<&[u8]>) -> (String, String, bool) {
    let order = get_command(body);
    (order.command, order.mode, order.paused)
}

#[test]
fn config_is_read_member_by_member() {
    assert_eq!(
        config(br#"{"screenshot_interval_secs":300,"screenshot_quality":"low","screenshots_enabled":false}"#),
        (300, "low".to_string(), false)
    );
    assert_eq!(config(br#"{"screenshot_quality":"high","more":[1]}"#), (60, "high".to_string(), true));
    assert_eq!(
        config(br#"{"screenshot_interval_secs":18446744073709551615}"#),
        (u64::MAX, "medium".to_string(), true)
    );
}

#[test]
fn members_of_another_type_are_left_out() {
    let default = (60, "medium".to_string(), true);
    assert_eq!(
        config(br#"{"screenshot_interval_secs":"5","screenshot_quality":7,"screenshots_enabled":"no"}"#),
        default
    );
    assert_eq!(config(br#"{"screenshot_interval_secs":-5}"#), default);
    assert_eq!(config(br#"{"screenshot_interval_secs":5.5}"#), default);
    assert_eq!(config(br#"{"screenshot_interval_secs":null,"screenshot_quality":{}}"#), default);
}

#[test]
fn without_a_usable_answer_the_config_is_the_default() {
    let default = (60, "medium".to_string(), true);
    assert_eq!(config(b""), default);
    assert_eq!(config(b"<html>"), default);
    assert_eq!(config(b"[60]"), default);
    assert_eq!(config(b"\xff"), default);
    let none = fetch_agent_config(None);
    assert_eq!(
        (none.screenshot_interval_secs, none.screenshot_quality, none.screenshots_enabled),
        default
    );
}

#[test]
fn orders_are_read_member_by_member() {
    assert_eq!(
        order(Some(br#"{"command":"stop","mode":"user_controlled","paused":true}"#)),
        ("stop".to_string(), "user_controlled".to_string(), true)
    );
    assert_eq!(
        order(Some(br#"{"paused":true}"#)),
        ("none".to_string(), "always_on".to_string(), true)
    );
    assert_eq!(
        order(Some("{\"command\":\"r\\u00e9\\n\"}".as_bytes())),
        ("ré\n".to_string(), "always_on".to_string(), false)
    );
}

#[test]
fn without_a_usable_answer_nothing_is_ordered() {
    let nothing = ("none".to_string(), "always_on".to_string(), false);
    assert_eq!(order(None), nothing);
    assert_eq!(order(Some(b"oops")), nothing);
    assert_eq!(order(Some(b"\"stop\"")), nothing);
}

#[test]
fn documents_tell_values_apart() {
    let document = read_answer(Some(br#"{"a":null,"b":true,"c":3,"d":"x","e":[],"f":{},"g":-1}"#));
    let member = |name: &str, value: JsonValue| JsonMember { name: name.to_string(), value };
    assert_eq!(
        document,
        JsonDocument::Object(vec![
            member("a", JsonValue::Null),
            member("b", JsonValue::Flag(true)),
            member("c", JsonValue::Number(Some(3))),
            member("d", JsonValue::Text("x".to_string())),
            member("e", JsonValue::Array),
            member("f", JsonValue::Object),
            member("g", JsonValue::Number(None)),
        ])
    );
    assert_eq!(read_answer(Some(b"1")), JsonDocument::Other);
    assert_eq!(read_answer(Some(b"{")), JsonDocument::Invalid);
    assert_eq!(read_answer(None), JsonDocument::Invalid);
}

#[test]
fn the_later_of_two_members_counts() {
    let document = read_answer(Some(br#"{"n":1,"n":2}"#));
    assert_eq!(document.number_or("n", 9), 2);
    let member = |n: u64| JsonMember { name: "n".to_string(), value: JsonValue::Number(Some(n)) };
    assert_eq!(JsonDocument::Object(vec![member(1), member(2)]).number_or("n", 9), 2);
    assert_eq!(JsonDocument::Object(vec![]).number_or("n", 9), 9);
    assert_eq!(JsonDocument::Other.text_or("n", "d"), "d");
    assert!(JsonDocument::Invalid.flag_or("n", true));
    let config = config_in(&JsonDocument::Object(vec![JsonMember {
        name: "screenshot_interval_secs".to_string(),
        value: JsonValue::Number(Some(5)),
    }]));
    assert_eq!(config.screenshot_interval_secs, 5);
}
