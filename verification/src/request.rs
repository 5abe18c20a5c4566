//! The requests that the agent sends to the service.
use vstd::prelude::*;

use crate::base64;
use crate::flat_json;
use crate::flat_json::{FlatMember, FlatValue};
use crate::number;
use crate::program;
use crate::program::{CommandLine, ShellCommand};
use crate::text;

verus! {

/// Where the service is.
pub const API_BASE: &'static str = "https://app.teamlens.co/api";

/// Where the user looks at what was collected.
pub const DASHBOARD_URL: &'static str = "https://app.teamlens.co";

/// The address of `path` at the service.
fn api_url(path: &str) -> (url: String)
    ensures
        url@ == API_BASE@ + path@,
{
    API_BASE.to_string().concat(path)
}

/// The command that fetches `url`.
pub open spec fn fetch_line(url: Seq<char>) -> CommandLine {
    CommandLine { program: "curl"@, args: seq!["-s"@, url, "--max-time"@, "8"@] }
}

/// The command that posts `body` to `url` and waits no longer than `secs`.
pub open spec fn post_line(url: Seq<char>, body: Seq<char>, secs: Seq<char>) -> CommandLine {
    CommandLine {
        program: "curl"@,
        args: seq![
            "-s"@,
            "-X"@,
            "POST"@,
            url,
            "-H"@,
            "Content-Type: application/json"@,
            "-d"@,
            body,
            "--max-time"@,
            secs,
        ],
    }
}

fn fetch(url: &str) -> (command: ShellCommand)
    ensures
        command@ == fetch_line(url@),
{
    ShellCommand::new("curl").arg("-s").arg(url).arg("--max-time").arg("8")
}

fn post(url: &str, body: &str, secs: &str) -> (command: ShellCommand)
    ensures
        command@ == post_line(url@, body@, secs@),
{
    ShellCommand::new("curl").arg("-s").arg("-X").arg("POST").arg(url).arg("-H").arg(
        "Content-Type: application/json",
    ).arg("-d").arg(body).arg("--max-time").arg(secs)
}

/// The command that asks for the agent's configuration.
pub open spec fn config_line() -> CommandLine {
    fetch_line(API_BASE@ + "/agent/config"@)
}

/// The request for the agent's configuration.
pub fn config_request() -> (command: ShellCommand)
    ensures
        command@ == config_line(),
{
    fetch(api_url("/agent/config").as_str())
}

/// The command that asks for the service's order to the agent.
pub open spec fn order_line(agent_id: Seq<char>) -> CommandLine {
    fetch_line(API_BASE@ + "/agent/command?agent_id="@ + agent_id)
}

/// The request for the service's order to the agent.
pub fn command_request(agent_id: &str) -> (command: ShellCommand)
    ensures
        command@ == order_line(agent_id@),
{
    fetch(api_url("/agent/command?agent_id=").concat(agent_id).as_str())
}

/// The command that delivers a report.
pub open spec fn ingest_line(body: Seq<char>) -> CommandLine {
    post_line(API_BASE@ + "/ingest"@, body, "15"@)
}

/// The request that delivers a report.
pub fn ingest_request(body: &str) -> (command: ShellCommand)
    ensures
        command@ == ingest_line(body@),
{
    post(api_url("/ingest").as_str(), body, "15")
}

/// The body that tells the service what the user chose.
pub open spec fn control_text(agent_id: Seq<char>, action: Seq<char>) -> Seq<char> {
    "{\"agent_id\":\""@ + agent_id + "\",\"action\":\""@ + action + "\"}"@
}

/// The command that tells the service what the user chose.
pub open spec fn control_line(agent_id: Seq<char>, action: Seq<char>) -> CommandLine {
    post_line(API_BASE@ + "/agent/control"@, control_text(agent_id, action), "8"@)
}

/// The request that tells the service what the user chose.
pub fn control_request(agent_id: &str, action: &str) -> (command: ShellCommand)
    ensures
        command@ == control_line(agent_id@, action@),
{
    let mut body = "{\"agent_id\":\"".to_string();
    body.append(agent_id);
    body.append("\",\"action\":\"");
    body.append(action);
    body.append("\"}");
    post(api_url("/agent/control").as_str(), body.as_str(), "8")
}

/// Whether the service agreed, from the text of its answer.
pub open spec fn agreed(printed: Option<Seq<char>>) -> bool {
    match printed {
        Some(printed) => text::has_text(printed, "ok"@),
        None => false,
    }
}

/// Tells from the service's answer whether it agreed to the user's choice.
pub fn control_accepted(output: Option<&[u8]>) -> (accepted: bool)
    ensures
        accepted == agreed(program::output_text(output)),
{
    let printed = program::read_output(output);
    control_accepted_in(program::borrow_text(&printed))
}

/// Tells from the text of the answer whether the service agreed.
pub fn control_accepted_in(printed: Option<&str>) -> (accepted: bool)
    ensures
        accepted == agreed(program::text_behind(printed)),
{
    match printed {
        Some(printed) => text::contains(printed, "ok"),
        None => false,
    }
}

/// `true` or `false`.
pub open spec fn flag_text(flag: bool) -> Seq<char> {
    if flag {
        "true"@
    } else {
        "false"@
    }
}

/// `s` with single quotes for double ones.
pub open spec fn unquoted(s: Seq<char>) -> Seq<char> {
    text::replaced(s, '"', '\'')
}

/// The member of a report that carries the screenshot, where there is one.
pub open spec fn screenshot_member(screenshot: Option<Seq<char>>) -> Seq<char> {
    match screenshot {
        Some(screenshot) => ",\"screenshot_b64\":\""@ + screenshot + "\""@,
        None => Seq::empty(),
    }
}

/// A report: who sends it, what is in front, how much is typed and moved, and
/// the screenshot, where there is one.
pub open spec fn report_text(
    agent_id: Seq<char>,
    app: Seq<char>,
    app_name: Seq<char>,
    idle: bool,
    productivity: u32,
    activity: u32,
    screenshot: Option<Seq<char>>,
) -> Seq<char> {
    "{\"agent_id\":\""@ + agent_id + "\",\"active_app\":\""@ + unquoted(app)
        + "\",\"app_name\":\""@ + unquoted(app_name) + "\",\"window_title\":\""@ + unquoted(app)
        + "\",\"keyboard_activity\":"@ + number::decimal(activity as nat)
        + ",\"mouse_activity\":"@ + number::decimal(activity as nat) + ",\"is_idle\":"@
        + flag_text(idle) + ",\"productivity\":"@ + number::decimal(productivity as nat)
        + screenshot_member(screenshot) + "}"@
}

/// Writes a report.
pub fn ingest_body(
    agent_id: &str,
    app: &str,
    app_name: &str,
    idle: bool,
    productivity: u32,
    activity: u32,
    screenshot: Option<&str>,
) -> (body: String)
    ensures
        body@ == report_text(
            agent_id@,
            app@,
            app_name@,
            idle,
            productivity,
            activity,
            program::text_behind(screenshot),
        ),
{
    let app = text::replace_char(app, '"', '\'');
    let app_name = text::replace_char(app_name, '"', '\'');
    let mut body = "{\"agent_id\":\"".to_string();
    body.append(agent_id);
    body.append("\",\"active_app\":\"");
    body.append(app.as_str());
    body.append("\",\"app_name\":\"");
    body.append(app_name.as_str());
    body.append("\",\"window_title\":\"");
    body.append(app.as_str());
    body.append("\",\"keyboard_activity\":");
    number::push_decimal(&mut body, activity as u64);
    body.append(",\"mouse_activity\":");
    number::push_decimal(&mut body, activity as u64);
    body.append(",\"is_idle\":");
    body.append(
        if idle {
            "true"
        } else {
            "false"
        },
    );
    body.append(",\"productivity\":");
    number::push_decimal(&mut body, productivity as u64);
    let ghost head = body@;
    match screenshot {
        Some(screenshot) => {
            body.append(",\"screenshot_b64\":\"");
            body.append(screenshot);
            body.append("\"");
        },
        None => {},
    }
    assert(body@ == head + screenshot_member(program::text_behind(screenshot)));
    body.append("}");
    body
}

/// No double quote is left in an application's name, so that it cannot end the
/// string that it is reported in; every other character keeps its place.
pub proof fn law_names_are_unquoted(name: Seq<char>)
    ensures
        unquoted(name).len() == name.len(),
        forall|i: int|
            0 <= i < name.len() ==> {
                &&& #[trigger] unquoted(name)[i] != '"'
                &&& name[i] != '"' ==> unquoted(name)[i] == name[i]
            },
        same_but_for_quotes(name, unquoted(name)),
{
}

/// Whether two names are the same but for the quotes: double ones in the first
/// are single ones in the second.
pub open spec fn same_but_for_quotes(name: Seq<char>, reported: Seq<char>) -> bool {
    &&& reported.len() == name.len()
    &&& forall|i: int|
        0 <= i < name.len() ==> #[trigger] reported[i] == (if name[i] == '"' {
            '\''
        } else {
            name[i]
        })
}

/// The start of a member: what ends the one before it, its name, and what comes
/// before its value.
#[verifier::opaque]
spec fn opens(glue: Seq<char>, name: Seq<char>, close: Seq<char>) -> Seq<char> {
    glue + seq!['"'] + name + close
}

proof fn lemma_assoc(a: Seq<char>, b: Seq<char>, c: Seq<char>, d: Seq<char>)
    ensures
        a + b + c + d == a + (b + c + d),
{
    assert(a + b + c + d =~= a + (b + c + d));
}

/// A member that is neither first nor last, and whose value has no quotes, is
/// read back, and then the others.
proof fn lemma_bare_step(
    literal: Seq<char>,
    glue: Seq<char>,
    name: Seq<char>,
    value: Seq<char>,
    tail: Seq<char>,
    more: Seq<char>,
) -> (members: Seq<char>)
    requires
        literal == opens(glue, name, seq!['"', ':']),
        tail == seq![','] + more,
        text::lacks(name, '"'),
        flat_json::readable(FlatValue::Bare(value)),
        flat_json::members_at(more) is Some,
    ensures
        literal + value + tail == glue + members,
        flat_json::members_at(members) == Some(
            seq![(name, FlatValue::Bare(value))] + flat_json::members_at(more)->0,
        ),
{
    reveal(opens);
    let members = flat_json::written_member(name, FlatValue::Bare(value)) + seq![','] + more;
    assert(literal + value + tail =~= glue + members);
    flat_json::law_first_member_is_read(name, FlatValue::Bare(value), more);
    members
}

/// The same of a member whose value has quotes.
proof fn lemma_text_step(
    literal: Seq<char>,
    glue: Seq<char>,
    name: Seq<char>,
    value: Seq<char>,
    tail: Seq<char>,
    more: Seq<char>,
) -> (members: Seq<char>)
    requires
        literal == opens(glue, name, seq!['"', ':', '"']),
        tail == seq!['"', ','] + more,
        text::lacks(name, '"'),
        text::lacks(value, '"'),
        flat_json::members_at(more) is Some,
    ensures
        literal + value + tail == glue + members,
        flat_json::members_at(members) == Some(
            seq![(name, FlatValue::Text(value))] + flat_json::members_at(more)->0,
        ),
{
    reveal(opens);
    let members = flat_json::written_member(name, FlatValue::Text(value)) + seq![','] + more;
    assert(literal + value + tail =~= glue + members);
    flat_json::law_first_member_is_read(name, FlatValue::Text(value), more);
    members
}

/// The parts that the literals of a report are made of.
proof fn lemma_literals()
    ensures
        "{\"agent_id\":\""@ == opens(seq!['{'], "agent_id"@, seq!['"', ':', '"']),
        text::lacks("agent_id"@, '"'),
        "\",\"active_app\":\""@ == opens(seq!['"', ','], "active_app"@, seq!['"', ':', '"']),
        text::lacks("active_app"@, '"'),
        "\",\"app_name\":\""@ == opens(seq!['"', ','], "app_name"@, seq!['"', ':', '"']),
        text::lacks("app_name"@, '"'),
        "\",\"window_title\":\""@ == opens(seq!['"', ','], "window_title"@, seq!['"', ':', '"']),
        text::lacks("window_title"@, '"'),
{
    reveal(opens);
    reveal_strlit("{\"agent_id\":\"");
    reveal_strlit("agent_id");
    reveal_strlit("\",\"active_app\":\"");
    reveal_strlit("active_app");
    reveal_strlit("\",\"app_name\":\"");
    reveal_strlit("app_name");
    reveal_strlit("\",\"window_title\":\"");
    reveal_strlit("window_title");
}

proof fn lemma_bare_literals(idle: bool)
    ensures
        "\",\"keyboard_activity\":"@ == opens(
            seq!['"', ','],
            "keyboard_activity"@,
            seq!['"', ':'],
        ),
        text::lacks("keyboard_activity"@, '"'),
        ",\"mouse_activity\":"@ == opens(seq![','], "mouse_activity"@, seq!['"', ':']),
        text::lacks("mouse_activity"@, '"'),
        ",\"is_idle\":"@ == opens(seq![','], "is_idle"@, seq!['"', ':']),
        text::lacks("is_idle"@, '"'),
        ",\"productivity\":"@ == opens(seq![','], "productivity"@, seq!['"', ':']),
        text::lacks("productivity"@, '"'),
        flat_json::readable(FlatValue::Bare(flag_text(idle))),
{
    reveal(opens);
    reveal_strlit("\",\"keyboard_activity\":");
    reveal_strlit("keyboard_activity");
    reveal_strlit(",\"mouse_activity\":");
    reveal_strlit("mouse_activity");
    reveal_strlit(",\"is_idle\":");
    reveal_strlit("is_idle");
    reveal_strlit(",\"productivity\":");
    reveal_strlit("productivity");
    reveal_strlit("true");
    reveal_strlit("false");
}

proof fn lemma_decimal_is_readable(n: u64)
    ensures
        flat_json::readable(FlatValue::Bare(number::decimal(n as nat))),
{
    number::law_decimal_is_read_back(n);
    number::law_numbers_are_digits(number::decimal(n as nat));
}

/// The end of a report, from the productivity on.
spec fn report_end(productivity: u32, screenshot: Option<Seq<char>>) -> Seq<char> {
    ",\"productivity\":"@ + number::decimal(productivity as nat) + (screenshot_member(screenshot)
        + "}"@)
}

/// A report, from what follows the agent's name on.
spec fn report_rest(
    app: Seq<char>,
    app_name: Seq<char>,
    idle: bool,
    productivity: u32,
    activity: u32,
    screenshot: Option<Seq<char>>,
) -> Seq<char> {
    let level = number::decimal(activity as nat);
    let idle_on = ",\"is_idle\":"@ + flag_text(idle) + report_end(productivity, screenshot);
    let mouse_on = ",\"mouse_activity\":"@ + level + idle_on;
    let keyboard_on = "\",\"keyboard_activity\":"@ + level + mouse_on;
    let title_on = "\",\"window_title\":\""@ + unquoted(app) + keyboard_on;
    let name_on = "\",\"app_name\":\""@ + unquoted(app_name) + title_on;
    "\",\"active_app\":\""@ + unquoted(app) + name_on
}

proof fn lemma_report_parts(
    agent_id: Seq<char>,
    app: Seq<char>,
    app_name: Seq<char>,
    idle: bool,
    productivity: u32,
    activity: u32,
    screenshot: Option<Seq<char>>,
)
    ensures
        report_text(agent_id, app, app_name, idle, productivity, activity, screenshot)
            == "{\"agent_id\":\""@ + agent_id + report_rest(
            app,
            app_name,
            idle,
            productivity,
            activity,
            screenshot,
        ),
{
    let level = number::decimal(activity as nat);
    let p1 = "{\"agent_id\":\""@ + agent_id;
    let p2 = p1 + "\",\"active_app\":\""@ + unquoted(app);
    let p3 = p2 + "\",\"app_name\":\""@ + unquoted(app_name);
    let p4 = p3 + "\",\"window_title\":\""@ + unquoted(app);
    let p5 = p4 + "\",\"keyboard_activity\":"@ + level;
    let p6 = p5 + ",\"mouse_activity\":"@ + level;
    let p7 = p6 + ",\"is_idle\":"@ + flag_text(idle);
    let last = screenshot_member(screenshot) + "}"@;
    let productivity_on = report_end(productivity, screenshot);
    let idle_on = ",\"is_idle\":"@ + flag_text(idle) + productivity_on;
    let mouse_on = ",\"mouse_activity\":"@ + level + idle_on;
    let keyboard_on = "\",\"keyboard_activity\":"@ + level + mouse_on;
    let title_on = "\",\"window_title\":\""@ + unquoted(app) + keyboard_on;
    let name_on = "\",\"app_name\":\""@ + unquoted(app_name) + title_on;
    let p8 = p7 + ",\"productivity\":"@ + number::decimal(productivity as nat);
    assert(p8 + screenshot_member(screenshot) + "}"@ =~= p8 + last);
    lemma_assoc(p7, ",\"productivity\":"@, number::decimal(productivity as nat), last);
    lemma_assoc(p6, ",\"is_idle\":"@, flag_text(idle), productivity_on);
    lemma_assoc(p5, ",\"mouse_activity\":"@, level, idle_on);
    lemma_assoc(p4, "\",\"keyboard_activity\":"@, level, mouse_on);
    lemma_assoc(p3, "\",\"window_title\":\""@, unquoted(app), keyboard_on);
    lemma_assoc(p2, "\",\"app_name\":\""@, unquoted(app_name), title_on);
    lemma_assoc(p1, "\",\"active_app\":\""@, unquoted(app), name_on);
}

/// What a report holds: a member for each input, the screenshot last.
pub open spec fn report_members(
    agent_id: Seq<char>,
    app: Seq<char>,
    app_name: Seq<char>,
    idle: bool,
    productivity: u32,
    activity: u32,
    screenshot: Option<Seq<char>>,
) -> Seq<FlatMember> {
    let members = seq![
        ("agent_id"@, FlatValue::Text(agent_id)),
        ("active_app"@, FlatValue::Text(app)),
        ("app_name"@, FlatValue::Text(app_name)),
        ("window_title"@, FlatValue::Text(app)),
        ("keyboard_activity"@, FlatValue::Bare(number::decimal(activity as nat))),
        ("mouse_activity"@, FlatValue::Bare(number::decimal(activity as nat))),
        (
            "is_idle"@,
            FlatValue::Bare(
                if idle {
                    "true"@
                } else {
                    "false"@
                },
            ),
        ),
        ("productivity"@, FlatValue::Bare(number::decimal(productivity as nat))),
    ];
    match screenshot {
        Some(screenshot) => members.push(("screenshot_b64"@, FlatValue::Text(screenshot))),
        None => members,
    }
}

/// The members from the productivity on are read back from a report's end.
proof fn lemma_report_end(productivity: u32, screenshot: Option<Seq<char>>) -> (more: Seq<char>)
    requires
        screenshot matches Some(screenshot) ==> text::lacks(screenshot, '"'),
    ensures
        report_end(productivity, screenshot) == seq![','] + more,
        flat_json::members_at(more) == Some(
            match screenshot {
                Some(screenshot) => seq![
                    (
                        "productivity"@,
                        FlatValue::Bare(number::decimal(productivity as nat)),
                    ),
                    ("screenshot_b64"@, FlatValue::Text(screenshot)),
                ],
                None => seq![
                    (
                        "productivity"@,
                        FlatValue::Bare(number::decimal(productivity as nat)),
                    ),
                ],
            },
        ),
{
    let name = "productivity"@;
    let number = number::decimal(productivity as nat);
    let value = FlatValue::Bare(number);
    lemma_decimal_is_readable(productivity as u64);
    lemma_bare_literals(true);
    reveal_strlit("}");
    match screenshot {
        Some(shot) => {
            let shown = FlatValue::Text(shot);
            let last = lemma_screenshot_end(shot);
            let more = lemma_bare_step(
                ",\"productivity\":"@,
                seq![','],
                name,
                number,
                screenshot_member(screenshot) + "}"@,
                last,
            );
            assert(seq![(name, value)] + seq![("screenshot_b64"@, shown)] =~= seq![
                (name, value),
                ("screenshot_b64"@, shown),
            ]);
            more
        },
        None => {
            reveal(opens);
            let more = flat_json::written_member(name, value) + seq!['}'];
            flat_json::law_last_member_is_read(name, value);
            assert(report_end(productivity, screenshot) =~= seq![','] + more);
            more
        },
    }
}

proof fn lemma_screenshot_end(shot: Seq<char>) -> (last: Seq<char>)
    requires
        text::lacks(shot, '"'),
    ensures
        screenshot_member(Some(shot)) + "}"@ == seq![','] + last,
        flat_json::members_at(last) == Some(seq![("screenshot_b64"@, FlatValue::Text(shot))]),
{
    reveal_strlit(",\"screenshot_b64\":\"");
    reveal_strlit("screenshot_b64");
    reveal_strlit("\"");
    reveal_strlit("}");
    let last = flat_json::written_member("screenshot_b64"@, FlatValue::Text(shot)) + seq!['}'];
    flat_json::law_last_member_is_read("screenshot_b64"@, FlatValue::Text(shot));
    assert(screenshot_member(Some(shot)) + "}"@ =~= seq![','] + last);
    last
}

/// The service reads from a report what the agent put into it, whatever its
/// length: the names, but for their quotes, the numbers, the flag, and the whole
/// screenshot.
pub proof fn law_report_is_read_back(
    agent_id: Seq<char>,
    app: Seq<char>,
    app_name: Seq<char>,
    idle: bool,
    productivity: u32,
    activity: u32,
    screenshot: Option<Seq<char>>,
    reported_app: Seq<char>,
    reported_name: Seq<char>,
)
    requires
        text::lacks(agent_id, '"'),
        screenshot matches Some(screenshot) ==> text::lacks(screenshot, '"'),
        same_but_for_quotes(app, reported_app),
        same_but_for_quotes(app_name, reported_name),
    ensures
        flat_json::object(
            report_text(agent_id, app, app_name, idle, productivity, activity, screenshot),
        ) == Some(
            report_members(
                agent_id,
                reported_app,
                reported_name,
                idle,
                productivity,
                activity,
                screenshot,
            ),
        ),
{
    assert(unquoted(app) =~= reported_app);
    assert(unquoted(app_name) =~= reported_name);
    let level = number::decimal(activity as nat);
    let flag = flag_text(idle);
    lemma_literals();
    lemma_bare_literals(idle);
    lemma_report_parts(agent_id, app, app_name, idle, productivity, activity, screenshot);
    lemma_decimal_is_readable(activity as u64);
    let end = report_end(productivity, screenshot);
    let m8 = lemma_report_end(productivity, screenshot);
    let m7 = lemma_bare_step(",\"is_idle\":"@, seq![','], "is_idle"@, flag, end, m8);
    let t7 = ",\"is_idle\":"@ + flag + end;
    let m6 = lemma_bare_step(
        ",\"mouse_activity\":"@,
        seq![','],
        "mouse_activity"@,
        level,
        t7,
        m7,
    );
    let t6 = ",\"mouse_activity\":"@ + level + t7;
    let m5 = lemma_bare_step(
        "\",\"keyboard_activity\":"@,
        seq!['"', ','],
        "keyboard_activity"@,
        level,
        t6,
        m6,
    );
    let t5 = "\",\"keyboard_activity\":"@ + level + t6;
    let m4 = lemma_text_step(
        "\",\"window_title\":\""@,
        seq!['"', ','],
        "window_title"@,
        reported_app,
        t5,
        m5,
    );
    let t4 = "\",\"window_title\":\""@ + reported_app + t5;
    let m3 = lemma_text_step(
        "\",\"app_name\":\""@,
        seq!['"', ','],
        "app_name"@,
        reported_name,
        t4,
        m4,
    );
    let t3 = "\",\"app_name\":\""@ + reported_name + t4;
    let m2 = lemma_text_step(
        "\",\"active_app\":\""@,
        seq!['"', ','],
        "active_app"@,
        reported_app,
        t3,
        m3,
    );
    let t2 = "\",\"active_app\":\""@ + reported_app + t3;
    let m1 = lemma_text_step("{\"agent_id\":\""@, seq!['{'], "agent_id"@, agent_id, t2, m2);
    assert((seq!['{'] + m1).drop_first() =~= m1);
    assert(flat_json::members_at(m1)->0 =~= report_members(
        agent_id,
        reported_app,
        reported_name,
        idle,
        productivity,
        activity,
        screenshot,
    ));
}

/// A screenshot is attached as it stands, in place of the end of the report
/// without it.
pub proof fn law_screenshot_is_attached(
    agent_id: Seq<char>,
    app: Seq<char>,
    app_name: Seq<char>,
    idle: bool,
    productivity: u32,
    activity: u32,
    screenshot: Seq<char>,
)
    ensures
        report_text(agent_id, app, app_name, idle, productivity, activity, Some(screenshot))
            == report_text(
            agent_id,
            app,
            app_name,
            idle,
            productivity,
            activity,
            None,
        ).drop_last() + ",\"screenshot_b64\":\""@ + screenshot + "\"}"@,
{
    reveal_strlit("}");
    reveal_strlit("\"");
    reveal_strlit("\"}");
    let without = report_text(agent_id, app, app_name, idle, productivity, activity, None);
    let with = report_text(
        agent_id,
        app,
        app_name,
        idle,
        productivity,
        activity,
        Some(screenshot),
    );
    let head = without.drop_last();
    let member = screenshot_member(Some(screenshot));
    assert(without =~= head + "}"@);
    assert(with =~= head + member + "}"@);
    assert(member + "}"@ =~= ",\"screenshot_b64\":\""@ + screenshot + "\"}"@);
    assert(head + member + "}"@ =~= head + (member + "}"@));
    assert(head + (",\"screenshot_b64\":\""@ + screenshot + "\"}"@) =~= head
        + ",\"screenshot_b64\":\""@ + screenshot + "\"}"@);
}

/// The agent's name stands in the report as it is, and changes nothing else.
pub proof fn law_report_carries_the_agent_id(
    agent_id: Seq<char>,
    other: Seq<char>,
    app: Seq<char>,
    app_name: Seq<char>,
    idle: bool,
    productivity: u32,
    activity: u32,
    screenshot: Option<Seq<char>>,
)
    ensures
        ({
            let start = "{\"agent_id\":\""@ + agent_id;
            let other_start = "{\"agent_id\":\""@ + other;
            let report = report_text(
                agent_id,
                app,
                app_name,
                idle,
                productivity,
                activity,
                screenshot,
            );
            let other_report = report_text(
                other,
                app,
                app_name,
                idle,
                productivity,
                activity,
                screenshot,
            );
            &&& start.is_prefix_of(report)
            &&& report.skip(start.len() as int) == other_report.skip(other_start.len() as int)
        }),
{
    let rest = report_rest(app, app_name, idle, productivity, activity, screenshot);
    lemma_report_parts(agent_id, app, app_name, idle, productivity, activity, screenshot);
    lemma_report_parts(other, app, app_name, idle, productivity, activity, screenshot);
    let start = "{\"agent_id\":\""@ + agent_id;
    let other_start = "{\"agent_id\":\""@ + other;
    assert((start + rest).skip(start.len() as int) =~= rest);
    assert((other_start + rest).skip(other_start.len() as int) =~= rest);
    assert((start + rest).subrange(0, start.len() as int) =~= start);
}

/// The service gets the very image that was encoded: the last member of the
/// report is named for it, and decodes to its bytes.
pub proof fn law_screenshot_reaches_the_service(
    agent_id: Seq<char>,
    app: Seq<char>,
    app_name: Seq<char>,
    idle: bool,
    productivity: u32,
    activity: u32,
    jpeg: Seq<u8>,
)
    requires
        text::lacks(agent_id, '"'),
    ensures
        flat_json::object(
            report_text(
                agent_id,
                app,
                app_name,
                idle,
                productivity,
                activity,
                Some(base64::base64_text(jpeg)),
            ),
        ) matches Some(members) && members.len() == 9 && members[8].0 == "screenshot_b64"@
            && (members[8].1 matches FlatValue::Text(shot) && base64::base64_bytes(shot) == Some(
            jpeg,
        )),
{
    let shot = base64::base64_text(jpeg);
    base64::law_base64_alphabet(jpeg);
    base64::law_base64_is_read_back(jpeg);
    law_names_are_unquoted(app);
    law_names_are_unquoted(app_name);
    law_report_is_read_back(
        agent_id,
        app,
        app_name,
        idle,
        productivity,
        activity,
        Some(shot),
        unquoted(app),
        unquoted(app_name),
    );
}

/// The service reads from a choice who made it and what it was.
pub proof fn law_control_is_read_back(agent_id: Seq<char>, action: Seq<char>)
    requires
        text::lacks(agent_id, '"'),
        text::lacks(action, '"'),
    ensures
        flat_json::object(control_text(agent_id, action)) == Some(
            seq![
                ("agent_id"@, FlatValue::Text(agent_id)),
                ("action"@, FlatValue::Text(action)),
            ],
        ),
{
    lemma_literals();
    let last = lemma_action_end(action);
    let tail = "\",\"action\":\""@ + action + "\"}"@;
    let all = lemma_text_step("{\"agent_id\":\""@, seq!['{'], "agent_id"@, agent_id, tail, last);
    lemma_assoc("{\"agent_id\":\""@ + agent_id, "\",\"action\":\""@, action, "\"}"@);
    assert((seq!['{'] + all).drop_first() =~= all);
    assert(flat_json::members_at(all)->0 =~= seq![
        ("agent_id"@, FlatValue::Text(agent_id)),
        ("action"@, FlatValue::Text(action)),
    ]);
}

proof fn lemma_action_end(action: Seq<char>) -> (last: Seq<char>)
    requires
        text::lacks(action, '"'),
    ensures
        "\",\"action\":\""@ + action + "\"}"@ == seq!['"', ','] + last,
        flat_json::members_at(last) == Some(seq![("action"@, FlatValue::Text(action))]),
{
    reveal_strlit("\",\"action\":\"");
    reveal_strlit("action");
    reveal_strlit("\"}");
    let last = flat_json::written_member("action"@, FlatValue::Text(action)) + seq!['}'];
    flat_json::law_last_member_is_read("action"@, FlatValue::Text(action));
    assert("\",\"action\":\""@ + action + "\"}"@ =~= seq!['"', ','] + last);
    last
}

/// Agent and action stand in a choice as they are: it can be taken apart by
/// their lengths alone.
pub proof fn law_control_comes_apart(agent_id: Seq<char>, action: Seq<char>)
    ensures
        ({
            let body = control_text(agent_id, action);
            let n = agent_id.len() as int;
            let m = action.len() as int;
            &&& body.len() == 13 + n + 12 + m + 2
            &&& body.take(13) == "{\"agent_id\":\""@
            &&& body.subrange(13, 13 + n) == agent_id
            &&& body.subrange(13 + n, 25 + n) == "\",\"action\":\""@
            &&& body.subrange(25 + n, 25 + n + m) == action
            &&& body.skip(25 + n + m) == "\"}"@
        }),
{
    reveal_strlit("{\"agent_id\":\"");
    reveal_strlit("\",\"action\":\"");
    reveal_strlit("\"}");
}

/// The service agreed exactly where `ok` stands somewhere in its answer.
pub proof fn law_agreement_says_ok(printed: Seq<char>)
    ensures
        agreed(Some(printed)) <==> exists|before: Seq<char>, after: Seq<char>|
            printed == #[trigger] (before + "ok"@ + after),
        !agreed(None),
{
    text::law_found_text_is_there(printed, "ok"@);
}

/// A request goes to the address, with nothing sent along.
pub proof fn law_fetch_goes_to_the_address(url: Seq<char>)
    ensures
        fetch_line(url).program == "curl"@,
        fetch_line(url).args.len() == 4,
        fetch_line(url).args[0] == "-s"@,
        fetch_line(url).args[1] == url,
        fetch_line(url).args.skip(2) == seq!["--max-time"@, "8"@],
{
}

/// What is posted is the whole body, behind the option that sends it; the
/// address, the kind of the body and the time to wait stand behind theirs.
pub proof fn law_post_carries_the_body(url: Seq<char>, body: Seq<char>, secs: Seq<char>)
    ensures
        post_line(url, body, secs).program == "curl"@,
        post_line(url, body, secs).args.len() == 10,
        post_line(url, body, secs).args.take(3) == seq!["-s"@, "-X"@, "POST"@],
        post_line(url, body, secs).args[3] == url,
        post_line(url, body, secs).args[4] == "-H"@,
        post_line(url, body, secs).args[5] == "Content-Type: application/json"@,
        post_line(url, body, secs).args[6] == "-d"@,
        post_line(url, body, secs).args[7] == body,
        post_line(url, body, secs).args[8] == "--max-time"@,
        post_line(url, body, secs).args[9] == secs,
{
}

/// Every request goes to its place at the service, with the whole report, the
/// whole name and the whole choice.
pub proof fn law_requests_go_to_their_places(
    agent_id: Seq<char>,
    action: Seq<char>,
    body: Seq<char>,
)
    ensures
        config_line().program == "curl"@,
        config_line().args[1] == "https://app.teamlens.co/api/agent/config"@,
        order_line(agent_id).program == "curl"@,
        order_line(agent_id).args[1] == "https://app.teamlens.co/api/agent/command?agent_id"@
            + seq!['='] + agent_id,
        ingest_line(body).program == "curl"@,
        ingest_line(body).args[3] == "https://app.teamlens.co/api/ingest"@,
        ingest_line(body).args[6] == "-d"@,
        ingest_line(body).args[7] == body,
        ingest_line(body).args[9] == "15"@,
        control_line(agent_id, action).program == "curl"@,
        control_line(agent_id, action).args[3] == "https://app.teamlens.co/api/agent/control"@,
        control_line(agent_id, action).args[6] == "-d"@,
        control_line(agent_id, action).args[7] == control_text(agent_id, action),
        control_line(agent_id, action).args[9] == "8"@,
{
    reveal_strlit("https://app.teamlens.co/api");
    reveal_strlit("/agent/config");
    reveal_strlit("https://app.teamlens.co/api/agent/config");
    assert(API_BASE@ + "/agent/config"@ =~= "https://app.teamlens.co/api/agent/config"@);
    reveal_strlit("/ingest");
    reveal_strlit("https://app.teamlens.co/api/ingest");
    assert(API_BASE@ + "/ingest"@ =~= "https://app.teamlens.co/api/ingest"@);
    reveal_strlit("/agent/control");
    reveal_strlit("https://app.teamlens.co/api/agent/control");
    assert(API_BASE@ + "/agent/control"@ =~= "https://app.teamlens.co/api/agent/control"@);
    lemma_order_address(agent_id);
}

proof fn lemma_order_address(agent_id: Seq<char>)
    ensures
        API_BASE@ + "/agent/command?agent_id="@ + agent_id
            == "https://app.teamlens.co/api/agent/command?agent_id"@ + seq!['='] + agent_id,
{
    reveal_strlit("https://app.teamlens.co/api");
    reveal_strlit("/agent/command?agent_id=");
    reveal_strlit("https://app.teamlens.co/api/agent/command?agent_id");
    assert(API_BASE@ + "/agent/command?agent_id="@
        =~= "https://app.teamlens.co/api/agent/command?agent_id"@ + seq!['=']);
}

} // verus!
