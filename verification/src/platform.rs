//! What the agent asks of the operating system, and how it reads the answers.
//!
//! Each question has three parts: the command to run, the function that reads
//! the bytes which the command wrote (`None` where it could not be started),
//! and the function that reads them once they are text.
use vstd::prelude::*;

use crate::number;
use crate::program;
use crate::program::{CommandLine, ShellCommand};
use crate::text;

verus! {

/// The operating systems that the agent tells apart.
#[derive(Clone, Copy, Debug, PartialEq, Eq, Structural)]
pub enum Platform {
    Linux,
    MacOs,
    Windows,
    Other,
}

// ---- the machine and its user ----

/// The command that prints the name of the machine.
pub fn hostname_command() -> (command: ShellCommand)
    ensures
        command@ == (CommandLine { program: "hostname"@, args: seq![] }),
{
    ShellCommand::new("hostname")
}

/// The machine's name, from the text that the command wrote.
pub open spec fn hostname(printed: Option<Seq<char>>) -> Seq<char> {
    match printed {
        Some(printed) => text::trimmed(printed),
        None => "unknown"@,
    }
}

/// Reads the machine's name from what the command wrote.
pub fn get_hostname(output: Option<&[u8]>) -> (name: String)
    ensures
        name@ == hostname(program::output_text(output)),
{
    let printed = program::read_output(output);
    hostname_in(program::borrow_text(&printed))
}

/// Reads the machine's name from the text that the command wrote.
pub fn hostname_in(printed: Option<&str>) -> (name: String)
    ensures
        name@ == hostname(program::text_behind(printed)),
{
    match printed {
        Some(printed) => text::trim(printed),
        None => "unknown".to_string(),
    }
}

/// The user's name: what the environment has under `USER`, else under
/// `USERNAME`, else `user`.
pub open spec fn user_name(user: Option<Seq<char>>, username: Option<Seq<char>>) -> Seq<char> {
    match (user, username) {
        (Some(user), _) => user,
        (None, Some(username)) => username,
        (None, None) => "user"@,
    }
}

/// Finds the user's name.
pub fn get_username(user: Option<&str>, username: Option<&str>) -> (name: String)
    ensures
        name@ == user_name(program::text_behind(user), program::text_behind(username)),
{
    match (user, username) {
        (Some(user), _) => user.to_string(),
        (None, Some(username)) => username.to_string(),
        (None, None) => "user".to_string(),
    }
}

/// The name under which the agent reports.
pub open spec fn agent_name(hostname: Seq<char>, username: Seq<char>) -> Seq<char> {
    "agent-"@ + hostname + "-"@ + username
}

/// Makes the name under which the agent reports.
pub fn agent_id(hostname: &str, username: &str) -> (id: String)
    ensures
        id@ == agent_name(hostname@, username@),
{
    let mut id = "agent-".to_string();
    id.append(hostname);
    id.append("-");
    id.append(username);
    id
}

// ---- how long nothing was typed or moved ----

/// The command that tells how long the machine has been idle.
pub fn idle_command(platform: Platform) -> (command: Option<ShellCommand>)
    ensures
        program::command_line(command) == (match platform {
            Platform::Linux => Some(CommandLine { program: "xprintidle"@, args: seq![] }),
            Platform::MacOs => Some(
                CommandLine { program: "ioreg"@, args: seq!["-c"@, "IOHIDSystem"@] },
            ),
            _ => None,
        }),
{
    match platform {
        Platform::Linux => Some(ShellCommand::new("xprintidle")),
        Platform::MacOs => Some(ShellCommand::new("ioreg").arg("-c").arg("IOHIDSystem")),
        _ => None,
    }
}

/// The number that `s` writes between white space, or zero.
pub open spec fn number_or_zero(s: Seq<char>) -> u64 {
    match number::number_in(text::trimmed(s)) {
        Some(n) => n,
        None => 0,
    }
}

/// Reads the number that `s` writes between white space, or zero.
fn parse_or_zero(s: &str) -> (n: u64)
    ensures
        n == number_or_zero(s@),
{
    let trimmed = text::trim(s);
    match number::parse_u64(trimmed.as_str()) {
        Some(n) => n,
        None => 0,
    }
}

/// The idle time that a macOS registry listing gives, in nanoseconds: the
/// number behind the last equals sign of the first line that names it, or zero.
pub open spec fn listed_idle_nanos(lines: Seq<Seq<char>>) -> u64
    decreases lines.len(),
{
    if lines.len() == 0 {
        0
    } else if text::has_text(lines.first(), "HIDIdleTime"@) {
        number_or_zero(text::after_last(lines.first(), '='))
    } else {
        listed_idle_nanos(lines.drop_first())
    }
}

/// The idle time in whole seconds, from the text that the command wrote: in
/// milliseconds on Linux, in a listing of nanoseconds on macOS. It is zero where
/// it is not to be had.
pub open spec fn idle_secs(platform: Platform, printed: Option<Seq<char>>) -> u64 {
    match (platform, printed) {
        (Platform::Linux, Some(printed)) => number_or_zero(printed) / 1000,
        (Platform::MacOs, Some(printed)) => listed_idle_nanos(text::lines_of(printed))
            / 1_000_000_000,
        _ => 0,
    }
}

/// Reads the idle time from what the command wrote.
pub fn get_idle_secs(platform: Platform, output: Option<&[u8]>) -> (secs: u64)
    ensures
        secs == idle_secs(platform, program::output_text(output)),
{
    let printed = program::read_output(output);
    idle_secs_in(platform, program::borrow_text(&printed))
}

/// Reads the idle time from the text that the command wrote.
pub fn idle_secs_in(platform: Platform, printed: Option<&str>) -> (secs: u64)
    ensures
        secs == idle_secs(platform, program::text_behind(printed)),
{
    match (platform, printed) {
        (Platform::Linux, Some(printed)) => parse_or_zero(printed) / 1000,
        (Platform::MacOs, Some(printed)) => {
            let lines = text::lines(printed);
            idle_nanos_in(&lines) / 1_000_000_000
        },
        _ => 0,
    }
}

/// Finds the idle time in the lines of a registry listing.
fn idle_nanos_in(lines: &Vec<String>) -> (nanos: u64)
    ensures
        nanos == listed_idle_nanos(text::texts(lines@)),
{
    let ghost all = text::texts(lines@);
    let mut i: usize = 0;
    assert(all.skip(0) == all);
    while i < lines.len()
        invariant
            all == text::texts(lines@),
            i <= lines@.len(),
            listed_idle_nanos(all) == listed_idle_nanos(all.skip(i as int)),
        decreases lines.len() - i,
    {
        let line = lines[i].as_str();
        assert(line@ == all.skip(i as int).first());
        if text::contains(line, "HIDIdleTime") {
            let field = text::last_field(line, '=');
            return parse_or_zero(field.as_str());
        }
        assert(all.skip(i as int).drop_first() == all.skip(i + 1));
        i = i + 1;
    }
    0
}

// ---- the application in front ----

/// The command that names the active window or application.
pub fn active_app_command(platform: Platform) -> (command: Option<ShellCommand>)
    ensures
        program::command_line(command) == (match platform {
            Platform::Linux => Some(
                CommandLine { program: "xdotool"@, args: seq!["getactivewindow"@, "getwindowname"@] },
            ),
            Platform::MacOs => Some(
                CommandLine {
                    program: "sh"@,
                    args: seq![
                        "-c"@,
                        "lsappinfo front | grep -o 'name=\"[^\"]*\"' | head -1 | cut -d'\"' -f2"@,
                    ],
                },
            ),
            _ => None,
        }),
{
    match platform {
        Platform::Linux => Some(
            ShellCommand::new("xdotool").arg("getactivewindow").arg("getwindowname"),
        ),
        Platform::MacOs => Some(
            ShellCommand::new("sh").arg("-c").arg(
                "lsappinfo front | grep -o 'name=\"[^\"]*\"' | head -1 | cut -d'\"' -f2",
            ),
        ),
        _ => None,
    }
}

/// The active window or application, from the text that the command wrote. On
/// Linux a window's name is cut to forty characters. A name of its own stands
/// for an empty answer, and another for none.
pub open spec fn active_app(platform: Platform, printed: Option<Seq<char>>) -> Seq<char> {
    match platform {
        Platform::Linux => match printed {
            Some(printed) => if text::trimmed(printed).len() == 0 {
                "Desktop"@
            } else {
                text::first_chars(text::trimmed(printed), 40)
            },
            None => "Linux"@,
        },
        Platform::MacOs => match printed {
            Some(printed) => if text::trimmed(printed).len() == 0 {
                "Finder"@
            } else {
                text::trimmed(printed)
            },
            None => "macOS"@,
        },
        Platform::Windows => "Windows"@,
        Platform::Other => "Unknown"@,
    }
}

/// Reads the active window or application from what the command wrote.
pub fn get_active_app(platform: Platform, output: Option<&[u8]>) -> (name: String)
    ensures
        name@ == active_app(platform, program::output_text(output)),
{
    let printed = program::read_output(output);
    active_app_in(platform, program::borrow_text(&printed))
}

/// Reads the active window or application from the text that the command wrote.
pub fn active_app_in(platform: Platform, printed: Option<&str>) -> (name: String)
    ensures
        name@ == active_app(platform, program::text_behind(printed)),
{
    match platform {
        Platform::Linux => match printed {
            Some(printed) => {
                let name = text::trim(printed);
                if name.as_str().is_empty() {
                    "Desktop".to_string()
                } else {
                    text::take_chars(name.as_str(), 40)
                }
            },
            None => "Linux".to_string(),
        },
        Platform::MacOs => match printed {
            Some(printed) => {
                let name = text::trim(printed);
                if name.as_str().is_empty() {
                    "Finder".to_string()
                } else {
                    name
                }
            },
            None => "macOS".to_string(),
        },
        Platform::Windows => "Windows".to_string(),
        Platform::Other => "Unknown".to_string(),
    }
}

/// The command that runs a line of AppleScript.
pub open spec fn apple_script(line: Seq<char>) -> CommandLine {
    CommandLine { program: "osascript"@, args: seq!["-e"@, line] }
}

/// The command that names the process in front; macOS alone has one.
pub fn foreground_app_command(platform: Platform) -> (command: Option<ShellCommand>)
    ensures
        program::command_line(command) == (match platform {
            Platform::MacOs => Some(
                apple_script(
                    "tell application \"System Events\" to get name of first application process whose frontmost is true"@,
                ),
            ),
            _ => None,
        }),
{
    match platform {
        Platform::MacOs => Some(
            ShellCommand::new("osascript").arg("-e").arg(
                "tell application \"System Events\" to get name of first application process whose frontmost is true",
            ),
        ),
        _ => None,
    }
}

/// The process in front, from the text that the command wrote.
pub open spec fn foreground_app(platform: Platform, printed: Option<Seq<char>>) -> Seq<char> {
    match (platform, printed) {
        (Platform::MacOs, Some(printed)) => if text::trimmed(printed).len() == 0 {
            "Unknown"@
        } else {
            text::trimmed(printed)
        },
        _ => "Unknown"@,
    }
}

/// Reads the process in front from what the command wrote.
pub fn get_foreground_app_name(platform: Platform, output: Option<&[u8]>) -> (name: String)
    ensures
        name@ == foreground_app(platform, program::output_text(output)),
{
    let printed = program::read_output(output);
    foreground_app_in(platform, program::borrow_text(&printed))
}

/// Reads the process in front from the text that the command wrote.
pub fn foreground_app_in(platform: Platform, printed: Option<&str>) -> (name: String)
    ensures
        name@ == foreground_app(platform, program::text_behind(printed)),
{
    match (platform, printed) {
        (Platform::MacOs, Some(printed)) => {
            let name = text::trim(printed);
            if name.as_str().is_empty() {
                "Unknown".to_string()
            } else {
                name
            }
        },
        _ => "Unknown".to_string(),
    }
}

/// The browsers whose address line can be asked for.
#[derive(Clone, Copy, Debug, PartialEq, Eq, Structural)]
pub enum Browser {
    Chrome,
    Safari,
    Brave,
}

/// The browser that the process named `app` is, if it is one.
pub open spec fn browser_named(app: Seq<char>) -> Option<Browser> {
    if app == "Google Chrome"@ {
        Some(Browser::Chrome)
    } else if app == "Safari"@ {
        Some(Browser::Safari)
    } else if app == "Brave Browser"@ {
        Some(Browser::Brave)
    } else {
        None
    }
}

/// Tells which browser the process named `app` is.
pub fn browser_of(app: &str) -> (browser: Option<Browser>)
    ensures
        browser == browser_named(app@),
{
    if text::same_text(app, "Google Chrome") {
        Some(Browser::Chrome)
    } else if text::same_text(app, "Safari") {
        Some(Browser::Safari)
    } else if text::same_text(app, "Brave Browser") {
        Some(Browser::Brave)
    } else {
        None
    }
}

/// The command that prints the address of the page in front.
pub open spec fn page_query(browser: Browser) -> CommandLine {
    apple_script(
        match browser {
            Browser::Chrome =>
                "tell application \"Google Chrome\" to get URL of active tab of front window"@,
            Browser::Safari => "tell application \"Safari\" to get URL of front document"@,
            Browser::Brave =>
                "tell application \"Brave Browser\" to get URL of active tab of front window"@,
        },
    )
}

/// The command to run before the process named `app` is reported: a browser is
/// asked for its page.
pub fn page_command(app: &str) -> (command: Option<ShellCommand>)
    ensures
        program::command_line(command) == (match browser_named(app@) {
            Some(browser) => Some(page_query(browser)),
            None => None,
        }),
{
    let script = match browser_of(app) {
        Some(Browser::Chrome) =>
            "tell application \"Google Chrome\" to get URL of active tab of front window",
        Some(Browser::Safari) => "tell application \"Safari\" to get URL of front document",
        Some(Browser::Brave) =>
            "tell application \"Brave Browser\" to get URL of active tab of front window",
        None => {
            return None;
        },
    };
    Some(ShellCommand::new("osascript").arg("-e").arg(script))
}

/// What stands before the address of a page.
pub open spec fn page_prefix(browser: Browser) -> Seq<char> {
    match browser {
        Browser::Chrome => "Chrome: "@,
        Browser::Safari => "Safari: "@,
        Browser::Brave => "Brave: "@,
    }
}

/// How the process in front is reported: a browser by the address of its page,
/// where that is known, and anything else by its name.
pub open spec fn app_label(app: Seq<char>, printed: Option<Seq<char>>) -> Seq<char> {
    match (browser_named(app), printed) {
        (Some(browser), Some(printed)) => if text::trimmed(printed).len() == 0 {
            app
        } else {
            page_prefix(browser) + text::trimmed(printed)
        },
        _ => app,
    }
}

/// Names the process in front, given what its page command wrote.
pub fn label_app(app: &str, output: Option<&[u8]>) -> (label: String)
    ensures
        label@ == app_label(app@, program::output_text(output)),
{
    let printed = program::read_output(output);
    label_app_in(app, program::borrow_text(&printed))
}

/// Names the process in front, given the text that its page command wrote.
pub fn label_app_in(app: &str, printed: Option<&str>) -> (label: String)
    ensures
        label@ == app_label(app@, program::text_behind(printed)),
{
    match (browser_of(app), printed) {
        (Some(browser), Some(printed)) => {
            let url = text::trim(printed);
            if url.as_str().is_empty() {
                app.to_string()
            } else {
                let mut label = (match browser {
                    Browser::Chrome => "Chrome: ",
                    Browser::Safari => "Safari: ",
                    Browser::Brave => "Brave: ",
                }).to_string();
                label.append(url.as_str());
                label
            }
        },
        _ => app.to_string(),
    }
}

/// Outside macOS the process in front is reported as unknown, and nothing more
/// is asked about it.
pub proof fn law_foreground_needs_macos(
    platform: Platform,
    printed: Option<Seq<char>>,
    page: Option<Seq<char>>,
)
    requires
        platform != Platform::MacOs,
    ensures
        browser_named(foreground_app(platform, printed)) is None,
        app_label(foreground_app(platform, printed), page) == "Unknown"@,
{
    reveal_strlit("Unknown");
    reveal_strlit("Google Chrome");
    reveal_strlit("Safari");
    reveal_strlit("Brave Browser");
    assert("Unknown"@[0] != "Safari"@[0]);
    assert("Unknown"@.len() != "Google Chrome"@.len());
    assert("Unknown"@.len() != "Brave Browser"@.len());
}

/// Neither the active window or application nor the process in front ever has
/// an empty name.
pub proof fn law_active_app_is_named(platform: Platform, printed: Option<Seq<char>>)
    ensures
        active_app(platform, printed).len() > 0,
        foreground_app(platform, printed).len() > 0,
{
    reveal_strlit("Desktop");
    reveal_strlit("Linux");
    reveal_strlit("Finder");
    reveal_strlit("macOS");
    reveal_strlit("Windows");
    reveal_strlit("Unknown");
}

/// What the process in front is reported as is never empty, whatever is known
/// of its page.
pub proof fn law_reported_app_is_named(
    platform: Platform,
    printed: Option<Seq<char>>,
    page: Option<Seq<char>>,
)
    ensures
        app_label(foreground_app(platform, printed), page).len() > 0,
{
    law_active_app_is_named(platform, printed);
}

/// The machine's name is what was printed between white space.
pub proof fn law_hostname_is_what_is_printed(
    before: Seq<char>,
    name: Seq<char>,
    after: Seq<char>,
)
    requires
        text::all_white(before),
        text::is_bare(name),
        text::all_white(after),
    ensures
        hostname(Some(before + name + after)) == name,
        hostname(None) == "unknown"@,
{
    text::law_trim_finds_the_text(before, name, after);
}

/// The agent's name can be taken apart, by the lengths of the names that it is
/// made of.
pub proof fn law_agent_name_comes_apart(hostname: Seq<char>, username: Seq<char>)
    ensures
        ({
            let name = agent_name(hostname, username);
            let n = hostname.len() as int;
            &&& name.len() == 7 + n + username.len()
            &&& name.take(6) == "agent-"@
            &&& name.subrange(6, 6 + n) == hostname
            &&& name[6 + n] == '-'
            &&& name.skip(7 + n) == username
        }),
{
    reveal_strlit("agent-");
    reveal_strlit("-");
}

/// On Linux the idle time is the number of milliseconds that was printed, in
/// whole seconds; what is no number is none.
pub proof fn law_idle_millis_are_read(before: Seq<char>, millis: u64, after: Seq<char>)
    requires
        text::all_white(before),
        text::all_white(after),
    ensures
        ({
            let printed = before + number::decimal(millis as nat) + after;
            let secs = idle_secs(Platform::Linux, Some(printed));
            secs * 1000 <= millis < (secs + 1) * 1000
        }),
{
    lemma_number_or_zero(before, millis, after);
}

proof fn lemma_number_or_zero(before: Seq<char>, n: u64, after: Seq<char>)
    requires
        text::all_white(before),
        text::all_white(after),
    ensures
        number_or_zero(before + number::decimal(n as nat) + after) == n,
{
    let digits = number::decimal(n as nat);
    number::law_decimal_is_read_back(n);
    number::law_numbers_are_digits(digits);
    assert(digits.first() == digits[0]);
    assert(!text::is_white('+'));
    text::law_trim_finds_the_text(before, digits, after);
}

/// Without a number the user counts as present: on every platform, and where
/// nothing was printed.
pub proof fn law_unreadable_idle_time_is_none(platform: Platform, printed: Seq<char>)
    ensures
        number::number_in(text::trimmed(printed)) is None ==> idle_secs(
            Platform::Linux,
            Some(printed),
        ) == 0,
        number::number_in(text::trimmed(printed)) matches Some(n) ==> idle_secs(
            Platform::Linux,
            Some(printed),
        ) == n / 1000,
        idle_secs(platform, None) == 0,
        idle_secs(Platform::Windows, Some(printed)) == 0,
        idle_secs(Platform::Other, Some(printed)) == 0,
{
}

/// On macOS the idle time stands in the first line that names it, behind the
/// last equals sign, in nanoseconds; what stands before and after that line does
/// not matter.
pub proof fn law_idle_nanos_are_listed(
    head: Seq<Seq<char>>,
    label: Seq<char>,
    before: Seq<char>,
    nanos: u64,
    after: Seq<char>,
    tail: Seq<char>,
)
    requires
        forall|i: int| 0 <= i < head.len() ==> text::lacks(#[trigger] head[i], '\n'),
        forall|i: int| 0 <= i < head.len() ==> (#[trigger] head[i].len() == 0 || head[i].last() != '\r'),
        forall|i: int| 0 <= i < head.len() ==> !text::has_text(#[trigger] head[i], "HIDIdleTime"@),
        text::lacks(label, '\n'),
        text::has_text(label, "HIDIdleTime"@),
        text::all_white(before),
        text::lacks(before, '\n'),
        text::all_white(after),
        text::lacks(after, '\n'),
        after.len() == 0 || after.last() != '\r',
    ensures
        ({
            let line = label + seq!['='] + (before + number::decimal(nanos as nat) + after);
            let secs = idle_secs(Platform::MacOs, Some(listing(head, line + seq!['\n'] + tail)));
            secs * 1_000_000_000 <= nanos < (secs + 1) * 1_000_000_000
        }),
{
    let digits = number::decimal(nanos as nat);
    let field = before + digits + after;
    let line = label + seq!['='] + field;
    number::law_decimal_is_read_back(nanos);
    number::law_numbers_are_digits(digits);
    assert forall|i: int| 0 <= i < field.len() implies #[trigger] field[i] != '=' && field[i] != '\n' by {
        if i < before.len() {
            assert(field[i] == before[i]);
            assert(text::is_white(before[i]));
        } else if i < before.len() + digits.len() {
            assert(field[i] == digits[i - before.len()]);
        } else {
            assert(field[i] == after[i - before.len() - digits.len()]);
            assert(text::is_white(after[i - before.len() - digits.len()]));
        }
    }
    assert forall|i: int| 0 <= i < line.len() implies #[trigger] line[i] != '\n' by {
        if i < label.len() {
            assert(line[i] == label[i]);
        } else if i > label.len() {
            assert(line[i] == field[i - label.len() - 1]);
        }
    }
    assert(line.last() == field.last());
    assert(field.last() != '\r') by {
        if after.len() == 0 {
            assert(field.last() == digits.last());
        } else {
            assert(field.last() == after.last());
        }
    }
    assert(text::has_text(line, "HIDIdleTime"@)) by {
        let at = choose|at: int| text::stands_at(label, "HIDIdleTime"@, at);
        let n = "HIDIdleTime"@.len() as int;
        assert(line.subrange(at, at + n) =~= label.subrange(at, at + n));
        assert(text::stands_at(line, "HIDIdleTime"@, at));
    }
    text::law_last_field_is_behind(label, field, '=');
    lemma_number_or_zero(before, nanos, after);
    law_first_line_that_names_it_decides(head, line, tail);
}

/// On macOS the first line that names the idle time decides, also where it gives
/// no number.
pub proof fn law_first_line_that_names_it_decides(
    head: Seq<Seq<char>>,
    line: Seq<char>,
    tail: Seq<char>,
)
    requires
        forall|i: int| 0 <= i < head.len() ==> text::lacks(#[trigger] head[i], '\n'),
        forall|i: int| 0 <= i < head.len() ==> (#[trigger] head[i].len() == 0 || head[i].last() != '\r'),
        forall|i: int| 0 <= i < head.len() ==> !text::has_text(#[trigger] head[i], "HIDIdleTime"@),
        text::lacks(line, '\n'),
        line.len() == 0 || line.last() != '\r',
        text::has_text(line, "HIDIdleTime"@),
    ensures
        idle_secs(Platform::MacOs, Some(listing(head, line + seq!['\n'] + tail))) == (
        match number::number_in(text::trimmed(text::after_last(line, '='))) {
            Some(nanos) => nanos / 1_000_000_000,
            None => 0,
        }),
{
    let lines = text::lines_of(line + seq!['\n'] + tail);
    text::law_lines_come_apart(line, tail);
    assert(lines.first() == line);
    lemma_listing(head, line + seq!['\n'] + tail);
    lemma_unnamed_lines(head, lines);
}

/// A listing that nowhere names the idle time gives none.
pub proof fn law_unlisted_idle_time_is_none(lines: Seq<Seq<char>>, printed: Seq<char>)
    requires
        text::lines_of(printed) == lines,
        forall|i: int| 0 <= i < lines.len() ==> !text::has_text(#[trigger] lines[i], "HIDIdleTime"@),
    ensures
        idle_secs(Platform::MacOs, Some(printed)) == 0,
{
    lemma_unnamed_lines(lines, Seq::empty());
    assert(lines + Seq::empty() == lines);
}

/// The text that has these lines before `rest`.
pub open spec fn listing(lines: Seq<Seq<char>>, rest: Seq<char>) -> Seq<char>
    decreases lines.len(),
{
    if lines.len() == 0 {
        rest
    } else {
        lines.first() + seq!['\n'] + listing(lines.drop_first(), rest)
    }
}

proof fn lemma_listing(lines: Seq<Seq<char>>, rest: Seq<char>)
    requires
        forall|i: int| 0 <= i < lines.len() ==> text::lacks(#[trigger] lines[i], '\n'),
        forall|i: int| 0 <= i < lines.len() ==> (#[trigger] lines[i].len() == 0 || lines[i].last() != '\r'),
    ensures
        text::lines_of(listing(lines, rest)) == lines + text::lines_of(rest),
    decreases lines.len(),
{
    if lines.len() == 0 {
        assert(lines + text::lines_of(rest) == text::lines_of(rest));
    } else {
        let others = lines.drop_first();
        assert forall|i: int| 0 <= i < others.len() implies text::lacks(#[trigger] others[i], '\n') && (
        others[i].len() == 0 || others[i].last() != '\r') by {
            assert(others[i] == lines[i + 1]);
        }
        assert(text::lacks(lines[0], '\n'));
        lemma_listing(others, rest);
        text::law_lines_come_apart(lines[0], listing(others, rest));
        assert(seq![lines[0]] + (others + text::lines_of(rest)) =~= lines + text::lines_of(rest));
    }
}

proof fn lemma_unnamed_lines(head: Seq<Seq<char>>, lines: Seq<Seq<char>>)
    requires
        forall|i: int| 0 <= i < head.len() ==> !text::has_text(#[trigger] head[i], "HIDIdleTime"@),
    ensures
        listed_idle_nanos(head + lines) == listed_idle_nanos(lines),
    decreases head.len(),
{
    if head.len() == 0 {
        assert(head + lines == lines);
    } else {
        let others = head.drop_first();
        assert(!text::has_text(head[0], "HIDIdleTime"@));
        assert((head + lines).first() == head[0]);
        assert((head + lines).drop_first() == others + lines);
        assert forall|i: int| 0 <= i < others.len() implies !text::has_text(
            #[trigger] others[i],
            "HIDIdleTime"@,
        ) by {
            assert(others[i] == head[i + 1]);
        }
        lemma_unnamed_lines(others, lines);
    }
}

/// The active window or application is what was printed between white space; on
/// Linux its beginning, of forty characters at most. Where nothing was printed a
/// name stands in, and another where nothing could be asked.
pub proof fn law_active_app_is_what_is_printed(
    before: Seq<char>,
    name: Seq<char>,
    after: Seq<char>,
)
    requires
        text::all_white(before),
        text::is_bare(name),
        text::all_white(after),
    ensures
        ({
            let printed = before + name + after;
            let reported = active_app(Platform::Linux, Some(printed));
            &&& 0 < name.len() <= 40 ==> reported == name
            &&& name.len() > 40 ==> reported.len() == 40 && reported.is_prefix_of(name)
            &&& name.len() == 0 ==> reported == "Desktop"@
            &&& name.len() > 0 ==> active_app(Platform::MacOs, Some(printed)) == name
            &&& name.len() == 0 ==> active_app(Platform::MacOs, Some(printed)) == "Finder"@
            &&& active_app(Platform::Windows, Some(printed)) == "Windows"@
            &&& active_app(Platform::Other, Some(printed)) == "Unknown"@
        }),
        active_app(Platform::Linux, None) == "Linux"@,
        active_app(Platform::MacOs, None) == "macOS"@,
        active_app(Platform::Windows, None) == "Windows"@,
        active_app(Platform::Other, None) == "Unknown"@,
{
    text::law_trim_finds_the_text(before, name, after);
    if name.len() > 40 {
        text::law_cut_keeps_the_beginning(name.take(40), name.skip(40));
        assert(name.take(40) + name.skip(40) == name);
    } else {
        text::law_cut_keeps_the_beginning(name, Seq::empty());
    }
}

/// On macOS the process in front is what was printed between white space.
pub proof fn law_foreground_app_is_what_is_printed(
    before: Seq<char>,
    name: Seq<char>,
    after: Seq<char>,
)
    requires
        text::all_white(before),
        text::is_bare(name),
        text::all_white(after),
    ensures
        name.len() > 0 ==> foreground_app(Platform::MacOs, Some(before + name + after)) == name,
        name.len() == 0 ==> foreground_app(Platform::MacOs, Some(before + name + after))
            == "Unknown"@,
        foreground_app(Platform::MacOs, None) == "Unknown"@,
{
    text::law_trim_finds_the_text(before, name, after);
}

/// A process is a browser exactly where it has a browser's name.
pub proof fn law_browsers_have_their_names(app: Seq<char>)
    ensures
        browser_named(app) == Some(Browser::Chrome) <==> app == "Google Chrome"@,
        browser_named(app) == Some(Browser::Safari) <==> app == "Safari"@,
        browser_named(app) == Some(Browser::Brave) <==> app == "Brave Browser"@,
{
    lemma_browsers_differ();
}

proof fn lemma_browsers_differ()
    ensures
        "Google Chrome"@ != "Safari"@,
        "Google Chrome"@ != "Brave Browser"@,
        "Safari"@ != "Brave Browser"@,
{
    reveal_strlit("Google Chrome");
    reveal_strlit("Safari");
    reveal_strlit("Brave Browser");
    assert("Google Chrome"@[0] == 'G' && "Safari"@[0] == 'S' && "Brave Browser"@[0] == 'B');
}

/// A browser is asked for its page by its own name.
pub proof fn law_browsers_are_asked_by_name(browser: Browser)
    ensures
        page_query(browser).program == "osascript"@,
        page_query(browser).args.len() == 2,
        page_query(browser).args[0] == "-e"@,
        page_query(Browser::Chrome).args[1]
            == "tell application \"Google Chrome\" to get URL of active tab of front window"@,
        page_query(Browser::Safari).args[1]
            == "tell application \"Safari\" to get URL of front document"@,
        page_query(Browser::Brave).args[1]
            == "tell application \"Brave Browser\" to get URL of active tab of front window"@,
{
}

/// A browser is reported by the address of its page, whole and behind a short
/// name, where one was printed; without one, and for any other process, its name
/// is reported as it is.
pub proof fn law_pages_are_reported(
    app: Seq<char>,
    before: Seq<char>,
    url: Seq<char>,
    after: Seq<char>,
)
    requires
        text::all_white(before),
        text::is_bare(url),
        text::all_white(after),
    ensures
        ({
            let printed = Some(before + url + after);
            &&& url.len() > 0 ==> app_label("Google Chrome"@, printed) == "Chrome: "@ + url
            &&& url.len() > 0 ==> app_label("Safari"@, printed) == "Safari: "@ + url
            &&& url.len() > 0 ==> app_label("Brave Browser"@, printed) == "Brave: "@ + url
            &&& url.len() == 0 ==> app_label(app, printed) == app
            &&& app != "Google Chrome"@ && app != "Safari"@ && app != "Brave Browser"@ ==> app_label(
                app,
                printed,
            ) == app
        }),
        app_label(app, None) == app,
{
    lemma_browsers_differ();
    text::law_trim_finds_the_text(before, url, after);
}

/// The first name that the environment has is the user's, as it is, whatever the
/// other one is.
pub proof fn law_first_name_is_the_users(name: Seq<char>, other: Option<Seq<char>>)
    ensures
        user_name(Some(name), other) == name,
        user_name(None, Some(name)) == name,
        user_name(None, None) == "user"@,
{
}

} // verus!
