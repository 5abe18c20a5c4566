use teamlens_agent::platform::{
    active_app_command, active_app_in, agent_id, browser_of, foreground_app_command,
    foreground_app_in, get_active_app, get_foreground_app_name, get_hostname, get_idle_secs,
    get_username, hostname_command, hostname_in, idle_command, idle_secs_in, label_app,
    label_app_in, page_command, Browser, Platform,
};
use teamlens_agent::program::ShellCommand;

fn args(command: &ShellCommand) -> Vec<&str> {
    command.args.iter().map(|arg| arg.as_str()).collect()
}

#[test]
fn hostname_is_trimmed_or_unknown() {
    let command = hostname_command();
    assert_eq!(command.program, "hostname");
    assert!(command.args.is_empty());
    assert_eq!(get_hostname(Some(b"box\n")), "box");
    assert_eq!(get_hostname(Some(b"")), "");
    assert_eq!(get_hostname(None), "unknown");
    assert_eq!(hostname_in(Some(" box ")), "box");
}

#[test]
fn invalid_output_is_read_with_replacements() {
    assert_eq!(get_hostname(Some(b"b\xffx\n")), "b\u{fffd}x");
    assert_eq!(get_hostname(Some("bö€x".as_bytes())), "bö€x");
}

#[test]
fn username_comes_from_the_environment() {
    assert_eq!(get_username(Some("ann"), Some("bob")), "ann");
    assert_eq!(get_username(None, Some("bob")), "bob");
    assert_eq!(get_username(None, None), "user");
}

#[test]
fn agent_is_named_after_machine_and_user() {
    assert_eq!(agent_id("box", "ann"), "agent-box-ann");
}

#[test]
fn idle_time_on_linux_is_in_milliseconds() {
    assert_eq!(idle_command(Platform::Linux).unwrap().program, "xprintidle");
    assert_eq!(get_idle_secs(Platform::Linux, Some(b"61999\n")), 61);
    assert_eq!(get_idle_secs(Platform::Linux, Some(b"999")), 0);
    assert_eq!(get_idle_secs(Platform::Linux, Some(b"none")), 0);
    assert_eq!(get_idle_secs(Platform::Linux, None), 0);
}

#[test]
fn idle_time_on_macos_stands_in_a_listing() {
    let command = idle_command(Platform::MacOs).unwrap();
    assert_eq!(command.program, "ioreg");
    assert_eq!(args(&command), vec!["-c", "IOHIDSystem"]);
    let listing = "+-o Root\n  | \"HIDPointer\" = 3\n  | \"HIDIdleTime\" = 125000000000\r\n  | \"HIDIdleTime\" = 7\n";
    assert_eq!(get_idle_secs(Platform::MacOs, Some(listing.as_bytes())), 125);
    assert_eq!(idle_secs_in(Platform::MacOs, Some("HIDIdleTime = x\nHIDIdleTime = 5000000000")), 0);
    assert_eq!(idle_secs_in(Platform::MacOs, Some("a=b=HIDIdleTime=5000000000")), 5);
    assert_eq!(idle_secs_in(Platform::MacOs, Some("nothing here")), 0);
    assert_eq!(idle_secs_in(Platform::MacOs, None), 0);
}

#[test]
fn idle_time_is_zero_elsewhere() {
    assert!(idle_command(Platform::Windows).is_none());
    assert!(idle_command(Platform::Other).is_none());
    assert_eq!(get_idle_secs(Platform::Windows, Some(b"5000")), 0);
    assert_eq!(get_idle_secs(Platform::Other, Some(b"5000")), 0);
}

#[test]
fn active_window_on_linux_is_cut() {
    let command = active_app_command(Platform::Linux).unwrap();
    assert_eq!(command.program, "xdotool");
    assert_eq!(args(&command), vec!["getactivewindow", "getwindowname"]);
    assert_eq!(get_active_app(Platform::Linux, Some(b" Editor \n")), "Editor");
    assert_eq!(get_active_app(Platform::Linux, Some(b" \n")), "Desktop");
    assert_eq!(get_active_app(Platform::Linux, None), "Linux");
    let long = "é".repeat(50);
    assert_eq!(active_app_in(Platform::Linux, Some(&long)), "é".repeat(40));
}

#[test]
fn active_application_on_macos_is_whole() {
    let command = active_app_command(Platform::MacOs).unwrap();
    assert_eq!(command.program, "sh");
    assert_eq!(
        args(&command),
        vec!["-c", r#"lsappinfo front | grep -o 'name="[^"]*"' | head -1 | cut -d'"' -f2"#]
    );
    let long = "x".repeat(50);
    assert_eq!(active_app_in(Platform::MacOs, Some(&long)), long);
    assert_eq!(get_active_app(Platform::MacOs, Some(b"\n")), "Finder");
    assert_eq!(get_active_app(Platform::MacOs, None), "macOS");
}

#[test]
fn active_application_elsewhere_is_the_system() {
    assert!(active_app_command(Platform::Windows).is_none());
    assert_eq!(get_active_app(Platform::Windows, None), "Windows");
    assert_eq!(get_active_app(Platform::Other, Some(b"x")), "Unknown");
}

#[test]
fn process_in_front_is_known_on_macos_alone() {
    let command = foreground_app_command(Platform::MacOs).unwrap();
    assert_eq!(command.program, "osascript");
    assert_eq!(
        args(&command),
        vec![
            "-e",
            "tell application \"System Events\" to get name of first application process whose frontmost is true"
        ]
    );
    assert!(foreground_app_command(Platform::Linux).is_none());
    assert_eq!(get_foreground_app_name(Platform::MacOs, Some(b"Safari\n")), "Safari");
    assert_eq!(get_foreground_app_name(Platform::MacOs, Some(b"")), "Unknown");
    assert_eq!(get_foreground_app_name(Platform::MacOs, None), "Unknown");
    assert_eq!(foreground_app_in(Platform::Linux, Some("Safari")), "Unknown");
    assert!(page_command(&foreground_app_in(Platform::Linux, Some("Safari"))).is_none());
}

#[test]
fn browsers_are_reported_by_their_page() {
    assert_eq!(browser_of("Google Chrome"), Some(Browser::Chrome));
    assert_eq!(browser_of("Chrome"), None);
    for (app, script, label) in [
        (
            "Google Chrome",
            "tell application \"Google Chrome\" to get URL of active tab of front window",
            "Chrome: https://a.b",
        ),
        ("Safari", "tell application \"Safari\" to get URL of front document", "Safari: https://a.b"),
        (
            "Brave Browser",
            "tell application \"Brave Browser\" to get URL of active tab of front window",
            "Brave: https://a.b",
        ),
    ] {
        let command = page_command(app).unwrap();
        assert_eq!(command.program, "osascript");
        assert_eq!(args(&command), vec!["-e", script]);
        assert_eq!(label_app(app, Some(b"https://a.b\n")), label);
        assert_eq!(label_app(app, Some(b" \n")), app);
        assert_eq!(label_app(app, None), app);
    }
    assert!(page_command("Mail").is_none());
    assert_eq!(label_app_in("Mail", Some("https://a.b")), "Mail");
}

#[test]
fn what_is_reported_is_never_empty() {
    for platform in [Platform::Linux, Platform::MacOs, Platform::Windows, Platform::Other] {
        for printed in [None, Some(""), Some("  \n"), Some("Safari\n"), Some("Mail\n")] {
            for page in [None, Some(""), Some(" \n"), Some("https://example.org\n")] {
                let app = foreground_app_in(platform, printed);
                assert!(!label_app_in(&app, page).is_empty());
            }
        }
    }
}
