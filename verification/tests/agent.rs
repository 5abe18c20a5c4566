use teamlens_agent::activity::measure;
use teamlens_agent::agent::{AgentState, Observation, TickStep, NANOS_PER_SEC, TICK_SECS};
use teamlens_agent::config::{AdminCommand, AgentConfig};
use teamlens_agent::menu::MenuEntry;
use teamlens_agent::tracking::{ControlAction, TrackingMode, TrackingState};

const START: u128 = 10_000 * NANOS_PER_SEC;

fn config(interval: u64, quality: &str, enabled: bool) -> AgentConfig {
    AgentConfig {
        screenshot_interval_secs: interval,
        screenshot_quality: quality.to_string(),
        screenshots_enabled: enabled,
    }
}

fn agent() -> AgentState {
    AgentState::new("agent-box-ann", config(60, "medium", true), START)
}

/// An agent whose configuration is fresh.
fn settled() -> AgentState {
    let mut agent = agent();
    agent.last_config_fetch = START;
    agent
}

fn seen(now: u128, idle_secs: u64) -> Observation {
    Observation { now, idle_secs, active_app: "Editor".to_string(), app_name: "Unknown".to_string() }
}

fn order(command: &str, mode: &str, paused: bool) -> AdminCommand {
    AdminCommand { command: command.to_string(), mode: mode.to_string(), paused }
}

#[test]
fn activity_by_idle_time() {
    let measured = |idle| {
        let activity = measure(idle);
        (activity.is_idle, activity.level, activity.productivity)
    };
    assert_eq!(measured(0), (false, 95, 95));
    assert_eq!(measured(5), (false, 95, 95));
    assert_eq!(measured(6), (false, 75, 75));
    assert_eq!(measured(15), (false, 75, 75));
    assert_eq!(measured(16), (false, 40, 40));
    assert_eq!(measured(60), (false, 40, 40));
    assert_eq!(measured(61), (true, 15, 0));
    assert_eq!(measured(120), (true, 15, 0));
    assert_eq!(measured(121), (true, 0, 0));
    assert_eq!(measured(u64::MAX), (true, 0, 0));
}

#[test]
fn the_agent_starts_active() {
    let agent = agent();
    assert_eq!(agent.state, TrackingState::Active);
    assert_eq!(agent.mode, TrackingMode::AlwaysOn);
    assert_eq!(agent.active_app, "Starting…");
    assert_eq!(agent.productivity, 0);
    assert_eq!(agent.last_screenshot, NANOS_PER_SEC);
    assert_eq!(agent.last_config_fetch, NANOS_PER_SEC);
}

#[test]
fn the_first_tick_asks_for_everything() {
    let mut agent = agent();
    let seen = match agent.observe(0, seen(START, 3)) {
        TickStep::PollCommand { seen } => seen,
        other => panic!("{:?}", other),
    };
    let (seen, command) = match agent.on_command(seen, order("none", "always_on", false)) {
        TickStep::FetchConfig { seen, command } => (seen, command),
        other => panic!("{:?}", other),
    };
    assert_eq!(agent.last_config_fetch, START);
    let (seen, state, mode) = match agent.on_config(seen, command, config(30, "low", true)) {
        TickStep::TakeScreenshot { seen, state, mode, quality } => {
            assert_eq!(quality, "low");
            (seen, state, mode)
        }
        other => panic!("{:?}", other),
    };
    assert_eq!(agent.productivity, 95);
    assert_eq!(agent.active_app, "Editor");
    let (seen, state, mode) = match agent.on_screenshot(seen, state, mode, Some("Zg==".to_string())) {
        TickStep::Post { seen, state, mode, body } => {
            assert_eq!(
                body,
                r#"{"agent_id":"agent-box-ann","active_app":"Editor","app_name":"Unknown","window_title":"Editor","keyboard_activity":95,"mouse_activity":95,"is_idle":false,"productivity":95,"screenshot_b64":"Zg=="}"#
            );
            (seen, state, mode)
        }
        other => panic!("{:?}", other),
    };
    assert_eq!(agent.last_screenshot, START);
    match agent.on_posted(seen, state, mode) {
        TickStep::Show { tooltip, menu } => {
            assert_eq!(tooltip, "TeamLens — Active 95%");
            assert_eq!(
                menu[2],
                MenuEntry::Item {
                    id: "interval".to_string(),
                    text: "   📸 Screenshots every 30s".to_string(),
                    enabled: false
                }
            );
        }
        other => panic!("{:?}", other),
    }
}

#[test]
fn every_third_tick_asks_the_service() {
    for tick in 0..9u32 {
        let polled = matches!(settled().observe(tick, seen(START, 0)), TickStep::PollCommand { .. });
        assert_eq!(polled, tick % 3 == 0);
    }
}

#[test]
fn a_tick_that_does_not_ask_changes_no_state() {
    for state in [TrackingState::Active, TrackingState::Paused, TrackingState::Stopped] {
        for mode in [TrackingMode::AlwaysOn, TrackingMode::UserControlled, TrackingMode::AlwaysOff] {
            let mut agent = settled();
            agent.state = state;
            agent.mode = mode;
            let step = agent.observe(1, seen(START, 100));
            assert_eq!(agent.state, state);
            assert_eq!(agent.mode, mode);
            assert_eq!(matches!(step, TickStep::Show { .. }), state != TrackingState::Active);
        }
    }
}

#[test]
fn orders_are_followed() {
    let after = |state, order| {
        let mut agent = settled();
        agent.state = state;
        agent.on_command(seen(START, 0), order);
        (agent.state, agent.mode)
    };
    let active = TrackingState::Active;
    let paused = TrackingState::Paused;
    let stopped = TrackingState::Stopped;
    assert_eq!(after(active, order("stop", "always_on", false)), (stopped, TrackingMode::AlwaysOn));
    assert_eq!(after(stopped, order("resume", "always_off", true)), (active, TrackingMode::AlwaysOff));
    assert_eq!(
        after(active, order("stop", "user_controlled", true)),
        (paused, TrackingMode::UserControlled)
    );
    assert_eq!(
        after(active, order("resume", "user_controlled", true)),
        (paused, TrackingMode::UserControlled)
    );
    assert_eq!(after(active, order("none", "other", true)), (active, TrackingMode::AlwaysOn));
    assert_eq!(after(paused, order("pause", "always_on", false)), (paused, TrackingMode::AlwaysOn));
}

#[test]
fn no_screenshot_of_an_absent_user() {
    let shoots = |idle| {
        matches!(settled().observe(1, seen(START, idle)), TickStep::TakeScreenshot { .. })
    };
    assert!(shoots(60));
    assert!(!shoots(61));
    match settled().observe(1, seen(START, 61)) {
        TickStep::Post { body, .. } => {
            assert!(body.contains("\"is_idle\":true,\"productivity\":0}"));
        }
        other => panic!("{:?}", other),
    }
}

#[test]
fn no_screenshot_where_none_is_wanted() {
    let mut agent = settled();
    agent.config.screenshots_enabled = false;
    assert!(matches!(agent.observe(1, seen(START, 0)), TickStep::Post { .. }));
    let mut agent = settled();
    agent.state = TrackingState::Paused;
    assert!(matches!(agent.observe(1, seen(START, 0)), TickStep::Show { .. }));
}

#[test]
fn screenshots_keep_their_interval() {
    let mut agent = settled();
    match agent.observe(1, seen(START, 0)) {
        TickStep::TakeScreenshot { seen, state, mode, .. } => {
            agent.on_screenshot(seen, state, mode, Some(String::new()));
        }
        other => panic!("{:?}", other),
    }
    let almost = START + 60 * NANOS_PER_SEC - 1;
    assert!(matches!(agent.observe(2, seen(almost, 0)), TickStep::Post { .. }));
    assert!(matches!(agent.observe(4, seen(almost + 1, 0)), TickStep::TakeScreenshot { .. }));
    agent.config.screenshot_interval_secs = u64::MAX;
    assert!(matches!(agent.observe(4, seen(almost + 1, 0)), TickStep::Post { .. }));
}

#[test]
fn a_failed_screenshot_is_tried_again() {
    let mut agent = settled();
    match agent.observe(1, seen(START, 0)) {
        TickStep::TakeScreenshot { seen, state, mode, .. } => {
            match agent.on_screenshot(seen, state, mode, None) {
                TickStep::Post { body, .. } => assert!(!body.contains("screenshot_b64")),
                other => panic!("{:?}", other),
            }
        }
        other => panic!("{:?}", other),
    }
    assert_eq!(agent.last_screenshot, NANOS_PER_SEC);
    assert!(matches!(agent.observe(2, seen(START + 1, 0)), TickStep::TakeScreenshot { .. }));
}

#[test]
fn the_config_is_fetched_every_five_minutes() {
    let mut agent = settled();
    let later = START + 300 * NANOS_PER_SEC;
    assert!(!matches!(agent.observe(1, seen(later, 0)), TickStep::FetchConfig { .. }));
    match agent.observe(2, seen(later + 1, 0)) {
        TickStep::FetchConfig { command, .. } => assert_eq!(command, order("none", "always_on", false)),
        other => panic!("{:?}", other),
    }
    assert_eq!(agent.last_config_fetch, later + 1);
    assert!(!matches!(agent.observe(4, seen(later + 2, 0)), TickStep::FetchConfig { .. }));
    assert!(!matches!(agent.observe(5, seen(0, 0)), TickStep::FetchConfig { .. }));
}

#[test]
fn the_user_is_heeded_where_the_service_agrees() {
    let mut agent = settled();
    agent.on_control(ControlAction::Pause, false);
    assert_eq!(agent.state, TrackingState::Active);
    agent.on_control(ControlAction::Pause, true);
    assert_eq!(agent.state, TrackingState::Paused);
    agent.on_control(ControlAction::Stop, true);
    assert_eq!(agent.state, TrackingState::Stopped);
    agent.on_control(ControlAction::Resume, true);
    assert_eq!(agent.state, TrackingState::Active);
    assert_eq!(agent.mode, TrackingMode::AlwaysOn);
}

#[test]
fn the_service_is_asked_every_thirty_seconds() {
    let asked: Vec<u64> = (0..10u32)
        .filter(|&tick| {
            matches!(settled().observe(tick, seen(START, 0)), TickStep::PollCommand { .. })
        })
        .map(|tick| tick as u64 * TICK_SECS)
        .collect();
    assert_eq!(asked, [0, 30, 60, 90]);
}
