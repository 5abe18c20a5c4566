use teamlens_agent::menu::{
    menu_choice, rebuild_menu, starting_menu, tooltip, MenuChoice, MenuEntry, STARTING_TOOLTIP,
};
use teamlens_agent::tracking::{ControlAction, TrackingMode, TrackingState};

const STATES: [TrackingState; 3] =
    [TrackingState::Active, TrackingState::Paused, TrackingState::Stopped];
const MODES: [TrackingMode; 3] =
    [TrackingMode::AlwaysOn, TrackingMode::UserControlled, TrackingMode::AlwaysOff];

fn item(id: &str, text: &str, enabled: bool) -> MenuEntry {
    MenuEntry::Item { id: id.to_string(), text: text.to_string(), enabled }
}

#[test]
fn menu_before_the_first_tick() {
    assert_eq!(
        starting_menu(),
        vec![
            item("status", "🟢 Tracking Active — 0%", false),
            item("app", "   Starting…", false),
            item("interval", "   📸 Screenshots every 60s", false),
            MenuEntry::Separator,
            item("managed", "🔒 Managed by Admin", false),
            MenuEntry::Separator,
            item("dashboard", "📊 Open Dashboard", true),
            item("quit", "Quit TeamLens Agent", true),
        ]
    );
    assert_eq!(STARTING_TOOLTIP, "TeamLens Agent — Starting…");
}

#[test]
fn menu_in_each_state_that_the_user_controls() {
    let controls = |state| {
        let menu = rebuild_menu(state, TrackingMode::UserControlled, "Editor", 95, 300);
        let end = menu.len() - 3;
        menu.into_iter().take(end).skip(4).collect::<Vec<MenuEntry>>()
    };
    assert_eq!(
        controls(TrackingState::Active),
        vec![item("pause", "⏸  Pause Tracking", true), item("stop", "⏹  Stop Tracking", true)]
    );
    assert_eq!(
        controls(TrackingState::Paused),
        vec![item("resume", "▶️  Resume Tracking", true), item("stop", "⏹  Stop Tracking", true)]
    );
    assert_eq!(controls(TrackingState::Stopped), vec![item("start", "▶️  Start Tracking", true)]);
}

#[test]
fn menu_where_tracking_is_off() {
    let menu = rebuild_menu(
        TrackingState::Stopped,
        TrackingMode::AlwaysOff,
        &"é".repeat(50),
        0,
        18446744073709551615,
    );
    assert_eq!(menu[0], item("status", "🔴 Tracking Stopped", false));
    assert_eq!(menu[1], item("app", &format!("   {}", "é".repeat(35)), false));
    assert_eq!(menu[2], item("interval", "   📸 Screenshots every 18446744073709551615s", false));
    assert_eq!(menu[4], item("off", "⛔ Tracking Disabled by Admin", false));
    assert_eq!(
        rebuild_menu(TrackingState::Paused, TrackingMode::AlwaysOn, "", 0, 1)[0],
        item("status", "🟡 Tracking Paused", false)
    );
}

#[test]
fn every_entry_that_can_be_chosen_does_something() {
    for state in STATES {
        for mode in MODES {
            for entry in rebuild_menu(state, mode, "app", 40, 60) {
                if let MenuEntry::Item { id, enabled: true, .. } = entry {
                    let choice = menu_choice(&id);
                    assert_ne!(choice, MenuChoice::Nothing);
                    if let MenuChoice::Control(action) = choice {
                        assert_eq!(mode, TrackingMode::UserControlled);
                        assert_ne!(action.outcome(), state);
                    }
                }
            }
        }
    }
}

#[test]
fn choices_by_identifier() {
    assert_eq!(menu_choice("pause"), MenuChoice::Control(ControlAction::Pause));
    assert_eq!(menu_choice("resume"), MenuChoice::Control(ControlAction::Resume));
    assert_eq!(menu_choice("start"), MenuChoice::Control(ControlAction::Resume));
    assert_eq!(menu_choice("stop"), MenuChoice::Control(ControlAction::Stop));
    assert_eq!(menu_choice("dashboard"), MenuChoice::OpenDashboard);
    assert_eq!(menu_choice("quit"), MenuChoice::Quit);
    assert_eq!(menu_choice("status"), MenuChoice::Nothing);
    assert_eq!(menu_choice(""), MenuChoice::Nothing);
}

#[test]
fn tooltips() {
    assert_eq!(tooltip(TrackingState::Active, 75), "TeamLens — Active 75%");
    assert_eq!(tooltip(TrackingState::Paused, 75), "TeamLens — Paused");
    assert_eq!(tooltip(TrackingState::Stopped, 0), "TeamLens — Stopped");
}

#[test]
fn modes_and_actions_have_names() {
    for mode in MODES {
        assert_eq!(TrackingMode::from_name(&mode.name()), mode);
    }
    assert_eq!(TrackingMode::UserControlled.name(), "user_controlled");
    assert_eq!(TrackingMode::from_name("whatever"), TrackingMode::AlwaysOn);
    assert_eq!(ControlAction::Pause.name(), "pause");
    assert_eq!(ControlAction::Resume.name(), "resume");
    assert_eq!(ControlAction::Stop.name(), "stop");
    assert_eq!(ControlAction::Stop.outcome(), TrackingState::Stopped);
}
