//! The menu and the tooltip of the tray icon, and what choosing an entry does.
use vstd::prelude::*;

use crate::number;
use crate::text;
use crate::tracking::{ControlAction, TrackingMode, TrackingState};

verus! {

/// An entry of the menu.
#[derive(Debug, PartialEq, Eq)]
pub enum MenuEntry {
    Item { id: String, text: String, enabled: bool },
    Separator,
}

/// What a [`MenuEntry`] says.
#[verifier::ext_equal]
pub enum MenuEntryView {
    Item { id: Seq<char>, text: Seq<char>, enabled: bool },
    Separator,
}

impl View for MenuEntry {
    type V = MenuEntryView;

    open spec fn view(&self) -> MenuEntryView {
        match self {
            MenuEntry::Item { id, text, enabled } => MenuEntryView::Item {
                id: id@,
                text: text@,
                enabled: *enabled,
            },
            MenuEntry::Separator => MenuEntryView::Separator,
        }
    }
}

/// What the entries of a menu say.
pub open spec fn entries(menu: Seq<MenuEntry>) -> Seq<MenuEntryView> {
    Seq::new(menu.len(), |i: int| menu[i]@)
}

/// An entry that can be chosen.
pub open spec fn choice(id: Seq<char>, text: Seq<char>) -> MenuEntryView {
    MenuEntryView::Item { id, text, enabled: true }
}

/// An entry that only tells something.
pub open spec fn notice(id: Seq<char>, text: Seq<char>) -> MenuEntryView {
    MenuEntryView::Item { id, text, enabled: false }
}

/// The line that tells whether the agent tracks.
pub open spec fn status_line(state: TrackingState, productivity: u32) -> Seq<char> {
    match state {
        TrackingState::Active => "🟢 Tracking Active — "@ + number::decimal(productivity as nat)
            + "%"@,
        TrackingState::Paused => "🟡 Tracking Paused"@,
        TrackingState::Stopped => "🔴 Tracking Stopped"@,
    }
}

/// The entries by which the user decides whether the agent tracks, or the one
/// that says that it is not for the user to decide.
pub open spec fn control_entries(state: TrackingState, mode: TrackingMode) -> Seq<MenuEntryView> {
    match mode {
        TrackingMode::AlwaysOn => seq![notice("managed"@, "🔒 Managed by Admin"@)],
        TrackingMode::AlwaysOff => seq![notice("off"@, "⛔ Tracking Disabled by Admin"@)],
        TrackingMode::UserControlled => match state {
            TrackingState::Active => seq![
                choice("pause"@, "⏸  Pause Tracking"@),
                choice("stop"@, "⏹  Stop Tracking"@),
            ],
            TrackingState::Paused => seq![
                choice("resume"@, "▶️  Resume Tracking"@),
                choice("stop"@, "⏹  Stop Tracking"@),
            ],
            TrackingState::Stopped => seq![choice("start"@, "▶️  Start Tracking"@)],
        },
    }
}

/// The menu: what the agent does, who decides it, and the way to the dashboard
/// and out. An application's name is cut to 35 characters.
pub open spec fn menu_entries(
    state: TrackingState,
    mode: TrackingMode,
    app_name: Seq<char>,
    productivity: u32,
    interval: u64,
) -> Seq<MenuEntryView> {
    seq![
        notice("status"@, status_line(state, productivity)),
        notice("app"@, "   "@ + text::first_chars(app_name, 35)),
        notice("interval"@, "   📸 Screenshots every "@ + number::decimal(interval as nat) + "s"@),
        MenuEntryView::Separator,
    ] + control_entries(state, mode) + seq![
        MenuEntryView::Separator,
        choice("dashboard"@, "📊 Open Dashboard"@),
        choice("quit"@, "Quit TeamLens Agent"@),
    ]
}

/// Appends an entry.
fn push_item(menu: &mut Vec<MenuEntry>, id: &str, text: &str, enabled: bool)
    ensures
        entries(final(menu)@) == entries(old(menu)@).push(
            MenuEntryView::Item { id: id@, text: text@, enabled },
        ),
{
    menu.push(MenuEntry::Item { id: id.to_string(), text: text.to_string(), enabled });
}

/// Appends a separator.
fn push_separator(menu: &mut Vec<MenuEntry>)
    ensures
        entries(final(menu)@) == entries(old(menu)@).push(MenuEntryView::Separator),
{
    menu.push(MenuEntry::Separator);
}

/// Builds the menu.
pub fn rebuild_menu(
    state: TrackingState,
    mode: TrackingMode,
    app_name: &str,
    productivity: u32,
    interval: u64,
) -> (menu: Vec<MenuEntry>)
    ensures
        entries(menu@) == menu_entries(state, mode, app_name@, productivity, interval),
{
    let mut menu: Vec<MenuEntry> = Vec::new();
    let status = match state {
        TrackingState::Active => {
            let mut status = "🟢 Tracking Active — ".to_string();
            number::push_decimal(&mut status, productivity as u64);
            status.append("%");
            status
        },
        TrackingState::Paused => "🟡 Tracking Paused".to_string(),
        TrackingState::Stopped => "🔴 Tracking Stopped".to_string(),
    };
    let mut app = "   ".to_string();
    app.append(text::take_chars(app_name, 35).as_str());
    let mut screenshots = "   📸 Screenshots every ".to_string();
    number::push_decimal(&mut screenshots, interval);
    screenshots.append("s");
    push_item(&mut menu, "status", status.as_str(), false);
    push_item(&mut menu, "app", app.as_str(), false);
    push_item(&mut menu, "interval", screenshots.as_str(), false);
    push_separator(&mut menu);
    let ghost head = entries(menu@);
    match mode {
        TrackingMode::AlwaysOn => {
            push_item(&mut menu, "managed", "🔒 Managed by Admin", false);
        },
        TrackingMode::AlwaysOff => {
            push_item(&mut menu, "off", "⛔ Tracking Disabled by Admin", false);
        },
        TrackingMode::UserControlled => match state {
            TrackingState::Active => {
                push_item(&mut menu, "pause", "⏸  Pause Tracking", true);
                push_item(&mut menu, "stop", "⏹  Stop Tracking", true);
            },
            TrackingState::Paused => {
                push_item(&mut menu, "resume", "▶️  Resume Tracking", true);
                push_item(&mut menu, "stop", "⏹  Stop Tracking", true);
            },
            TrackingState::Stopped => {
                push_item(&mut menu, "start", "▶️  Start Tracking", true);
            },
        },
    }
    assert(entries(menu@) == head + control_entries(state, mode));
    push_separator(&mut menu);
    push_item(&mut menu, "dashboard", "📊 Open Dashboard", true);
    push_item(&mut menu, "quit", "Quit TeamLens Agent", true);
    menu
}

/// What stands in for the application in front before the first tick.
pub const STARTING_APP: &'static str = "Starting…";

/// The tooltip before the first tick.
pub const STARTING_TOOLTIP: &'static str = "TeamLens Agent — Starting…";

/// Builds the menu that is shown before the first tick.
pub fn starting_menu() -> (menu: Vec<MenuEntry>)
    ensures
        entries(menu@) == menu_entries(
            TrackingState::Active,
            TrackingMode::AlwaysOn,
            STARTING_APP@,
            0,
            60,
        ),
{
    rebuild_menu(TrackingState::Active, TrackingMode::AlwaysOn, STARTING_APP, 0, 60)
}

/// The tooltip of the tray icon.
pub open spec fn tooltip_text(state: TrackingState, productivity: u32) -> Seq<char> {
    match state {
        TrackingState::Active => "TeamLens — Active "@ + number::decimal(productivity as nat)
            + "%"@,
        TrackingState::Paused => "TeamLens — Paused"@,
        TrackingState::Stopped => "TeamLens — Stopped"@,
    }
}

/// Builds the tooltip.
pub fn tooltip(state: TrackingState, productivity: u32) -> (tooltip: String)
    ensures
        tooltip@ == tooltip_text(state, productivity),
{
    match state {
        TrackingState::Active => {
            let mut tooltip = "TeamLens — Active ".to_string();
            number::push_decimal(&mut tooltip, productivity as u64);
            tooltip.append("%");
            tooltip
        },
        TrackingState::Paused => "TeamLens — Paused".to_string(),
        TrackingState::Stopped => "TeamLens — Stopped".to_string(),
    }
}

/// What choosing an entry asks for.
#[derive(Clone, Copy, Debug, PartialEq, Eq, Structural)]
pub enum MenuChoice {
    Control(ControlAction),
    OpenDashboard,
    Quit,
    Nothing,
}

/// What choosing the entry `id` asks for.
pub open spec fn choice_of(id: Seq<char>) -> MenuChoice {
    if id == "pause"@ {
        MenuChoice::Control(ControlAction::Pause)
    } else if id == "resume"@ || id == "start"@ {
        MenuChoice::Control(ControlAction::Resume)
    } else if id == "stop"@ {
        MenuChoice::Control(ControlAction::Stop)
    } else if id == "dashboard"@ {
        MenuChoice::OpenDashboard
    } else if id == "quit"@ {
        MenuChoice::Quit
    } else {
        MenuChoice::Nothing
    }
}

/// Tells what choosing the entry `id` asks for.
pub fn menu_choice(id: &str) -> (choice: MenuChoice)
    ensures
        choice == choice_of(id@),
{
    if text::same_text(id, "pause") {
        MenuChoice::Control(ControlAction::Pause)
    } else if text::same_text(id, "resume") || text::same_text(id, "start") {
        MenuChoice::Control(ControlAction::Resume)
    } else if text::same_text(id, "stop") {
        MenuChoice::Control(ControlAction::Stop)
    } else if text::same_text(id, "dashboard") {
        MenuChoice::OpenDashboard
    } else if text::same_text(id, "quit") {
        MenuChoice::Quit
    } else {
        MenuChoice::Nothing
    }
}

/// The identifiers of entries differ, where they have to.
proof fn lemma_ids()
    ensures
        choice_of("pause"@) == MenuChoice::Control(ControlAction::Pause),
        choice_of("resume"@) == MenuChoice::Control(ControlAction::Resume),
        choice_of("start"@) == MenuChoice::Control(ControlAction::Resume),
        choice_of("stop"@) == MenuChoice::Control(ControlAction::Stop),
        choice_of("dashboard"@) == MenuChoice::OpenDashboard,
        choice_of("quit"@) == MenuChoice::Quit,
{
    reveal_strlit("pause");
    reveal_strlit("resume");
    reveal_strlit("start");
    reveal_strlit("stop");
    reveal_strlit("dashboard");
    reveal_strlit("quit");
    assert("pause"@.len() == 5 && "resume"@.len() == 6 && "start"@.len() == 5 && "stop"@.len() == 4
        && "dashboard"@.len() == 9 && "quit"@.len() == 4);
    assert("pause"@[0] == 'p' && "start"@[0] == 's' && "stop"@[0] == 's' && "quit"@[0] == 'q');
}

/// Every entry that can be chosen does something.
pub proof fn law_every_choice_does_something(
    state: TrackingState,
    mode: TrackingMode,
    app_name: Seq<char>,
    productivity: u32,
    interval: u64,
    i: int,
)
    requires
        0 <= i < menu_entries(state, mode, app_name, productivity, interval).len(),
    ensures
        menu_entries(state, mode, app_name, productivity, interval)[i] matches MenuEntryView::Item {
            id,
            enabled,
            ..
        } ==> enabled ==> choice_of(id) != MenuChoice::Nothing,
{
    lemma_ids();
    let controls = control_entries(state, mode);
    let menu = menu_entries(state, mode, app_name, productivity, interval);
    if 4 <= i < 4 + controls.len() {
        assert(menu[i] == controls[i - 4]);
    }
}

/// Where the service decides, the menu offers the user no say in it.
pub proof fn law_managed_menu_offers_no_control(
    state: TrackingState,
    mode: TrackingMode,
    app_name: Seq<char>,
    productivity: u32,
    interval: u64,
    i: int,
)
    requires
        mode != TrackingMode::UserControlled,
        0 <= i < menu_entries(state, mode, app_name, productivity, interval).len(),
    ensures
        menu_entries(state, mode, app_name, productivity, interval)[i] matches MenuEntryView::Item {
            id,
            enabled,
            ..
        } ==> enabled ==> !(choice_of(id) is Control),
{
    lemma_ids();
    let controls = control_entries(state, mode);
    let menu = menu_entries(state, mode, app_name, productivity, interval);
    if 4 <= i < 4 + controls.len() {
        assert(menu[i] == controls[i - 4]);
    }
}

/// Where the user decides, each entry offered leads to another state, and every
/// other state but that of a pause in a stopped agent is offered.
pub proof fn law_user_menu_offers_the_other_states(state: TrackingState, target: TrackingState)
    ensures
        (exists|i: int|
            0 <= i < control_entries(state, TrackingMode::UserControlled).len()
                && #[trigger] offers(control_entries(state, TrackingMode::UserControlled)[i], target))
            <==> target != state && !(state == TrackingState::Stopped && target
            == TrackingState::Paused),
{
    lemma_ids();
    let controls = control_entries(state, TrackingMode::UserControlled);
    match state {
        TrackingState::Active => {
            assert(offers(controls[0], target) == (target == TrackingState::Paused));
            assert(offers(controls[1], target) == (target == TrackingState::Stopped));
        },
        TrackingState::Paused => {
            assert(offers(controls[0], target) == (target == TrackingState::Active));
            assert(offers(controls[1], target) == (target == TrackingState::Stopped));
        },
        TrackingState::Stopped => {
            assert(offers(controls[0], target) == (target == TrackingState::Active));
        },
    }
    if exists|i: int| 0 <= i < controls.len() && #[trigger] offers(controls[i], target) {
        let i = choose|i: int| 0 <= i < controls.len() && #[trigger] offers(controls[i], target);
        assert(i == 0 || i == 1);
    }
}

/// Whether choosing the entry asks for `target`.
pub open spec fn offers(entry: MenuEntryView, target: TrackingState) -> bool {
    match entry {
        MenuEntryView::Item { id, enabled, .. } => enabled && (choice_of(id) matches MenuChoice::Control(
            action,
        ) && action.leads_to() == target),
        MenuEntryView::Separator => false,
    }
}

/// What the entries say is theirs, one for one.
pub proof fn law_entries_say_what_they_hold(
    menu: Seq<MenuEntry>,
    id: String,
    text: String,
    enabled: bool,
)
    ensures
        entries(menu).len() == menu.len(),
        forall|i: int| 0 <= i < menu.len() ==> #[trigger] entries(menu)[i] == menu[i]@,
        (MenuEntry::Item { id, text, enabled })@ == (MenuEntryView::Item {
            id: id@,
            text: text@,
            enabled,
        }),
        MenuEntry::Separator@ == MenuEntryView::Separator,
{
}

/// The status line of an agent that tracks tells the productivity and nothing
/// else; the others tell nothing but the state.
pub proof fn law_status_tells_the_productivity(productivity: u32)
    ensures
        ({
            let line = status_line(TrackingState::Active, productivity);
            let start = "🟢 Tracking Active — "@;
            &&& start.is_prefix_of(line)
            &&& line.last() == '%'
            &&& line.skip(start.len() as int).drop_last() == number::decimal(productivity as nat)
        }),
        status_line(TrackingState::Paused, productivity) == "🟡 Tracking Paused"@,
        status_line(TrackingState::Stopped, productivity) == "🔴 Tracking Stopped"@,
{
    reveal_strlit("%");
    let start = "🟢 Tracking Active — "@;
    let digits = number::decimal(productivity as nat);
    let line = status_line(TrackingState::Active, productivity);
    assert(line.subrange(0, start.len() as int) =~= start);
    assert(line.skip(start.len() as int).drop_last() =~= digits);
}

/// The tooltip of an agent that tracks tells the productivity and nothing else;
/// the others tell nothing but the state.
pub proof fn law_tooltip_tells_the_productivity(productivity: u32)
    ensures
        ({
            let line = tooltip_text(TrackingState::Active, productivity);
            let start = "TeamLens — Active "@;
            &&& start.is_prefix_of(line)
            &&& line.last() == '%'
            &&& line.skip(start.len() as int).drop_last() == number::decimal(productivity as nat)
        }),
        tooltip_text(TrackingState::Paused, productivity) == "TeamLens — Paused"@,
        tooltip_text(TrackingState::Stopped, productivity) == "TeamLens — Stopped"@,
{
    reveal_strlit("%");
    let start = "TeamLens — Active "@;
    let digits = number::decimal(productivity as nat);
    let line = tooltip_text(TrackingState::Active, productivity);
    assert(line.subrange(0, start.len() as int) =~= start);
    assert(line.skip(start.len() as int).drop_last() =~= digits);
}

/// Whether the entry only tells `text`, under the identifier `id`.
pub open spec fn tells(entry: MenuEntryView, id: Seq<char>, text: Seq<char>) -> bool {
    entry matches MenuEntryView::Item { id: found, text: told, enabled } && found == id && told
        == text && !enabled
}

/// Whether the entry can be chosen, under the identifier `id` and as `text`.
pub open spec fn can_choose(entry: MenuEntryView, id: Seq<char>, text: Seq<char>) -> bool {
    entry matches MenuEntryView::Item { id: found, text: told, enabled } && found == id && told
        == text && enabled
}

/// Every menu tells the state, the application in front and the interval, and
/// ends with the ways to the dashboard and out; between two separators stands
/// who decides.
pub proof fn law_menu_tells_what_goes_on(
    state: TrackingState,
    mode: TrackingMode,
    app_name: Seq<char>,
    productivity: u32,
    interval: u64,
)
    ensures
        ({
            let menu = menu_entries(state, mode, app_name, productivity, interval);
            let n = menu.len() as int;
            let shown = if app_name.len() > 35 {
                app_name.take(35)
            } else {
                app_name
            };
            &&& n == 8 || n == 9
            &&& n == 9 <==> mode == TrackingMode::UserControlled && state != TrackingState::Stopped
            &&& tells(menu[0], "status"@, status_line(state, productivity))
            &&& tells(menu[1], "app"@, "   "@ + shown)
            &&& tells(
                menu[2],
                "interval"@,
                "   📸 Screenshots every "@ + number::decimal(interval as nat) + "s"@,
            )
            &&& menu[3] is Separator
            &&& mode == TrackingMode::AlwaysOn ==> tells(
                menu[4],
                "managed"@,
                "🔒 Managed by Admin"@,
            )
            &&& mode == TrackingMode::AlwaysOff ==> tells(
                menu[4],
                "off"@,
                "⛔ Tracking Disabled by Admin"@,
            )
            &&& mode == TrackingMode::UserControlled && state == TrackingState::Active ==> can_choose(
                menu[4],
                "pause"@,
                "⏸  Pause Tracking"@,
            )
            &&& mode == TrackingMode::UserControlled && state == TrackingState::Paused ==> can_choose(
                menu[4],
                "resume"@,
                "▶️  Resume Tracking"@,
            )
            &&& mode == TrackingMode::UserControlled && state == TrackingState::Stopped
                ==> can_choose(menu[4], "start"@, "▶️  Start Tracking"@)
            &&& n == 9 ==> can_choose(menu[5], "stop"@, "⏹  Stop Tracking"@)
            &&& menu[n - 3] is Separator
            &&& can_choose(menu[n - 2], "dashboard"@, "📊 Open Dashboard"@)
            &&& can_choose(menu[n - 1], "quit"@, "Quit TeamLens Agent"@)
        }),
{
    let controls = control_entries(state, mode);
    let menu = menu_entries(state, mode, app_name, productivity, interval);
    assert(menu.len() == 7 + controls.len());
    assert(menu[4] == controls[0]);
    if controls.len() == 2 {
        assert(menu[5] == controls[1]);
    }
}

/// Each identifier asks for one thing, and every other one for nothing.
pub proof fn law_identifiers_mean_one_thing(id: Seq<char>)
    ensures
        choice_of(id) == MenuChoice::Control(ControlAction::Pause) <==> id == "pause"@,
        choice_of(id) == MenuChoice::Control(ControlAction::Resume) <==> id == "resume"@ || id
            == "start"@,
        choice_of(id) == MenuChoice::Control(ControlAction::Stop) <==> id == "stop"@,
        choice_of(id) == MenuChoice::OpenDashboard <==> id == "dashboard"@,
        choice_of(id) == MenuChoice::Quit <==> id == "quit"@,
{
    lemma_ids();
}

} // verus!
