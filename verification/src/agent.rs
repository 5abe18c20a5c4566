//! The agent's state, and what it does at each tick.
//!
//! A tick is a row of steps. Each step says what is to be done outside - ask
//! the service, take a screenshot, deliver a report - and is answered by the
//! method of [`AgentState`] that takes what came of it and gives the next step.
//! The last step of a tick shows the menu.
use vstd::prelude::*;

use crate::activity;
use crate::config::{AdminCommand, AdminCommandView, AgentConfig, AgentConfigView};
use crate::flat_json;
use crate::menu;
use crate::menu::{MenuEntry, MenuEntryView};
use crate::number;
use crate::program;
use crate::request;
use crate::text;
use crate::tracking;
use crate::tracking::{ControlAction, TrackingMode, TrackingState};

verus! {

/// Nanoseconds in a second.
pub const NANOS_PER_SEC: u128 = 1_000_000_000;

/// The seconds from one tick to the next.
pub const TICK_SECS: u64 = 10;

/// What the agent knows. Moments are nanoseconds on a clock that never goes
/// back.
#[derive(Debug)]
pub struct AgentState {
    pub state: TrackingState,
    pub mode: TrackingMode,
    pub agent_id: String,
    pub active_app: String,
    pub productivity: u32,
    pub config: AgentConfig,
    pub last_screenshot: u128,
    pub last_config_fetch: u128,
}

/// What an [`AgentState`] says.
#[verifier::ext_equal]
pub struct AgentView {
    pub state: TrackingState,
    pub mode: TrackingMode,
    pub agent_id: Seq<char>,
    pub active_app: Seq<char>,
    pub productivity: u32,
    pub config: AgentConfigView,
    pub last_screenshot: u128,
    pub last_config_fetch: u128,
}

impl View for AgentState {
    type V = AgentView;

    open spec fn view(&self) -> AgentView {
        AgentView {
            state: self.state,
            mode: self.mode,
            agent_id: self.agent_id@,
            active_app: self.active_app@,
            productivity: self.productivity,
            config: self.config@,
            last_screenshot: self.last_screenshot,
            last_config_fetch: self.last_config_fetch,
        }
    }
}

/// What was seen of the machine at the start of a tick.
#[derive(Debug)]
pub struct Observation {
    pub now: u128,
    pub idle_secs: u64,
    pub active_app: String,
    pub app_name: String,
}

/// What an [`Observation`] says.
#[verifier::ext_equal]
pub struct ObservationView {
    pub now: u128,
    pub idle_secs: u64,
    pub active_app: Seq<char>,
    pub app_name: Seq<char>,
}

impl View for Observation {
    type V = ObservationView;

    open spec fn view(&self) -> ObservationView {
        ObservationView {
            now: self.now,
            idle_secs: self.idle_secs,
            active_app: self.active_app@,
            app_name: self.app_name@,
        }
    }
}

/// What a tick does next.
#[derive(Debug)]
pub enum TickStep {
    /// Ask the service for its order; [`AgentState::on_command`] takes it.
    PollCommand { seen: Observation },
    /// Ask the service for the configuration; [`AgentState::on_config`] takes
    /// it.
    FetchConfig { seen: Observation, command: AdminCommand },
    /// Take a screenshot of this quality; [`AgentState::on_screenshot`] takes
    /// it.
    TakeScreenshot {
        seen: Observation,
        state: TrackingState,
        mode: TrackingMode,
        quality: String,
    },
    /// Deliver this report; [`AgentState::on_posted`] goes on.
    Post { seen: Observation, state: TrackingState, mode: TrackingMode, body: String },
    /// Show this tooltip and menu; the tick is over.
    Show { tooltip: String, menu: Vec<MenuEntry> },
}

/// What a [`TickStep`] says.
#[verifier::ext_equal]
pub enum TickStepView {
    PollCommand { seen: ObservationView },
    FetchConfig { seen: ObservationView, command: AdminCommandView },
    TakeScreenshot {
        seen: ObservationView,
        state: TrackingState,
        mode: TrackingMode,
        quality: Seq<char>,
    },
    Post { seen: ObservationView, state: TrackingState, mode: TrackingMode, body: Seq<char> },
    Show { tooltip: Seq<char>, menu: Seq<MenuEntryView> },
}

impl View for TickStep {
    type V = TickStepView;

    open spec fn view(&self) -> TickStepView {
        match self {
            TickStep::PollCommand { seen } => TickStepView::PollCommand { seen: seen@ },
            TickStep::FetchConfig { seen, command } => TickStepView::FetchConfig {
                seen: seen@,
                command: command@,
            },
            TickStep::TakeScreenshot { seen, state, mode, quality } => TickStepView::TakeScreenshot {
                seen: seen@,
                state: *state,
                mode: *mode,
                quality: quality@,
            },
            TickStep::Post { seen, state, mode, body } => TickStepView::Post {
                seen: seen@,
                state: *state,
                mode: *mode,
                body: body@,
            },
            TickStep::Show { tooltip, menu } => TickStepView::Show {
                tooltip: tooltip@,
                menu: menu::entries(menu@),
            },
        }
    }
}

// ---- what each step means ----

/// The time from `then` to `now`; none where `then` is later.
pub open spec fn since(now: u128, then: u128) -> int {
    if now >= then {
        now - then
    } else {
        0
    }
}

/// The agent as it starts. Nothing was fetched or captured for so long that
/// both are due.
pub open spec fn starting_agent(
    agent_id: Seq<char>,
    config: AgentConfigView,
    now: u128,
) -> AgentView {
    AgentView {
        state: TrackingState::Active,
        mode: TrackingMode::AlwaysOn,
        agent_id,
        active_app: menu::STARTING_APP@,
        productivity: 0,
        config,
        last_screenshot: (now - 9999 * NANOS_PER_SEC) as u128,
        last_config_fetch: (now - 9999 * NANOS_PER_SEC) as u128,
    }
}

/// Whether the tick with that number asks the service for its order.
pub open spec fn polls(tick: u32) -> bool {
    tick % 3 == 0
}

/// The order that stands in where the service is not asked: to go on as before.
pub open spec fn standing_command(agent: AgentView) -> AdminCommandView {
    AdminCommandView {
        command: "none"@,
        mode: tracking::mode_name(agent.mode),
        paused: agent.state == TrackingState::Paused,
    }
}

/// Whether the configuration is to be fetched: it is more than five minutes old.
pub open spec fn config_due(agent: AgentView, now: u128) -> bool {
    since(now, agent.last_config_fetch) > 300 * NANOS_PER_SEC
}

/// Whether the agent tracks once it has got an order. A pause counts only where
/// the user decides, and then before all else.
pub open spec fn state_under(state: TrackingState, command: AdminCommandView) -> TrackingState {
    if command.paused && tracking::mode_named(command.mode) == TrackingMode::UserControlled {
        TrackingState::Paused
    } else if command.command == "stop"@ {
        TrackingState::Stopped
    } else if command.command == "resume"@ {
        TrackingState::Active
    } else {
        state
    }
}

/// The agent once it has got an order, and noted what was seen.
pub open spec fn obeying(
    agent: AgentView,
    seen: ObservationView,
    command: AdminCommandView,
) -> AgentView {
    AgentView {
        state: state_under(agent.state, command),
        mode: tracking::mode_named(command.mode),
        active_app: seen.active_app,
        productivity: activity::productivity_level(seen.idle_secs),
        ..agent
    }
}

/// Whether a screenshot is to be taken: the agent tracks, screenshots are
/// wanted, the user is not away, and the last one is long enough ago.
pub open spec fn screenshot_due(agent: AgentView, seen: ObservationView) -> bool {
    &&& agent.state == TrackingState::Active
    &&& agent.config.screenshots_enabled
    &&& !activity::is_away(seen.idle_secs)
    &&& since(seen.now, agent.last_screenshot) >= agent.config.screenshot_interval_secs
        * NANOS_PER_SEC
}

/// The report on what was seen.
pub open spec fn report(
    agent: AgentView,
    seen: ObservationView,
    screenshot: Option<Seq<char>>,
) -> Seq<char> {
    request::report_text(
        agent.agent_id,
        seen.active_app,
        seen.app_name,
        activity::is_away(seen.idle_secs),
        activity::productivity_level(seen.idle_secs),
        activity::activity_level(seen.idle_secs),
        screenshot,
    )
}

/// What is shown at the end of a tick that tracked, or did not, as `state` says.
pub open spec fn shown(
    agent: AgentView,
    seen: ObservationView,
    state: TrackingState,
    mode: TrackingMode,
) -> TickStepView {
    let productivity = activity::productivity_level(seen.idle_secs);
    TickStepView::Show {
        tooltip: menu::tooltip_text(state, productivity),
        menu: menu::menu_entries(
            state,
            mode,
            seen.active_app,
            productivity,
            agent.config.screenshot_interval_secs,
        ),
    }
}

/// The step that follows once the agent has got an order: an agent that tracks
/// reports, with a screenshot where one is due.
pub open spec fn step_of(agent: AgentView, seen: ObservationView) -> TickStepView {
    if screenshot_due(agent, seen) {
        TickStepView::TakeScreenshot {
            seen,
            state: agent.state,
            mode: agent.mode,
            quality: agent.config.screenshot_quality,
        }
    } else if agent.state == TrackingState::Active {
        TickStepView::Post {
            seen,
            state: agent.state,
            mode: agent.mode,
            body: report(agent, seen, None),
        }
    } else {
        shown(agent, seen, agent.state, agent.mode)
    }
}

/// The agent and its next step once it has got the service's order.
pub open spec fn after_command(
    agent: AgentView,
    seen: ObservationView,
    command: AdminCommandView,
) -> (AgentView, TickStepView) {
    if config_due(agent, seen.now) {
        (
            AgentView { last_config_fetch: seen.now, ..agent },
            TickStepView::FetchConfig { seen, command },
        )
    } else {
        let next = obeying(agent, seen, command);
        (next, step_of(next, seen))
    }
}

/// The agent and its next step once it has got the configuration.
pub open spec fn after_config(
    agent: AgentView,
    seen: ObservationView,
    command: AdminCommandView,
    config: AgentConfigView,
) -> (AgentView, TickStepView) {
    let next = obeying(AgentView { config, ..agent }, seen, command);
    (next, step_of(next, seen))
}

/// The agent and its next step once a tick has begun.
pub open spec fn after_observation(
    agent: AgentView,
    tick: u32,
    seen: ObservationView,
) -> (AgentView, TickStepView) {
    if polls(tick) {
        (agent, TickStepView::PollCommand { seen })
    } else {
        after_command(agent, seen, standing_command(agent))
    }
}

/// The agent once a screenshot was tried: one that was taken counts from the
/// start of the tick.
pub open spec fn after_screenshot(
    agent: AgentView,
    seen: ObservationView,
    screenshot: Option<Seq<char>>,
) -> AgentView {
    if screenshot is Some {
        AgentView { last_screenshot: seen.now, ..agent }
    } else {
        agent
    }
}

/// The step once a screenshot was tried: the report, with the screenshot that was
/// taken.
pub open spec fn step_after_screenshot(
    agent: AgentView,
    seen: ObservationView,
    state: TrackingState,
    mode: TrackingMode,
    screenshot: Option<Seq<char>>,
) -> TickStepView {
    TickStepView::Post { seen, state, mode, body: report(agent, seen, screenshot) }
}

/// The agent once the service has answered what the user chose.
pub open spec fn after_control(
    agent: AgentView,
    action: ControlAction,
    accepted: bool,
) -> AgentView {
    AgentView {
        state: if accepted {
            action.leads_to()
        } else {
            agent.state
        },
        ..agent
    }
}

// ---- the agent ----

/// Whether `secs` seconds or more have passed from `then` to `now`, and whether
/// it is more than that.
fn passed(now: u128, then: u128, secs: u64) -> (passed: (bool, bool))
    ensures
        passed.0 == (since(now, then) >= secs * NANOS_PER_SEC),
        passed.1 == (since(now, then) > secs * NANOS_PER_SEC),
{
    assert(0 <= secs * NANOS_PER_SEC <= u64::MAX * NANOS_PER_SEC) by (nonlinear_arith)
        requires
            0 <= secs <= u64::MAX,
            NANOS_PER_SEC == 1_000_000_000,
    ;
    let elapsed: u128 = if now >= then { now - then } else { 0 };
    let span: u128 = secs as u128 * NANOS_PER_SEC;
    (elapsed >= span, elapsed > span)
}

impl AgentState {
    /// The agent as it starts, at a moment for which the clock can go back far
    /// enough.
    pub fn new(agent_id: &str, config: AgentConfig, now: u128) -> (agent: AgentState)
        requires
            now >= 9999 * NANOS_PER_SEC,
        ensures
            agent@ == starting_agent(agent_id@, config@, now),
    {
        let long_ago: u128 = now - 9999 * NANOS_PER_SEC;
        AgentState {
            state: TrackingState::Active,
            mode: TrackingMode::AlwaysOn,
            agent_id: agent_id.to_string(),
            active_app: menu::STARTING_APP.to_string(),
            productivity: 0,
            config,
            last_screenshot: long_ago,
            last_config_fetch: long_ago,
        }
    }

    /// Begins the tick with that number.
    pub fn observe(&mut self, tick: u32, seen: Observation) -> (step: TickStep)
        ensures
            (final(self)@, step@) == after_observation(old(self)@, tick, seen@),
    {
        if tick % 3 == 0 {
            TickStep::PollCommand { seen }
        } else {
            let command = AdminCommand {
                command: "none".to_string(),
                mode: self.mode.name(),
                paused: self.state == TrackingState::Paused,
            };
            self.on_command(seen, command)
        }
    }

    /// Goes on with the service's order.
    pub fn on_command(&mut self, seen: Observation, command: AdminCommand) -> (step: TickStep)
        ensures
            (final(self)@, step@) == after_command(old(self)@, seen@, command@),
    {
        if passed(seen.now, self.last_config_fetch, 300).1 {
            self.last_config_fetch = seen.now;
            TickStep::FetchConfig { seen, command }
        } else {
            self.obey(seen, command)
        }
    }

    /// Goes on with the configuration.
    pub fn on_config(
        &mut self,
        seen: Observation,
        command: AdminCommand,
        config: AgentConfig,
    ) -> (step: TickStep)
        ensures
            (final(self)@, step@) == after_config(old(self)@, seen@, command@, config@),
    {
        self.config = config;
        self.obey(seen, command)
    }

    /// Follows an order and decides what to report.
    fn obey(&mut self, seen: Observation, command: AdminCommand) -> (step: TickStep)
        ensures
            final(self)@ == obeying(old(self)@, seen@, command@),
            step@ == step_of(final(self)@, seen@),
    {
        let mode = TrackingMode::from_name(command.mode.as_str());
        self.mode = mode;
        if text::same_text(command.command.as_str(), "resume") {
            self.state = TrackingState::Active;
        }
        if text::same_text(command.command.as_str(), "stop") {
            self.state = TrackingState::Stopped;
        }
        if command.paused && mode == TrackingMode::UserControlled {
            self.state = TrackingState::Paused;
        }
        self.active_app = seen.active_app.clone();
        self.productivity = activity::measure(seen.idle_secs).productivity;
        proof {
            lemma_orders_differ();
        }
        let state = self.state;
        if state == TrackingState::Active {
            let due = self.config.screenshots_enabled && seen.idle_secs <= 60 && passed(
                seen.now,
                self.last_screenshot,
                self.config.screenshot_interval_secs,
            ).0;
            if due {
                let quality = self.config.screenshot_quality.clone();
                TickStep::TakeScreenshot { seen, state, mode, quality }
            } else {
                let body = self.report(&seen, None);
                TickStep::Post { seen, state, mode, body }
            }
        } else {
            self.show(&seen, state, mode)
        }
    }

    /// Goes on once a screenshot was tried.
    pub fn on_screenshot(
        &mut self,
        seen: Observation,
        state: TrackingState,
        mode: TrackingMode,
        screenshot: Option<String>,
    ) -> (step: TickStep)
        ensures
            final(self)@ == after_screenshot(old(self)@, seen@, program::owned_text(screenshot)),
            step@ == step_after_screenshot(
                old(self)@,
                seen@,
                state,
                mode,
                program::owned_text(screenshot),
            ),
    {
        if screenshot.is_some() {
            self.last_screenshot = seen.now;
        }
        let body = self.report(&seen, program::borrow_text(&screenshot));
        TickStep::Post { seen, state, mode, body }
    }

    /// Ends the tick once its report was delivered or saved.
    pub fn on_posted(
        &self,
        seen: Observation,
        state: TrackingState,
        mode: TrackingMode,
    ) -> (step: TickStep)
        ensures
            step@ == shown(self@, seen@, state, mode),
    {
        self.show(&seen, state, mode)
    }

    fn report(&self, seen: &Observation, screenshot: Option<&str>) -> (body: String)
        ensures
            body@ == report(self@, seen@, program::text_behind(screenshot)),
    {
        let activity = activity::measure(seen.idle_secs);
        request::ingest_body(
            self.agent_id.as_str(),
            seen.active_app.as_str(),
            seen.app_name.as_str(),
            activity.is_idle,
            activity.productivity,
            activity.level,
            screenshot,
        )
    }

    fn show(&self, seen: &Observation, state: TrackingState, mode: TrackingMode) -> (step: TickStep)
        ensures
            step@ == shown(self@, seen@, state, mode),
    {
        let productivity: u32 = activity::measure(seen.idle_secs).productivity;
        TickStep::Show {
            tooltip: menu::tooltip(state, productivity),
            menu: menu::rebuild_menu(
                state,
                mode,
                seen.active_app.as_str(),
                productivity,
                self.config.screenshot_interval_secs,
            ),
        }
    }

    /// Notes the service's answer to what the user chose.
    pub fn on_control(&mut self, action: ControlAction, accepted: bool)
        ensures
            final(self)@ == after_control(old(self)@, action, accepted),
    {
        if accepted {
            self.state = action.outcome();
        }
    }
}

proof fn lemma_orders_differ()
    ensures
        "stop"@ != "resume"@,
        "none"@ != "resume"@,
        "none"@ != "stop"@,
{
    reveal_strlit("stop");
    reveal_strlit("resume");
    reveal_strlit("none");
    assert("stop"@.len() == 4 && "resume"@.len() == 6 && "none"@.len() == 4);
    assert("stop"@[0] == 's' && "none"@[0] == 'n');
}

// ---- laws ----

/// Without the service's word the agent goes on as before: an order that stands
/// in for it changes neither whether the agent tracks nor who decides it, also
/// where the configuration arrives in between.
pub proof fn law_standing_command_changes_nothing(
    agent: AgentView,
    seen: ObservationView,
    config: AgentConfigView,
)
    ensures
        obeying(agent, seen, standing_command(agent)).state == agent.state,
        obeying(agent, seen, standing_command(agent)).mode == agent.mode,
        after_config(agent, seen, standing_command(agent), config).0.state == agent.state,
        after_config(agent, seen, standing_command(agent), config).0.mode == agent.mode,
{
    lemma_orders_differ();
    tracking::law_mode_is_read_back(agent.mode);
}

/// A tick that does not ask the service changes neither whether the agent tracks
/// nor who decides it.
pub proof fn law_unpolled_tick_keeps_state(agent: AgentView, tick: u32, seen: ObservationView)
    requires
        !polls(tick),
    ensures
        after_observation(agent, tick, seen).0.state == agent.state,
        after_observation(agent, tick, seen).0.mode == agent.mode,
{
    law_standing_command_changes_nothing(agent, seen, agent.config);
}

/// Of three ticks in a row, one asks the service.
pub proof fn law_polls_every_third_tick(tick: u32)
    requires
        tick + 2 <= u32::MAX,
    ensures
        polls(tick) || polls((tick + 1) as u32) || polls((tick + 2) as u32),
        polls(tick) ==> !polls((tick + 1) as u32) && !polls((tick + 2) as u32),
        polls(0),
{
}

/// The service is asked every thirty seconds: so far apart are a tick that asks
/// it and the next one that does.
pub proof fn law_polls_every_thirty_seconds(tick: u32, next: u32)
    requires
        tick < next,
        polls(tick),
        polls(next),
        forall|between: u32| tick < between < next ==> !#[trigger] polls(between),
    ensures
        next == tick + 3,
        (next - tick) * TICK_SECS == 30,
{
    if next > tick + 3 {
        assert(!polls((tick + 3) as u32));
    }
}

/// A screenshot is taken only while the agent tracks, screenshots are wanted and
/// the user had some input within the last minute.
pub proof fn law_no_screenshot_of_an_absent_user(agent: AgentView, seen: ObservationView)
    ensures
        step_of(agent, seen) is TakeScreenshot ==> agent.state == TrackingState::Active
            && agent.config.screenshots_enabled && seen.idle_secs <= 60,
{
}

/// Once a screenshot was taken, none is taken until the interval has passed,
/// whatever else becomes of the agent.
pub proof fn law_screenshots_keep_their_interval(
    agent: AgentView,
    seen: ObservationView,
    screenshot: Seq<char>,
    later: AgentView,
    seen_later: ObservationView,
)
    requires
        later.last_screenshot == after_screenshot(agent, seen, Some(screenshot)).last_screenshot,
        since(seen_later.now, seen.now) < later.config.screenshot_interval_secs * NANOS_PER_SEC,
    ensures
        !(step_of(later, seen_later) is TakeScreenshot),
{
}

/// A screenshot that could not be taken is tried again.
pub proof fn law_failed_screenshot_is_tried_again(
    agent: AgentView,
    seen: ObservationView,
    seen_later: ObservationView,
)
    requires
        step_of(agent, seen) is TakeScreenshot,
        seen_later.now >= seen.now,
        seen_later.idle_secs <= 60,
    ensures
        step_of(after_screenshot(agent, seen, None), seen_later) is TakeScreenshot,
{
}

/// The agent reports exactly while it tracks.
pub proof fn law_reports_while_active(agent: AgentView, seen: ObservationView)
    ensures
        step_of(agent, seen) is Show <==> agent.state != TrackingState::Active,
        step_of(agent, seen) is TakeScreenshot || step_of(agent, seen) is Post <==> agent.state
            == TrackingState::Active,
{
}

/// An agent that is told to stop does not report, and one that is told to go on
/// does, unless the user paused it where that is for the user to decide.
pub proof fn law_orders_are_followed(
    agent: AgentView,
    seen: ObservationView,
    command: AdminCommandView,
)
    ensures
        ({
            let next = obeying(agent, seen, command);
            let paused = command.paused && next.mode == TrackingMode::UserControlled;
            &&& paused ==> next.state == TrackingState::Paused
            &&& !paused && command.command == "stop"@ ==> next.state == TrackingState::Stopped
            &&& !paused && command.command == "resume"@ ==> next.state == TrackingState::Active
            &&& !paused && command.command != "stop"@ && command.command != "resume"@
                ==> next.state == agent.state
        }),
{
    lemma_orders_differ();
}

/// Once the configuration was asked for, it is not asked for again within five
/// minutes, whatever else becomes of the agent.
pub proof fn law_config_is_fetched_every_five_minutes(
    agent: AgentView,
    seen: ObservationView,
    command: AdminCommandView,
    later: AgentView,
    seen_later: ObservationView,
    next_command: AdminCommandView,
)
    requires
        after_command(agent, seen, command).1 is FetchConfig,
        later.last_config_fetch == after_command(agent, seen, command).0.last_config_fetch,
    ensures
        after_command(later, seen_later, next_command).1 is FetchConfig <==> since(
            seen_later.now,
            seen.now,
        ) > 300 * NANOS_PER_SEC,
{
}

/// The first tick asks for the order and for the configuration, and takes a
/// screenshot where the interval allows it.
pub proof fn law_first_tick(
    agent_id: Seq<char>,
    config: AgentConfigView,
    start: u128,
    seen: ObservationView,
    command: AdminCommandView,
    fetched: AgentConfigView,
)
    requires
        9999 * NANOS_PER_SEC <= start <= seen.now,
    ensures
        ({
            let agent = starting_agent(agent_id, config, start);
            let fetching = after_command(agent, seen, command);
            let (next, step) = after_config(fetching.0, seen, command, fetched);
            &&& after_observation(agent, 0, seen).1 is PollCommand
            &&& fetching.1 is FetchConfig
            &&& fetched.screenshot_interval_secs <= 9999 && fetched.screenshots_enabled
                && seen.idle_secs <= 60 && next.state == TrackingState::Active
                ==> step is TakeScreenshot
        }),
{
}

/// No step changes the name under which the agent reports.
pub proof fn law_agent_keeps_its_name(
    agent: AgentView,
    tick: u32,
    seen: ObservationView,
    command: AdminCommandView,
    config: AgentConfigView,
    screenshot: Option<Seq<char>>,
)
    ensures
        after_observation(agent, tick, seen).0.agent_id == agent.agent_id,
        after_command(agent, seen, command).0.agent_id == agent.agent_id,
        after_config(agent, seen, command, config).0.agent_id == agent.agent_id,
        after_screenshot(agent, seen, screenshot).agent_id == agent.agent_id,
{
}

/// The moments that the agent remembers never lie ahead, so that no clock that
/// goes on can keep it waiting.
pub proof fn law_memory_lies_behind(
    agent: AgentView,
    tick: u32,
    seen: ObservationView,
    command: AdminCommandView,
    config: AgentConfigView,
    screenshot: Option<Seq<char>>,
)
    requires
        remembers_past(agent, seen.now),
    ensures
        remembers_past(after_observation(agent, tick, seen).0, seen.now),
        remembers_past(after_command(agent, seen, command).0, seen.now),
        remembers_past(after_config(agent, seen, command, config).0, seen.now),
        remembers_past(after_screenshot(agent, seen, screenshot), seen.now),
{
}

/// Whether the moments that the agent remembers are past at `now`.
pub open spec fn remembers_past(agent: AgentView, now: u128) -> bool {
    agent.last_screenshot <= now && agent.last_config_fetch <= now
}

/// A screenshot is taken as soon as it is due, and not before: exactly where the
/// agent tracks, screenshots are wanted, there was input within the last minute,
/// and the interval that is configured has passed since the last one, to the
/// nanosecond. It is taken at the configured quality.
pub proof fn law_screenshot_is_taken_as_soon_as_due(agent: AgentView, seen: ObservationView)
    ensures
        step_of(agent, seen) is TakeScreenshot <==> {
            &&& agent.state == TrackingState::Active
            &&& agent.config.screenshots_enabled
            &&& seen.idle_secs <= 60
            &&& agent.config.screenshot_interval_secs == 0 || seen.now >= agent.last_screenshot
                + agent.config.screenshot_interval_secs * 1_000_000_000
        },
        step_of(agent, seen) matches TickStepView::TakeScreenshot {
            seen: carried,
            state,
            mode,
            quality,
        } ==> carried == seen && state == agent.state && mode == agent.mode && quality
            == agent.config.screenshot_quality,
{
    let secs = agent.config.screenshot_interval_secs;
    assert(secs > 0 ==> secs * 1_000_000_000 > 0) by (nonlinear_arith);
    assert(secs * NANOS_PER_SEC == secs * 1_000_000_000);
}

/// The next screenshot is due one interval after the last: not at a moment
/// before, and at every moment from then on.
pub proof fn law_next_screenshot_is_one_interval_later(
    agent: AgentView,
    seen: ObservationView,
    screenshot: Seq<char>,
    seen_later: ObservationView,
)
    requires
        step_of(agent, seen) is TakeScreenshot,
        seen_later.idle_secs <= 60,
        seen_later.now >= seen.now,
    ensures
        step_of(after_screenshot(agent, seen, Some(screenshot)), seen_later) is TakeScreenshot
            <==> seen_later.now - seen.now >= agent.config.screenshot_interval_secs * 1_000_000_000,
{
    law_screenshot_is_taken_as_soon_as_due(agent, seen);
    law_screenshot_is_taken_as_soon_as_due(
        after_screenshot(agent, seen, Some(screenshot)),
        seen_later,
    );
}

/// What the service reads from a report of the agent: its name, what was seen,
/// and how active the user is by then.
pub proof fn law_report_says_what_was_seen(
    agent: AgentView,
    seen: ObservationView,
    screenshot: Option<Seq<char>>,
    app: Seq<char>,
    app_name: Seq<char>,
)
    requires
        text::lacks(agent.agent_id, '"'),
        screenshot matches Some(screenshot) ==> text::lacks(screenshot, '"'),
        request::same_but_for_quotes(seen.active_app, app),
        request::same_but_for_quotes(seen.app_name, app_name),
    ensures
        flat_json::object(report(agent, seen, screenshot)) == Some(
            request::report_members(
                agent.agent_id,
                app,
                app_name,
                seen.idle_secs > 60,
                if seen.idle_secs > 60 {
                    0
                } else {
                    activity::activity_level(seen.idle_secs)
                },
                activity::activity_level(seen.idle_secs),
                screenshot,
            ),
        ),
{
    request::law_report_is_read_back(
        agent.agent_id,
        seen.active_app,
        seen.app_name,
        seen.idle_secs > 60,
        activity::productivity_level(seen.idle_secs),
        activity::activity_level(seen.idle_secs),
        screenshot,
        app,
        app_name,
    );
}

/// A report depends on the agent's name, on what was seen and on the screenshot,
/// and on nothing else; a screenshot and the name stand in it as they are.
pub proof fn law_report_depends_on_what_was_seen(
    agent: AgentView,
    other: AgentView,
    seen: ObservationView,
    seen_again: ObservationView,
    screenshot: Seq<char>,
)
    requires
        seen_again.idle_secs == seen.idle_secs,
        seen_again.active_app == seen.active_app,
        seen_again.app_name == seen.app_name,
    ensures
        other.agent_id == agent.agent_id ==> report(agent, seen, None) == report(
            other,
            seen_again,
            None,
        ),
        report(agent, seen, Some(screenshot)) == report(agent, seen, None).drop_last()
            + ",\"screenshot_b64\":\""@ + screenshot + "\"}"@,
        ({
            let start = "{\"agent_id\":\""@ + agent.agent_id;
            let other_start = "{\"agent_id\":\""@ + other.agent_id;
            &&& start.is_prefix_of(report(agent, seen, None))
            &&& report(agent, seen, None).skip(start.len() as int) == report(
                other,
                seen,
                None,
            ).skip(other_start.len() as int)
        }),
{
    let idle = activity::is_away(seen.idle_secs);
    let productivity = activity::productivity_level(seen.idle_secs);
    let level = activity::activity_level(seen.idle_secs);
    request::law_screenshot_is_attached(
        agent.agent_id,
        seen.active_app,
        seen.app_name,
        idle,
        productivity,
        level,
        screenshot,
    );
    request::law_report_carries_the_agent_id(
        agent.agent_id,
        other.agent_id,
        seen.active_app,
        seen.app_name,
        idle,
        productivity,
        level,
        None,
    );
}

/// An agent that tracks and takes no screenshot reports at once, without one; an
/// agent that does not track shows at once that it does not.
pub proof fn law_other_ticks_report_or_show(agent: AgentView, seen: ObservationView)
    ensures
        step_of(agent, seen) matches TickStepView::Post { seen: carried, state, mode, body }
            ==> carried == seen && state == TrackingState::Active && mode == agent.mode && body
            == report(agent, seen, None),
        agent.state != TrackingState::Active ==> step_of(agent, seen) == shown(
            agent,
            seen,
            agent.state,
            agent.mode,
        ),
{
}

/// What is shown at the end of a tick: the state and mode of that tick, the
/// application that was seen, the productivity by then, and the interval.
pub proof fn law_tick_shows_what_was_seen(
    agent: AgentView,
    seen: ObservationView,
    state: TrackingState,
    mode: TrackingMode,
)
    ensures
        ({
            let productivity = if seen.idle_secs > 60 {
                0
            } else {
                activity::activity_level(seen.idle_secs)
            };
            let app = if seen.active_app.len() > 35 {
                seen.active_app.take(35)
            } else {
                seen.active_app
            };
            shown(agent, seen, state, mode) matches TickStepView::Show { tooltip, menu } && {
                &&& tooltip == menu::tooltip_text(state, productivity)
                &&& menu.len() >= 8
                &&& menu::tells(menu[0], "status"@, menu::status_line(state, productivity))
                &&& menu::tells(menu[1], "app"@, "   "@ + app)
                &&& menu::tells(
                    menu[2],
                    "interval"@,
                    "   📸 Screenshots every "@ + number::decimal(
                        agent.config.screenshot_interval_secs as nat,
                    ) + "s"@,
                )
                &&& menu == menu::menu_entries(
                    state,
                    mode,
                    seen.active_app,
                    productivity,
                    agent.config.screenshot_interval_secs,
                )
            }
        }),
{
    menu::law_menu_tells_what_goes_on(
        state,
        mode,
        seen.active_app,
        activity::productivity_level(seen.idle_secs),
        agent.config.screenshot_interval_secs,
    );
}

/// An order changes the mode to the one that it names, and the agent notes what
/// was seen; its name, its configuration and what it remembers stay.
pub proof fn law_order_changes_state_and_mode_alone(
    agent: AgentView,
    seen: ObservationView,
    command: AdminCommandView,
)
    ensures
        ({
            let next = obeying(agent, seen, command);
            &&& next.mode == TrackingMode::UserControlled <==> command.mode == "user_controlled"@
            &&& next.mode == TrackingMode::AlwaysOff <==> command.mode == "always_off"@
            &&& next.active_app == seen.active_app
            &&& next.productivity == (if seen.idle_secs > 60 {
                0
            } else {
                activity::activity_level(seen.idle_secs)
            })
            &&& next.agent_id == agent.agent_id
            &&& next.config == agent.config
            &&& next.last_screenshot == agent.last_screenshot
            &&& next.last_config_fetch == agent.last_config_fetch
        }),
{
    tracking::law_modes_have_one_name(command.mode);
}

/// The configuration is asked for exactly where it is more than five minutes
/// old, to the nanosecond; the order waits meanwhile, and nothing else changes.
/// Else the order is followed at once.
pub proof fn law_config_is_fetched_when_old(
    agent: AgentView,
    seen: ObservationView,
    command: AdminCommandView,
)
    ensures
        ({
            let (next, step) = after_command(agent, seen, command);
            let old = seen.now > agent.last_config_fetch + 300_000_000_000;
            &&& step is FetchConfig <==> old
            &&& old ==> step == (TickStepView::FetchConfig { seen, command }) && next.last_config_fetch
                == seen.now && next.state == agent.state && next.mode == agent.mode
                && next.agent_id == agent.agent_id && next.active_app == agent.active_app
                && next.productivity == agent.productivity && next.config == agent.config
                && next.last_screenshot == agent.last_screenshot
            &&& !old ==> next == obeying(agent, seen, command) && step == step_of(next, seen)
        }),
{
    assert(300 * NANOS_PER_SEC == 300_000_000_000);
}

/// The configuration that was fetched is the agent's from then on, already for
/// what the order makes of this tick.
pub proof fn law_fetched_config_counts_at_once(
    agent: AgentView,
    seen: ObservationView,
    command: AdminCommandView,
    config: AgentConfigView,
)
    ensures
        ({
            let (next, step) = after_config(agent, seen, command, config);
            let obeyed = obeying(agent, seen, command);
            &&& next.config == config
            &&& next.state == obeyed.state
            &&& next.mode == obeyed.mode
            &&& next.active_app == obeyed.active_app
            &&& next.productivity == obeyed.productivity
            &&& next.agent_id == agent.agent_id
            &&& next.last_screenshot == agent.last_screenshot
            &&& next.last_config_fetch == agent.last_config_fetch
            &&& step == step_of(next, seen)
        }),
{
}

/// The service is asked at every third tick, from the first on, before anything
/// changes; at the others the agent goes on as if told to do nothing new.
pub proof fn law_tick_begins_with_the_order(agent: AgentView, tick: u32, seen: ObservationView)
    ensures
        ({
            let (next, step) = after_observation(agent, tick, seen);
            &&& step is PollCommand <==> tick as int % 3 == 0
            &&& step is PollCommand ==> next == agent && step == (TickStepView::PollCommand { seen })
            &&& !(step is PollCommand) ==> (next, step) == after_command(
                agent,
                seen,
                standing_command(agent),
            )
        }),
        standing_command(agent).command != "stop"@,
        standing_command(agent).command != "resume"@,
        standing_command(agent).command == "none"@,
        tracking::mode_named(standing_command(agent).mode) == agent.mode,
        standing_command(agent).paused <==> agent.state == TrackingState::Paused,
{
    lemma_orders_differ();
    tracking::law_mode_is_read_back(agent.mode);
}

/// A screenshot that was taken is remembered from the start of its tick; one
/// that was not leaves no trace; nothing else changes.
pub proof fn law_screenshot_is_remembered(
    agent: AgentView,
    seen: ObservationView,
    screenshot: Option<Seq<char>>,
)
    ensures
        ({
            let next = after_screenshot(agent, seen, screenshot);
            &&& screenshot is Some ==> next.last_screenshot == seen.now
            &&& screenshot is None ==> next.last_screenshot == agent.last_screenshot
            &&& next.state == agent.state
            &&& next.mode == agent.mode
            &&& next.agent_id == agent.agent_id
            &&& next.active_app == agent.active_app
            &&& next.productivity == agent.productivity
            &&& next.config == agent.config
            &&& next.last_config_fetch == agent.last_config_fetch
        }),
{
}

/// The agent starts out tracking, under its name and with its configuration, and
/// remembers nothing of the last 9999 seconds.
pub proof fn law_agent_starts_afresh(agent_id: Seq<char>, config: AgentConfigView, now: u128)
    requires
        now >= 9_999_000_000_000,
    ensures
        ({
            let agent = starting_agent(agent_id, config, now);
            &&& agent.state == TrackingState::Active
            &&& agent.mode == TrackingMode::AlwaysOn
            &&& agent.agent_id == agent_id
            &&& agent.active_app == "Starting…"@
            &&& agent.productivity == 0
            &&& agent.config == config
            &&& agent.last_screenshot + 9_999_000_000_000 == now
            &&& agent.last_config_fetch + 9_999_000_000_000 == now
        }),
{
    assert(9999 * NANOS_PER_SEC == 9_999_000_000_000);
}

/// The agent, what it sees and what it does next say what they hold.
pub proof fn law_agent_says_what_it_holds(
    agent: AgentState,
    seen: Observation,
    command: AdminCommand,
    state: TrackingState,
    mode: TrackingMode,
    text: String,
    menu: Vec<MenuEntry>,
)
    ensures
        agent@.state == agent.state,
        agent@.mode == agent.mode,
        agent@.agent_id == agent.agent_id@,
        agent@.active_app == agent.active_app@,
        agent@.productivity == agent.productivity,
        agent@.config == agent.config@,
        agent@.last_screenshot == agent.last_screenshot,
        agent@.last_config_fetch == agent.last_config_fetch,
        seen@.now == seen.now,
        seen@.idle_secs == seen.idle_secs,
        seen@.active_app == seen.active_app@,
        seen@.app_name == seen.app_name@,
        (TickStep::PollCommand { seen })@ == (TickStepView::PollCommand { seen: seen@ }),
        (TickStep::FetchConfig { seen, command })@ == (TickStepView::FetchConfig {
            seen: seen@,
            command: command@,
        }),
        (TickStep::TakeScreenshot { seen, state, mode, quality: text })@ == (
        TickStepView::TakeScreenshot { seen: seen@, state, mode, quality: text@ }),
        (TickStep::Post { seen, state, mode, body: text })@ == (TickStepView::Post {
            seen: seen@,
            state,
            mode,
            body: text@,
        }),
        (TickStep::Show { tooltip: text, menu })@ == (TickStepView::Show {
            tooltip: text@,
            menu: menu::entries(menu@),
        }),
{
}

/// A screenshot that was taken goes into the report of its tick, whole, and a
/// report is made also where none could be taken.
pub proof fn law_screenshot_goes_into_the_report(
    agent: AgentView,
    seen: ObservationView,
    state: TrackingState,
    mode: TrackingMode,
    screenshot: Seq<char>,
)
    ensures
        step_after_screenshot(agent, seen, state, mode, None) matches TickStepView::Post {
            seen: carried,
            state: kept_state,
            mode: kept_mode,
            body: without,
        } && carried == seen && kept_state == state && kept_mode == mode && without == report(
            agent,
            seen,
            None,
        ) && (step_after_screenshot(agent, seen, state, mode, Some(screenshot))
            matches TickStepView::Post {
            seen: carried,
            state: kept_state,
            mode: kept_mode,
            body: with,
        } && carried == seen && kept_state == state && kept_mode == mode && with
            == without.drop_last() + ",\"screenshot_b64\":\""@ + screenshot + "\"}"@),
{
    law_report_depends_on_what_was_seen(agent, agent, seen, seen, screenshot);
}

/// What the user chose counts exactly where the service agrees, and changes
/// nothing but whether the agent tracks.
pub proof fn law_choice_counts_once_agreed(agent: AgentView, accepted: bool)
    ensures
        after_control(agent, ControlAction::Pause, true).state == TrackingState::Paused,
        after_control(agent, ControlAction::Resume, true).state == TrackingState::Active,
        after_control(agent, ControlAction::Stop, true).state == TrackingState::Stopped,
        forall|action: ControlAction| #[trigger] after_control(agent, action, false) == agent,
        forall|action: ControlAction|
            {
                let next = #[trigger] after_control(agent, action, accepted);
                &&& next.mode == agent.mode
                &&& next.agent_id == agent.agent_id
                &&& next.active_app == agent.active_app
                &&& next.productivity == agent.productivity
                &&& next.config == agent.config
                &&& next.last_screenshot == agent.last_screenshot
                &&& next.last_config_fetch == agent.last_config_fetch
            },
{
}

} // verus!
