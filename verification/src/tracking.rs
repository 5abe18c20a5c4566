//! Whether the agent tracks, and who decides it.
use vstd::prelude::*;

use crate::text;

verus! {

/// Whether the agent tracks.
#[derive(Clone, Copy, Debug, PartialEq, Eq, Structural)]
pub enum TrackingState {
    Active,
    Paused,
    Stopped,
}

/// Who decides whether the agent tracks.
#[derive(Clone, Copy, Debug, PartialEq, Eq, Structural)]
pub enum TrackingMode {
    AlwaysOn,
    UserControlled,
    AlwaysOff,
}

/// The name of a mode in the service's orders.
pub open spec fn mode_name(mode: TrackingMode) -> Seq<char> {
    match mode {
        TrackingMode::AlwaysOn => "always_on"@,
        TrackingMode::UserControlled => "user_controlled"@,
        TrackingMode::AlwaysOff => "always_off"@,
    }
}

/// The mode that a name stands for; a name that is not known stands for the
/// mode that the agent starts in.
pub open spec fn mode_named(name: Seq<char>) -> TrackingMode {
    if name == "user_controlled"@ {
        TrackingMode::UserControlled
    } else if name == "always_off"@ {
        TrackingMode::AlwaysOff
    } else {
        TrackingMode::AlwaysOn
    }
}

impl TrackingMode {
    /// The mode's name.
    pub fn name(self) -> (name: String)
        ensures
            name@ == mode_name(self),
    {
        match self {
            TrackingMode::AlwaysOn => "always_on".to_string(),
            TrackingMode::UserControlled => "user_controlled".to_string(),
            TrackingMode::AlwaysOff => "always_off".to_string(),
        }
    }

    /// The mode that `name` stands for.
    pub fn from_name(name: &str) -> (mode: TrackingMode)
        ensures
            mode == mode_named(name@),
    {
        if text::same_text(name, "user_controlled") {
            TrackingMode::UserControlled
        } else if text::same_text(name, "always_off") {
            TrackingMode::AlwaysOff
        } else {
            TrackingMode::AlwaysOn
        }
    }
}

/// A mode is found again from its name.
pub proof fn law_mode_is_read_back(mode: TrackingMode)
    ensures
        mode_named(mode_name(mode)) == mode,
{
    reveal_strlit("always_on");
    reveal_strlit("user_controlled");
    reveal_strlit("always_off");
    assert("always_on"@.len() == 9 && "user_controlled"@.len() == 15 && "always_off"@.len() == 10);
}

/// What the user asks the service for.
#[derive(Clone, Copy, Debug, PartialEq, Eq, Structural)]
pub enum ControlAction {
    Pause,
    Resume,
    Stop,
}

impl ControlAction {
    /// The action's name in a request.
    pub open spec fn text(self) -> Seq<char> {
        match self {
            ControlAction::Pause => "pause"@,
            ControlAction::Resume => "resume"@,
            ControlAction::Stop => "stop"@,
        }
    }

    /// Whether the agent tracks once the service has agreed.
    pub open spec fn leads_to(self) -> TrackingState {
        match self {
            ControlAction::Pause => TrackingState::Paused,
            ControlAction::Resume => TrackingState::Active,
            ControlAction::Stop => TrackingState::Stopped,
        }
    }

    /// The action's name in a request.
    pub fn name(self) -> (name: String)
        ensures
            name@ == self.text(),
    {
        match self {
            ControlAction::Pause => "pause".to_string(),
            ControlAction::Resume => "resume".to_string(),
            ControlAction::Stop => "stop".to_string(),
        }
    }

    /// Whether the agent tracks once the service has agreed.
    pub fn outcome(self) -> (state: TrackingState)
        ensures
            state == self.leads_to(),
    {
        match self {
            ControlAction::Pause => TrackingState::Paused,
            ControlAction::Resume => TrackingState::Active,
            ControlAction::Stop => TrackingState::Stopped,
        }
    }
}

/// Only its own name stands for a mode other than the one that the agent starts
/// in; every other name stands for that.
pub proof fn law_modes_have_one_name(name: Seq<char>)
    ensures
        mode_named(name) == TrackingMode::UserControlled <==> name == "user_controlled"@,
        mode_named(name) == TrackingMode::AlwaysOff <==> name == "always_off"@,
        mode_name(TrackingMode::AlwaysOn) == "always_on"@,
{
    reveal_strlit("user_controlled");
    reveal_strlit("always_off");
    assert("user_controlled"@.len() != "always_off"@.len());
}

/// Each action is named for what it does, and leads there: no two lead to one
/// state, and none is named like another.
pub proof fn law_actions_lead_where_they_say(action: ControlAction)
    ensures
        action.leads_to() == TrackingState::Paused <==> action.text() == "pause"@,
        action.leads_to() == TrackingState::Active <==> action.text() == "resume"@,
        action.leads_to() == TrackingState::Stopped <==> action.text() == "stop"@,
{
    reveal_strlit("pause");
    reveal_strlit("resume");
    reveal_strlit("stop");
    assert("pause"@.len() == 5 && "resume"@.len() == 6 && "stop"@.len() == 4);
}

} // verus!
