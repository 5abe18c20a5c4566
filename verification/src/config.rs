//! What the service tells the agent: its configuration and its orders.
use vstd::prelude::*;

use crate::json;
use crate::json::{JsonDocument, JsonDocumentView, JsonValueView};

verus! {

/// How screenshots are to be taken.
#[derive(Debug, PartialEq, Eq)]
pub struct AgentConfig {
    pub screenshot_interval_secs: u64,
    /// `low`, `medium` or `high`.
    pub screenshot_quality: String,
    pub screenshots_enabled: bool,
}

/// What an [`AgentConfig`] says.
#[verifier::ext_equal]
pub struct AgentConfigView {
    pub screenshot_interval_secs: u64,
    pub screenshot_quality: Seq<char>,
    pub screenshots_enabled: bool,
}

impl View for AgentConfig {
    type V = AgentConfigView;

    open spec fn view(&self) -> AgentConfigView {
        AgentConfigView {
            screenshot_interval_secs: self.screenshot_interval_secs,
            screenshot_quality: self.screenshot_quality@,
            screenshots_enabled: self.screenshots_enabled,
        }
    }
}

/// The configuration in an answer; what it leaves out, or gives in another
/// type, is a screenshot of medium quality each minute.
pub open spec fn config_of(document: JsonDocumentView) -> AgentConfigView {
    AgentConfigView {
        screenshot_interval_secs: match document.number("screenshot_interval_secs"@) {
            Some(secs) => secs,
            None => 60,
        },
        screenshot_quality: document.text_or("screenshot_quality"@, "medium"@),
        screenshots_enabled: document.flag_or("screenshots_enabled"@, true),
    }
}

/// Reads the configuration from the service's answer.
pub fn fetch_agent_config(body: Option<&[u8]>) -> (config: AgentConfig)
    ensures
        config@ == config_of(json::answer(body)),
{
    config_in(&json::read_answer(body))
}

/// Reads the configuration from a document.
pub fn config_in(document: &JsonDocument) -> (config: AgentConfig)
    ensures
        config@ == config_of(document@),
{
    AgentConfig {
        screenshot_interval_secs: document.number_or("screenshot_interval_secs", 60),
        screenshot_quality: document.text_or("screenshot_quality", "medium"),
        screenshots_enabled: document.flag_or("screenshots_enabled", true),
    }
}

/// Without a usable answer the agent takes a screenshot of medium quality each
/// minute.
pub proof fn law_default_config(document: JsonDocumentView)
    requires
        !(document is Object),
    ensures
        config_of(document) == (AgentConfigView {
            screenshot_interval_secs: 60,
            screenshot_quality: "medium"@,
            screenshots_enabled: true,
        }),
{
}

/// An order of the service.
#[derive(Debug, PartialEq, Eq)]
pub struct AdminCommand {
    /// `resume`, `stop` or anything else, which orders nothing.
    pub command: String,
    /// The mode's name.
    pub mode: String,
    pub paused: bool,
}

/// What an [`AdminCommand`] says.
#[verifier::ext_equal]
pub struct AdminCommandView {
    pub command: Seq<char>,
    pub mode: Seq<char>,
    pub paused: bool,
}

impl View for AdminCommand {
    type V = AdminCommandView;

    open spec fn view(&self) -> AdminCommandView {
        AdminCommandView { command: self.command@, mode: self.mode@, paused: self.paused }
    }
}

/// The order in an answer; what it leaves out orders nothing.
pub open spec fn command_of(document: JsonDocumentView) -> AdminCommandView {
    AdminCommandView {
        command: document.text_or("command"@, "none"@),
        mode: document.text_or("mode"@, "always_on"@),
        paused: document.flag_or("paused"@, false),
    }
}

/// Reads the order from the service's answer.
pub fn get_command(body: Option<&[u8]>) -> (command: AdminCommand)
    ensures
        command@ == command_of(json::answer(body)),
{
    command_in(&json::read_answer(body))
}

/// Reads the order from a document.
pub fn command_in(document: &JsonDocument) -> (command: AdminCommand)
    ensures
        command@ == command_of(document@),
{
    AdminCommand {
        command: document.text_or("command", "none"),
        mode: document.text_or("mode", "always_on"),
        paused: document.flag_or("paused", false),
    }
}

/// Without a usable answer the agent is told to do nothing, in the mode that it
/// starts in.
pub proof fn law_default_command(document: JsonDocumentView)
    requires
        !(document is Object),
    ensures
        command_of(document) == (AdminCommandView {
            command: "none"@,
            mode: "always_on"@,
            paused: false,
        }),
{
}

/// The configuration is the one in the answer, member by member: each member of
/// the right kind is taken as it is, and one that is missing or of another kind
/// leaves the default, whatever the others are.
pub proof fn law_config_is_as_answered(
    members: Map<Seq<char>, JsonValueView>,
    secs: u64,
    quality: Seq<char>,
    enabled: bool,
)
    ensures
        ({
            let config = config_of(JsonDocumentView::Object(members));
            let has_secs = members.contains_key("screenshot_interval_secs"@)
                && members["screenshot_interval_secs"@] == JsonValueView::Number(Some(secs));
            let some_secs = members.contains_key("screenshot_interval_secs"@) && (
            members["screenshot_interval_secs"@] matches JsonValueView::Number(Some(_)));
            let has_quality = members.contains_key("screenshot_quality"@)
                && members["screenshot_quality"@] == JsonValueView::Text(quality);
            let some_quality = members.contains_key("screenshot_quality"@)
                && members["screenshot_quality"@] is Text;
            let has_enabled = members.contains_key("screenshots_enabled"@)
                && members["screenshots_enabled"@] == JsonValueView::Flag(enabled);
            let some_enabled = members.contains_key("screenshots_enabled"@)
                && members["screenshots_enabled"@] is Flag;
            &&& has_secs ==> config.screenshot_interval_secs == secs
            &&& !some_secs ==> config.screenshot_interval_secs == 60
            &&& has_quality ==> config.screenshot_quality == quality
            &&& !some_quality ==> config.screenshot_quality == "medium"@
            &&& has_enabled ==> config.screenshots_enabled == enabled
            &&& !some_enabled ==> config.screenshots_enabled
        }),
{
}

/// The order is the one in the answer, member by member: each member of the
/// right kind is taken as it is, and one that is missing or of another kind
/// orders nothing, whatever the others are.
pub proof fn law_command_is_as_answered(
    members: Map<Seq<char>, JsonValueView>,
    text: Seq<char>,
    mode: Seq<char>,
    paused: bool,
)
    ensures
        ({
            let command = command_of(JsonDocumentView::Object(members));
            let has_text = members.contains_key("command"@) && members["command"@]
                == JsonValueView::Text(text);
            let some_text = members.contains_key("command"@) && members["command"@] is Text;
            let has_mode = members.contains_key("mode"@) && members["mode"@]
                == JsonValueView::Text(mode);
            let some_mode = members.contains_key("mode"@) && members["mode"@] is Text;
            let has_paused = members.contains_key("paused"@) && members["paused"@]
                == JsonValueView::Flag(paused);
            let some_paused = members.contains_key("paused"@) && members["paused"@] is Flag;
            &&& has_text ==> command.command == text
            &&& !some_text ==> command.command == "none"@
            &&& has_mode ==> command.mode == mode
            &&& !some_mode ==> command.mode == "always_on"@
            &&& has_paused ==> command.paused == paused
            &&& !some_paused ==> !command.paused
        }),
{
}

/// A configuration and an order say what they hold.
pub proof fn law_config_says_what_it_holds(config: AgentConfig, command: AdminCommand)
    ensures
        config@.screenshot_interval_secs == config.screenshot_interval_secs,
        config@.screenshot_quality == config.screenshot_quality@,
        config@.screenshots_enabled == config.screenshots_enabled,
        command@.command == command.command@,
        command@.mode == command.mode@,
        command@.paused == command.paused,
{
}

} // verus!
