//! What a handler asks its caller to do next, as plain data.
//!
//! The library never talks to the platform itself. Each handler is a small
//! state machine (see [`crate::session`]); at every step it hands back one
//! [`Action`], the caller performs it and reports how it went.

use vstd::prelude::*;

verus! {

/// Seconds a denial stays visible before it is retracted.
pub const RETRACT_DELAY_SECS: u64 = 5;

/// What an edit does to the controls attached to the message.
#[derive(Clone, Copy, Debug, PartialEq, Eq, Structural)]
pub enum Controls {
    /// Leave the controls as they are.
    Keep,
    /// Attach one row holding the refresh button.
    Refresh,
}

/// How the handling of one interaction ended.
#[derive(Clone, Copy, Debug, PartialEq, Eq, Structural)]
pub enum Outcome {
    /// The handler ran to its end.
    Completed,
    /// A reply, acknowledgement, edit or retraction could not be delivered;
    /// the caller logs the transport's error and moves on.
    TransportFailed,
    /// The interaction is of a kind that no handler exists for.
    Unsupported,
}

/// Visual style of a button.
#[derive(Clone, Copy, Debug, PartialEq, Eq, Structural)]
pub enum ButtonStyle {
    Primary,
    Secondary,
}

/// A button as the platform is asked to render it.
#[derive(Clone, Debug, PartialEq, Eq)]
pub struct Button {
    pub style: ButtonStyle,
    pub emoji: char,
    pub custom_id: String,
}

/// One request to the caller.
#[derive(Clone, Debug, PartialEq, Eq)]
pub enum Action {
    /// Answer the interaction with a new message.
    Reply { content: String, ephemeral: bool },
    /// Answer a component interaction by rewriting the text of the message
    /// the component sits on; its controls stay as they are.
    Annotate { content: String },
    /// Tell the platform that an answer to a command will follow.
    Defer { ephemeral: bool },
    /// Tell the platform that a component interaction was received, without
    /// a new message.
    Acknowledge,
    /// Rewrite the answer given before.
    Edit { content: String, controls: Controls },
    /// Delete the answer given before.
    Retract,
    /// Let the given number of seconds pass.
    Wait { seconds: u64 },
    /// Log who asked for the shutdown.
    LogRequester,
    /// Put a value on the shutdown channel.
    Signal { stop: bool },
    /// Log whether the value reached the channel.
    LogSignal { delivered: bool },
    /// Close this shard's connection.
    StopShard,
    /// Nothing is left to do.
    Finish { outcome: Outcome },
}

/// [`Action`] with its texts as sequences of characters.
pub enum ActionView {
    Reply { content: Seq<char>, ephemeral: bool },
    Annotate { content: Seq<char> },
    Defer { ephemeral: bool },
    Acknowledge,
    Edit { content: Seq<char>, controls: Controls },
    Retract,
    Wait { seconds: u64 },
    LogRequester,
    Signal { stop: bool },
    LogSignal { delivered: bool },
    StopShard,
    Finish { outcome: Outcome },
}

impl View for Action {
    type V = ActionView;

    open spec fn view(&self) -> ActionView {
        match self {
            Action::Reply { content, ephemeral } => ActionView::Reply {
                content: content@,
                ephemeral: *ephemeral,
            },
            Action::Annotate { content } => ActionView::Annotate { content: content@ },
            Action::Defer { ephemeral } => ActionView::Defer { ephemeral: *ephemeral },
            Action::Acknowledge => ActionView::Acknowledge,
            Action::Edit { content, controls } => ActionView::Edit {
                content: content@,
                controls: *controls,
            },
            Action::Retract => ActionView::Retract,
            Action::Wait { seconds } => ActionView::Wait { seconds: *seconds },
            Action::LogRequester => ActionView::LogRequester,
            Action::Signal { stop } => ActionView::Signal { stop: *stop },
            Action::LogSignal { delivered } => ActionView::LogSignal { delivered: *delivered },
            Action::StopShard => ActionView::StopShard,
            Action::Finish { outcome } => ActionView::Finish { outcome: *outcome },
        }
    }
}

/// The answer of the `help` command.
pub open spec fn help_text() -> Seq<char> {
    "Currently available commands: `/ping`, `/shutdown`, `/help`."@
}

/// The answer to a command that has no handler.
pub open spec fn unknown_command_text() -> Seq<char> {
    "This command hasn't been implemented. Try /help"@
}

/// The answer to a shutdown request from someone who is not an admin.
pub open spec fn denial_text() -> Seq<char> {
    "You do not have permission."@
}

/// The answer to an accepted shutdown request.
pub open spec fn farewell_text() -> Seq<char> {
    "Shutting down..."@
}

/// The notice put in front of a message whose component has no handler.
pub open spec fn component_notice() -> Seq<char> {
    "Component interaction not yet implemented.\n"@
}

/// The identifier carried by the refresh button.
pub open spec fn refresh_id() -> Seq<char> {
    "refresh_ping"@
}

/// The button that `Controls::Refresh` stands for.
pub fn refresh_button() -> (button: Button)
    ensures
        button.style == ButtonStyle::Secondary,
        button.emoji == '\u{1F504}',
        button.custom_id@ == refresh_id(),
{
    Button {
        style: ButtonStyle::Secondary,
        emoji: '\u{1F504}',
        custom_id: String::from_str("refresh_ping"),
    }
}

} // verus!
