//! The interaction router: from an inbound event to the handler that
//! answers it.

use vstd::prelude::*;
use crate::action::{unknown_command_text, Action, ActionView, Outcome};
use crate::admin::{authorized, AdminPolicy};
use crate::commands::{
    command_opening, command_route, handle_command, lemma_routes_match_registrations, CommandRoute,
};
use crate::registry::command_table;
use crate::components::{component_opening, component_route, handle_component};
use crate::session::{lemma_signals_at_most_once, transcript, Feedback, Session};

verus! {

/// An inbound event, reduced to what the handlers read.
#[derive(Clone, Debug, PartialEq, Eq)]
pub enum Interaction {
    /// A user invoked a slash command.
    Command { name: String, requester: u64 },
    /// A user activated a control on a message whose text is `content`.
    Component { custom_id: String, content: String },
    /// Any other kind of interaction, by the platform's number for it.
    Other { kind: u64 },
}

/// [`Interaction`] with its texts as sequences of characters.
pub enum InteractionView {
    Command { name: Seq<char>, requester: u64 },
    Component { custom_id: Seq<char>, content: Seq<char> },
    Other { kind: u64 },
}

impl View for Interaction {
    type V = InteractionView;

    open spec fn view(&self) -> InteractionView {
        match self {
            Interaction::Command { name, requester } => InteractionView::Command {
                name: name@,
                requester: *requester,
            },
            Interaction::Component { custom_id, content } => InteractionView::Component {
                custom_id: custom_id@,
                content: content@,
            },
            Interaction::Other { kind } => InteractionView::Other { kind: *kind },
        }
    }
}

/// How the handling of `event` starts under the allow-list `admins`.
///
/// A command goes to the command handlers by its name, a component to the
/// component handlers by its identifier. Any other interaction is over at
/// once, as unsupported.
pub open spec fn opening(event: InteractionView, admins: Seq<u64>) -> (Session, ActionView) {
    match event {
        InteractionView::Command { name, requester } => command_opening(
            command_route(name),
            authorized(admins, requester),
        ),
        InteractionView::Component { custom_id, content } => component_opening(
            component_route(custom_id),
            content,
        ),
        InteractionView::Other { kind } => (
            Session::Closed { outcome: Outcome::Unsupported },
            ActionView::Finish { outcome: Outcome::Unsupported },
        ),
    }
}

/// Routes an inbound event to its handler and starts it.
pub fn dispatch(event: &Interaction, policy: &AdminPolicy) -> (step: (Session, Action))
    ensures
        (step.0, step.1@) == opening(event@, policy@),
{
    match event {
        Interaction::Command { name, requester } => handle_command(
            name.as_str(),
            *requester,
            policy,
        ),
        Interaction::Component { custom_id, content } => handle_component(
            custom_id.as_str(),
            content.as_str(),
        ),
        Interaction::Other { kind: _ } => (
            Session::Closed { outcome: Outcome::Unsupported },
            Action::Finish { outcome: Outcome::Unsupported },
        ),
    }
}

/// A command whose name is not registered reaches the fallback and no
/// other handler, whoever sends it: the requester alone is told that the
/// command does not exist, and that ends the handling.
pub proof fn lemma_unregistered_command_falls_back(
    name: Seq<char>,
    requester: u64,
    admins: Seq<u64>,
)
    requires
        forall|i: int| 0 <= i < command_table().len() ==> (#[trigger] command_table()[i]).0 != name,
    ensures
        command_route(name) == CommandRoute::Fallback,
        opening(InteractionView::Command { name, requester }, admins) == (
            Session::Concluding,
            ActionView::Reply { content: unknown_command_text(), ephemeral: true },
        ),
{
    lemma_routes_match_registrations(name);
}

/// A value goes onto the shutdown channel only in answer to a `shutdown`
/// command from an authorized requester; it goes there once, and it is
/// `true`. No other command, no component and no other interaction puts
/// anything on the channel, whatever the caller reports.
pub proof fn lemma_only_admins_signal(
    event: InteractionView,
    admins: Seq<u64>,
    reports: Seq<Feedback>,
    i: int,
)
    requires
        0 <= i < reports.len(),
        transcript(opening(event, admins).0, reports)[i] is Signal,
    ensures
        event matches InteractionView::Command { name, requester } && command_route(name)
            == CommandRoute::Shutdown && authorized(admins, requester),
        !(opening(event, admins).1 is Signal),
        transcript(opening(event, admins).0, reports)[i] == (ActionView::Signal { stop: true }),
        forall|j: int|
            0 <= j < reports.len() && (#[trigger] transcript(
                opening(event, admins).0,
                reports,
            )[j]) is Signal ==> j == i,
{
    let session = opening(event, admins).0;
    lemma_signals_at_most_once(session, reports, i, i);
    assert forall|j: int|
        0 <= j < reports.len() && (#[trigger] transcript(session, reports)[j]) is Signal implies j
        == i by {
        lemma_signals_at_most_once(session, reports, i, j);
    }
}

} // verus!
