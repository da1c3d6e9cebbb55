//! Message components (buttons): which handler an identifier reaches, and
//! how each handler starts.

use vstd::prelude::*;
use vstd::string::*;
use crate::action::{component_notice, refresh_id, Action, ActionView, Controls};
use crate::commands::{command_opening, CommandRoute};
use crate::session::{Feedback, Session};
use crate::text::{decimal, decimal_value, latency_text, lemma_latency_text_shape, same_text};

verus! {

/// The handler that a component reaches.
#[derive(Clone, Copy, Debug, PartialEq, Eq, Structural)]
pub enum ComponentRoute {
    RefreshPing,
    /// The identifier belongs to no component of this bot.
    Fallback,
}

/// The handler for the component whose identifier is `custom_id`.
pub open spec fn component_route(custom_id: Seq<char>) -> ComponentRoute {
    if custom_id == refresh_id() {
        ComponentRoute::RefreshPing
    } else {
        ComponentRoute::Fallback
    }
}

/// How the handler behind `route` starts on a message whose text is
/// `existing`.
pub open spec fn component_opening(route: ComponentRoute, existing: Seq<char>) -> (
    Session,
    ActionView,
) {
    match route {
        ComponentRoute::RefreshPing => (
            Session::Probing { controls: Controls::Keep },
            ActionView::Acknowledge,
        ),
        ComponentRoute::Fallback => (
            Session::Concluding,
            ActionView::Annotate { content: component_notice() + existing },
        ),
    }
}

/// Finds the handler for a component by its identifier.
pub fn route_component(custom_id: &str) -> (route: ComponentRoute)
    ensures
        route == component_route(custom_id@),
{
    if same_text(custom_id, "refresh_ping") {
        ComponentRoute::RefreshPing
    } else {
        ComponentRoute::Fallback
    }
}

/// Starts the fallback for a component that has no handler: the message
/// keeps its text and its controls, and gets a notice in front.
pub fn nyi_component(existing: &str) -> (step: (Session, Action))
    ensures
        (step.0, step.1@) == component_opening(ComponentRoute::Fallback, existing@),
{
    let mut content = String::from_str("Component interaction not yet implemented.\n");
    content.append(existing);
    (Session::Concluding, Action::Annotate { content })
}

/// Starts the refresh of a latency message: the interaction is
/// acknowledged, the delay of that is measured, and the message's text is
/// rewritten to show it. The button stays where it is.
pub fn ping_refresh_component() -> (step: (Session, Action))
    ensures
        step.0 == (Session::Probing { controls: Controls::Keep }),
        step.1@ == ActionView::Acknowledge,
{
    (Session::Probing { controls: Controls::Keep }, Action::Acknowledge)
}

/// Starts the handler for the component whose identifier is `custom_id`,
/// on a message whose text is `existing`.
pub fn handle_component(custom_id: &str, existing: &str) -> (step: (Session, Action))
    ensures
        (step.0, step.1@) == component_opening(component_route(custom_id@), existing@),
{
    match route_component(custom_id) {
        ComponentRoute::RefreshPing => ping_refresh_component(),
        ComponentRoute::Fallback => nyi_component(existing),
    }
}

/// An identifier that belongs to no component reaches the fallback, and
/// the fallback only puts its notice in front of the message: the text
/// that was there follows the notice unchanged, and the controls are not
/// touched.
pub proof fn lemma_unknown_component_keeps_message(custom_id: Seq<char>, existing: Seq<char>)
    requires
        custom_id != refresh_id(),
    ensures
        component_route(custom_id) == ComponentRoute::Fallback,
        component_opening(component_route(custom_id), existing).0 == Session::Concluding,
        component_opening(component_route(custom_id), existing).1 matches ActionView::Annotate {
            content,
        } && content.len() == component_notice().len() + existing.len() && content.subrange(
            0,
            component_notice().len() as int,
        ) == component_notice() && content.subrange(
            component_notice().len() as int,
            content.len() as int,
        ) == existing,
{
    let content = component_notice() + existing;
    assert(content.subrange(0, component_notice().len() as int) =~= component_notice());
    assert(content.subrange(component_notice().len() as int, content.len() as int) =~= existing);
}

/// `ping` and the refresh of its message show the same kind of label: once
/// the acknowledgement has gone through, the text becomes the label for
/// the measured milliseconds, whose shape `lemma_latency_text_shape` gives.
/// `ping` attaches the refresh button, the button's identifier reaches the
/// refresh handler, and the refresh leaves the button in place, so the
/// message can be refreshed again.
pub proof fn lemma_ping_round_trip(first: Feedback, second: Feedback, shown: Seq<char>)
    requires
        first.ok,
        second.ok,
    ensures
        command_opening(CommandRoute::Ping, true).0.request(first) == (ActionView::Edit {
            content: latency_text(first.elapsed_ms as nat),
            controls: Controls::Refresh,
        }),
        component_route(refresh_id()) == ComponentRoute::RefreshPing,
        component_opening(component_route(refresh_id()), shown).0.request(second) == (
        ActionView::Edit {
            content: latency_text(second.elapsed_ms as nat),
            controls: Controls::Keep,
        }),
        latency_text(first.elapsed_ms as nat) == decimal(first.elapsed_ms as nat) + seq![
            ' ',
            'm',
            's',
        ],
        latency_text(second.elapsed_ms as nat) == decimal(second.elapsed_ms as nat) + seq![
            ' ',
            'm',
            's',
        ],
        decimal_value(decimal(first.elapsed_ms as nat)) == first.elapsed_ms,
        decimal_value(decimal(second.elapsed_ms as nat)) == second.elapsed_ms,
{
    reveal_strlit(" ms");
    assert(" ms"@ =~= seq![' ', 'm', 's']);
    lemma_latency_text_shape(first.elapsed_ms as nat);
    lemma_latency_text_shape(second.elapsed_ms as nat);
}

} // verus!
