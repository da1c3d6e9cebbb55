//! Slash commands: which handler a command name reaches, and how each
//! handler starts.

use vstd::prelude::*;
use vstd::string::*;
use crate::action::{
    denial_text, help_text, unknown_command_text, Action, ActionView, Controls, Outcome,
    RETRACT_DELAY_SECS,
};
use crate::admin::{authorized, AdminPolicy};
use crate::registry::command_table;
use crate::session::{transcript, Feedback, Session};
use crate::text::same_text;

verus! {

/// The handler that a command reaches.
#[derive(Clone, Copy, Debug, PartialEq, Eq, Structural)]
pub enum CommandRoute {
    Help,
    Ping,
    Shutdown,
    /// The name belongs to no command of this bot.
    Fallback,
}

/// The handler for the command called `name`.
pub open spec fn command_route(name: Seq<char>) -> CommandRoute {
    if name == "help"@ {
        CommandRoute::Help
    } else if name == "ping"@ {
        CommandRoute::Ping
    } else if name == "shutdown"@ {
        CommandRoute::Shutdown
    } else {
        CommandRoute::Fallback
    }
}

/// How the handler behind `route` starts, given whether the requester may
/// shut the bot down: the session it is in, and the first action.
pub open spec fn command_opening(route: CommandRoute, allowed: bool) -> (Session, ActionView) {
    match route {
        CommandRoute::Help => (
            Session::Concluding,
            ActionView::Reply { content: help_text(), ephemeral: true },
        ),
        CommandRoute::Ping => (
            Session::Probing { controls: Controls::Refresh },
            ActionView::Defer { ephemeral: true },
        ),
        CommandRoute::Shutdown => if allowed {
            (Session::Announcing, ActionView::LogRequester)
        } else {
            (Session::Denying, ActionView::Reply { content: denial_text(), ephemeral: true })
        },
        CommandRoute::Fallback => (
            Session::Concluding,
            ActionView::Reply { content: unknown_command_text(), ephemeral: true },
        ),
    }
}

/// Finds the handler for a command by its name.
pub fn route_command(name: &str) -> (route: CommandRoute)
    ensures
        route == command_route(name@),
{
    if same_text(name, "help") {
        CommandRoute::Help
    } else if same_text(name, "ping") {
        CommandRoute::Ping
    } else if same_text(name, "shutdown") {
        CommandRoute::Shutdown
    } else {
        CommandRoute::Fallback
    }
}

/// A message that answers the interaction and ends the handler.
fn closing_reply(content: &str, ephemeral: bool) -> (step: (Session, Action))
    ensures
        step.0 == Session::Concluding,
        step.1@ == (ActionView::Reply { content: content@, ephemeral }),
{
    (Session::Concluding, Action::Reply { content: String::from_str(content), ephemeral })
}

/// Starts the fallback for a command that has no handler: a notice that
/// only the requester sees.
pub fn nyi_command() -> (step: (Session, Action))
    ensures
        (step.0, step.1@) == command_opening(CommandRoute::Fallback, true),
        (step.0, step.1@) == command_opening(CommandRoute::Fallback, false),
{
    closing_reply("This command hasn't been implemented. Try /help", true)
}

/// Starts `help`: the list of commands, shown to the requester only.
pub fn help_command() -> (step: (Session, Action))
    ensures
        (step.0, step.1@) == command_opening(CommandRoute::Help, true),
        (step.0, step.1@) == command_opening(CommandRoute::Help, false),
{
    closing_reply("Currently available commands: `/ping`, `/shutdown`, `/help`.", true)
}

/// Starts `ping`: a provisional answer whose delay is measured. Once the
/// platform has taken it, the answer is rewritten to show the delay and
/// gets the refresh button.
pub fn ping_command() -> (step: (Session, Action))
    ensures
        (step.0, step.1@) == command_opening(CommandRoute::Ping, true),
        (step.0, step.1@) == command_opening(CommandRoute::Ping, false),
{
    (Session::Probing { controls: Controls::Refresh }, Action::Defer { ephemeral: true })
}

/// Starts `shutdown` for `requester`. An admin's request is logged,
/// answered and passed on to the shutdown channel; anyone else gets a
/// denial that is retracted a few seconds later, and nothing is signalled.
pub fn shutdown_command(requester: u64, policy: &AdminPolicy) -> (step: (Session, Action))
    ensures
        (step.0, step.1@) == command_opening(
            CommandRoute::Shutdown,
            authorized(policy@, requester),
        ),
{
    if policy.is_authorized(requester) {
        (Session::Announcing, Action::LogRequester)
    } else {
        (
            Session::Denying,
            Action::Reply { content: String::from_str("You do not have permission."), ephemeral: true },
        )
    }
}

/// Starts the handler for the command called `name`, invoked by
/// `requester`.
pub fn handle_command(name: &str, requester: u64, policy: &AdminPolicy) -> (step: (Session, Action))
    ensures
        (step.0, step.1@) == command_opening(
            command_route(name@),
            authorized(policy@, requester),
        ),
{
    match route_command(name) {
        CommandRoute::Help => help_command(),
        CommandRoute::Ping => ping_command(),
        CommandRoute::Shutdown => shutdown_command(requester, policy),
        CommandRoute::Fallback => nyi_command(),
    }
}

/// The names that have a handler are the names that are registered: a
/// name reaches a handler of its own exactly when it is in the command
/// table, and any other name reaches the fallback.
pub proof fn lemma_routes_match_registrations(name: Seq<char>)
    ensures
        command_route(name) != CommandRoute::Fallback <==> exists|i: int|
            0 <= i < command_table().len() && (#[trigger] command_table()[i]).0 == name,
{
    let table = command_table();
    assert(table[0].0 == "help"@);
    assert(table[1].0 == "ping"@);
    assert(table[2].0 == "shutdown"@);
}

/// The three registered names reach three different handlers.
pub proof fn lemma_registered_commands_are_handled()
    ensures
        command_table().len() == 3,
        command_route(command_table()[0].0) == CommandRoute::Help,
        command_route(command_table()[1].0) == CommandRoute::Ping,
        command_route(command_table()[2].0) == CommandRoute::Shutdown,
{
    reveal_strlit("help");
    reveal_strlit("ping");
    reveal_strlit("shutdown");
    assert("help"@ != "ping"@) by {
        assert("help"@[0] != "ping"@[0]);
    }
    assert("help"@.len() != "shutdown"@.len());
    assert("ping"@.len() != "shutdown"@.len());
}

/// How the `help` answer writes the command called `name`.
pub open spec fn mention(name: Seq<char>) -> Seq<char> {
    seq!['`', '/'] + name + seq!['`']
}

/// Whether `text` holds the mention of `name` at `start`.
pub open spec fn mentions_at(text: Seq<char>, name: Seq<char>, start: int) -> bool {
    0 <= start && start + mention(name).len() <= text.len() && text.subrange(
        start,
        start + mention(name).len(),
    ) == mention(name)
}

/// The `help` answer names every registered command.
pub proof fn lemma_help_names_every_command()
    ensures
        forall|i: int|
            0 <= i < command_table().len() ==> exists|start: int|
                mentions_at(help_text(), (#[trigger] command_table()[i]).0, start),
{
    reveal_strlit("Currently available commands: `/ping`, `/shutdown`, `/help`.");
    reveal_strlit("help");
    reveal_strlit("ping");
    reveal_strlit("shutdown");
    let text = help_text();
    assert(text.subrange(30, 37) =~= mention("ping"@));
    assert(text.subrange(39, 50) =~= mention("shutdown"@));
    assert(text.subrange(52, 59) =~= mention("help"@));
    assert(mentions_at(text, "ping"@, 30));
    assert(mentions_at(text, "shutdown"@, 39));
    assert(mentions_at(text, "help"@, 52));
    assert forall|i: int| 0 <= i < command_table().len() implies exists|start: int|
        mentions_at(help_text(), (#[trigger] command_table()[i]).0, start) by {
        if i == 0 {
            assert(mentions_at(text, command_table()[i].0, 52));
        } else if i == 1 {
            assert(mentions_at(text, command_table()[i].0, 30));
        } else {
            assert(mentions_at(text, command_table()[i].0, 39));
        }
    }
}

/// A refused shutdown request is answered with a denial that only the
/// requester sees; once delivered it stays for the fixed delay and is then
/// retracted, and that ends the handler.
pub proof fn lemma_denial_is_retracted(
    admins: Seq<u64>,
    requester: u64,
    delivered: Feedback,
    waited: Feedback,
    retracted: Feedback,
)
    requires
        !authorized(admins, requester),
        delivered.ok,
    ensures
        command_opening(CommandRoute::Shutdown, authorized(admins, requester)).1 == (
        ActionView::Reply { content: denial_text(), ephemeral: true }),
        transcript(
            command_opening(CommandRoute::Shutdown, authorized(admins, requester)).0,
            seq![delivered, waited, retracted],
        ) == seq![
            ActionView::Wait { seconds: RETRACT_DELAY_SECS },
            ActionView::Retract,
            ActionView::Finish {
                outcome: if retracted.ok {
                    Outcome::Completed
                } else {
                    Outcome::TransportFailed
                },
            },
        ],
{
    let reports = seq![delivered, waited, retracted];
    let r1 = reports.drop_first();
    let r2 = r1.drop_first();
    assert(r1 =~= seq![waited, retracted]);
    assert(r2 =~= seq![retracted]);
    assert(r2.drop_first() =~= Seq::<Feedback>::empty());
    reveal_with_fuel(transcript, 4);
    let last = ActionView::Finish {
        outcome: if retracted.ok {
            Outcome::Completed
        } else {
            Outcome::TransportFailed
        },
    };
    assert(transcript(Session::Concluding, r2) =~= seq![last]);
    assert(transcript(Session::Holding, r1) =~= seq![ActionView::Retract, last]);
    assert(transcript(Session::Denying, reports) =~= seq![
        ActionView::Wait { seconds: RETRACT_DELAY_SECS },
        ActionView::Retract,
        last,
    ]);
}

} // verus!
