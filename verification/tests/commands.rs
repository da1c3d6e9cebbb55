use slash_bot::action::{Action, Controls, Outcome};
use slash_bot::admin::AdminPolicy;
use slash_bot::commands::{
    handle_command, help_command, nyi_command, ping_command, route_command, shutdown_command,
    CommandRoute,
};
use slash_bot::session::{Feedback, Session};
use slash_bot::shutdown::{Lifecycle, ListenerAction, ListenerEvent, SIGNAL_CAPACITY};
use tokio::sync::mpsc;

/// Performs a handler's actions against a real channel, every delivery
/// succeeding, and returns the actions in order.
fn perform(start: (Session, Action), sender: &mpsc::Sender<bool>) -> Vec<Action> {
    let (mut session, mut action) = start;
    let mut done = Vec::new();
    let mut elapsed_ms = 0;
    loop {
        let ok = match &action {
            Action::Signal { stop } => sender.try_send(*stop).is_ok(),
            Action::Finish { .. } => {
                done.push(action);
                assert!(session.is_closed());
                return done;
            }
            _ => true,
        };
        done.push(action);
        elapsed_ms += 12;
        let next = session.advance(Feedback { ok, elapsed_ms });
        session = next.0;
        action = next.1;
    }
}

#[test]
fn command_names_reach_their_handlers() {
    assert_eq!(route_command("help"), CommandRoute::Help);
    assert_eq!(route_command("ping"), CommandRoute::Ping);
    assert_eq!(route_command("shutdown"), CommandRoute::Shutdown);
}

#[test]
fn unregistered_command_names_reach_the_fallback() {
    for name in ["", "Help", "help ", " help", "pong", "shutdownn", "shut", "refresh_ping", "/help"] {
        assert_eq!(route_command(name), CommandRoute::Fallback, "{name:?}");
    }
}

#[test]
fn unregistered_command_is_answered_by_the_fallback_only() {
    let restricted = AdminPolicy::new(vec![1]);
    let open = AdminPolicy::new(vec![]);
    for name in ["pong", "", "HELP"] {
        for policy in [&restricted, &open] {
            for requester in [1, 2] {
                let start = handle_command(name, requester, policy);
                assert_eq!(start, nyi_command());
                assert_eq!(start.0, Session::Concluding);
                assert_eq!(
                    start.1,
                    Action::Reply {
                        content: "This command hasn't been implemented. Try /help".to_string(),
                        ephemeral: true
                    }
                );
            }
        }
    }
}

#[test]
fn help_lists_the_three_commands_to_the_requester_only() {
    let policy = AdminPolicy::new(vec![]);
    let (session, action) = handle_command("help", 42, &policy);
    assert_eq!((session, action.clone()), help_command());
    assert_eq!(session, Session::Concluding);
    match action {
        Action::Reply { content, ephemeral } => {
            assert!(ephemeral);
            assert_eq!(content, "Currently available commands: `/ping`, `/shutdown`, `/help`.");
            for name in ["help", "ping", "shutdown"] {
                assert_eq!(content.matches(&format!("`/{name}`")).count(), 1);
            }
            assert_eq!(content.matches("`/").count(), 3);
        }
        other => panic!("help answered with {other:?}"),
    }
}

#[test]
fn help_ends_after_its_reply() {
    let (sender, _receiver) = mpsc::channel::<bool>(SIGNAL_CAPACITY);
    let actions = perform(help_command(), &sender);
    assert_eq!(actions.len(), 2);
    assert_eq!(actions[1], Action::Finish { outcome: Outcome::Completed });
}

#[test]
fn ping_defers_then_shows_the_delay_with_a_refresh_button() {
    let policy = AdminPolicy::new(vec![9]);
    let start = handle_command("ping", 42, &policy);
    assert_eq!(start, ping_command());
    assert_eq!(start.1, Action::Defer { ephemeral: true });
    let (session, action) = start.0.advance(Feedback { ok: true, elapsed_ms: 87 });
    assert_eq!(
        action,
        Action::Edit { content: "87 ms".to_string(), controls: Controls::Refresh }
    );
    assert_eq!(
        session.advance(Feedback { ok: true, elapsed_ms: 140 }),
        (
            Session::Closed { outcome: Outcome::Completed },
            Action::Finish { outcome: Outcome::Completed }
        )
    );
}

#[test]
fn ping_reports_a_failed_deferral() {
    let (session, _) = ping_command();
    assert_eq!(
        session.advance(Feedback { ok: false, elapsed_ms: 87 }).1,
        Action::Finish { outcome: Outcome::TransportFailed }
    );
}

#[test]
fn ping_reports_a_failed_edit() {
    let (session, _) = ping_command();
    let (session, _) = session.advance(Feedback { ok: true, elapsed_ms: 87 });
    assert_eq!(
        session.advance(Feedback { ok: false, elapsed_ms: 90 }).1,
        Action::Finish { outcome: Outcome::TransportFailed }
    );
}

#[test]
fn shutdown_with_no_admins_configured_reaches_the_listener() {
    let policy = AdminPolicy::new(vec![]);
    let (sender, mut receiver) = mpsc::channel::<bool>(SIGNAL_CAPACITY);
    let actions = perform(handle_command("shutdown", 42, &policy), &sender);
    assert_eq!(
        actions,
        vec![
            Action::LogRequester,
            Action::Reply { content: "Shutting down...".to_string(), ephemeral: true },
            Action::Signal { stop: true },
            Action::LogSignal { delivered: true },
            Action::StopShard,
            Action::Finish { outcome: Outcome::Completed },
        ]
    );

    let mut state = Lifecycle::start();
    assert_eq!(state.pending(), ListenerAction::Receive);
    let value = receiver.try_recv().ok();
    assert_eq!(value, Some(true));
    state = state.listen(ListenerEvent::Received { value }).unwrap();
    assert_eq!(state.pending(), ListenerAction::Teardown);
    state = state.listen(ListenerEvent::TornDown).unwrap();
    assert_eq!(state, Lifecycle::Terminated);
    assert_eq!(state.pending(), ListenerAction::Exit);
    assert!(receiver.try_recv().is_err());
}

#[test]
fn shutdown_by_an_outsider_is_denied_and_retracted() {
    let policy = AdminPolicy::new(vec![1]);
    let (sender, mut receiver) = mpsc::channel::<bool>(SIGNAL_CAPACITY);
    let actions = perform(handle_command("shutdown", 2, &policy), &sender);
    assert_eq!(
        actions,
        vec![
            Action::Reply { content: "You do not have permission.".to_string(), ephemeral: true },
            Action::Wait { seconds: 5 },
            Action::Retract,
            Action::Finish { outcome: Outcome::Completed },
        ]
    );
    assert!(receiver.try_recv().is_err());
}

#[test]
fn shutdown_by_an_admin_is_accepted() {
    let policy = AdminPolicy::new(vec![1]);
    assert_eq!(shutdown_command(1, &policy), (Session::Announcing, Action::LogRequester));
    assert_eq!(handle_command("shutdown", 1, &policy), shutdown_command(1, &policy));
}

#[test]
fn second_shutdown_after_the_listener_left_does_not_fail() {
    let policy = AdminPolicy::new(vec![1, 2]);
    let (sender, receiver) = mpsc::channel::<bool>(SIGNAL_CAPACITY);
    drop(receiver);
    let actions = perform(handle_command("shutdown", 2, &policy), &sender);
    assert_eq!(
        actions,
        vec![
            Action::LogRequester,
            Action::Reply { content: "Shutting down...".to_string(), ephemeral: true },
            Action::Signal { stop: true },
            Action::LogSignal { delivered: false },
            Action::StopShard,
            Action::Finish { outcome: Outcome::Completed },
        ]
    );
}

#[test]
fn two_admins_may_both_signal() {
    let policy = AdminPolicy::new(vec![1, 2]);
    let (sender, mut receiver) = mpsc::channel::<bool>(SIGNAL_CAPACITY);
    let first = perform(handle_command("shutdown", 1, &policy), &sender);
    let second = perform(handle_command("shutdown", 2, &policy), &sender);
    assert_eq!(first, second);
    assert_eq!(receiver.try_recv(), Ok(true));
    assert_eq!(receiver.try_recv(), Ok(true));
    assert!(receiver.try_recv().is_err());
}
