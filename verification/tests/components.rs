use slash_bot::action::{refresh_button, Action, ButtonStyle, Controls, Outcome};
use slash_bot::admin::AdminPolicy;
use slash_bot::commands::handle_command;
use slash_bot::components::{
    handle_component, nyi_component, ping_refresh_component, route_component, ComponentRoute,
};
use slash_bot::session::{Feedback, Session};

#[test]
fn refresh_identifier_reaches_the_refresh_handler() {
    assert_eq!(route_component("refresh_ping"), ComponentRoute::RefreshPing);
}

#[test]
fn unregistered_identifiers_reach_the_component_fallback() {
    for id in ["", "refresh", "refresh_ping ", "Refresh_Ping", "ping", "help"] {
        assert_eq!(route_component(id), ComponentRoute::Fallback, "{id:?}");
    }
}

#[test]
fn component_fallback_keeps_the_message_behind_its_notice() {
    for existing in ["", "42 ms", "line one\nline two", "\u{1F504} caf\u{e9}"] {
        let (session, action) = handle_component("mystery", existing);
        assert_eq!((session, action.clone()), nyi_component(existing));
        assert_eq!(session, Session::Concluding);
        match action {
            Action::Annotate { content } => {
                assert_eq!(
                    content,
                    format!("Component interaction not yet implemented.\n{existing}")
                );
                assert!(content.ends_with(existing));
                assert!(content.starts_with("Component interaction not yet implemented."));
            }
            other => panic!("fallback answered with {other:?}"),
        }
    }
}

#[test]
fn component_fallback_ends_with_the_delivery_result() {
    let (session, _) = handle_component("mystery", "text");
    assert_eq!(
        session.advance(Feedback { ok: true, elapsed_ms: 1 }).1,
        Action::Finish { outcome: Outcome::Completed }
    );
    assert_eq!(
        session.advance(Feedback { ok: false, elapsed_ms: 1 }).1,
        Action::Finish { outcome: Outcome::TransportFailed }
    );
}

#[test]
fn refresh_acknowledges_then_rewrites_the_delay() {
    let start = handle_component("refresh_ping", "87 ms");
    assert_eq!(start, ping_refresh_component());
    assert_eq!(start.1, Action::Acknowledge);
    let (session, action) = start.0.advance(Feedback { ok: true, elapsed_ms: 31 });
    assert_eq!(action, Action::Edit { content: "31 ms".to_string(), controls: Controls::Keep });
    assert_eq!(
        session.advance(Feedback { ok: true, elapsed_ms: 60 }).1,
        Action::Finish { outcome: Outcome::Completed }
    );
}

#[test]
fn refresh_reports_a_failed_acknowledgement() {
    let (session, _) = ping_refresh_component();
    assert_eq!(
        session.advance(Feedback { ok: false, elapsed_ms: 31 }).1,
        Action::Finish { outcome: Outcome::TransportFailed }
    );
}

#[test]
fn refresh_button_is_what_the_router_knows() {
    let button = refresh_button();
    assert_eq!(button.style, ButtonStyle::Secondary);
    assert_eq!(button.emoji, '\u{1F504}');
    assert_eq!(button.custom_id, "refresh_ping");
    assert_eq!(route_component(&button.custom_id), ComponentRoute::RefreshPing);
}

fn is_latency_label(text: &str) -> bool {
    match text.strip_suffix(" ms") {
        Some(number) => {
            !number.is_empty()
                && number.chars().all(|c| c.is_ascii_digit())
                && number.parse::<u128>().is_ok()
        }
        None => false,
    }
}

#[test]
fn ping_then_refresh_both_show_milliseconds() {
    let policy = AdminPolicy::new(vec![]);
    for (first, second) in [(0u128, 0u128), (87, 31), (1, 100000), (u128::MAX, 9)] {
        let (session, _) = handle_command("ping", 42, &policy);
        let (_, edit) = session.advance(Feedback { ok: true, elapsed_ms: first });
        let (message, controls) = match edit {
            Action::Edit { content, controls } => (content, controls),
            other => panic!("ping answered with {other:?}"),
        };
        assert!(is_latency_label(&message), "{message:?}");
        assert_eq!(message, format!("{first} ms"));
        assert_eq!(controls, Controls::Refresh);

        let (session, _) = handle_component(&refresh_button().custom_id, &message);
        let (_, edit) = session.advance(Feedback { ok: true, elapsed_ms: second });
        match edit {
            Action::Edit { content, controls } => {
                assert!(is_latency_label(&content), "{content:?}");
                assert_eq!(content, format!("{second} ms"));
                assert_eq!(controls, Controls::Keep);
            }
            other => panic!("refresh answered with {other:?}"),
        }
    }
}
