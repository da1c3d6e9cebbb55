use slash_bot::action::{Action, Outcome};
use slash_bot::admin::AdminPolicy;
use slash_bot::commands::handle_command;
use slash_bot::components::handle_component;
use slash_bot::router::{dispatch, Interaction};
use slash_bot::session::Session;

#[test]
fn command_events_go_to_the_command_handlers() {
    let policy = AdminPolicy::new(vec![1]);
    for name in ["help", "ping", "shutdown", "nothing"] {
        for requester in [1u64, 2] {
            let event = Interaction::Command { name: name.to_string(), requester };
            assert_eq!(dispatch(&event, &policy), handle_command(name, requester, &policy));
        }
    }
}

#[test]
fn component_events_go_to_the_component_handlers() {
    let policy = AdminPolicy::new(vec![1]);
    for id in ["refresh_ping", "nothing", "help"] {
        let event = Interaction::Component {
            custom_id: id.to_string(),
            content: "12 ms".to_string(),
        };
        assert_eq!(dispatch(&event, &policy), handle_component(id, "12 ms"));
    }
}

#[test]
fn command_name_as_component_identifier_reaches_the_fallback() {
    let policy = AdminPolicy::new(vec![]);
    let event = Interaction::Component {
        custom_id: "shutdown".to_string(),
        content: "bye".to_string(),
    };
    let (session, action) = dispatch(&event, &policy);
    assert_eq!(session, Session::Concluding);
    assert_eq!(
        action,
        Action::Annotate {
            content: "Component interaction not yet implemented.\nbye".to_string()
        }
    );
}

#[test]
fn other_interactions_are_unsupported() {
    let policy = AdminPolicy::new(vec![]);
    for kind in [1u64, 4, 5, 255] {
        assert_eq!(
            dispatch(&Interaction::Other { kind }, &policy),
            (
                Session::Closed { outcome: Outcome::Unsupported },
                Action::Finish { outcome: Outcome::Unsupported }
            )
        );
    }
}
