use semaine::dispatch::{
    dispatch, extract_role_option, extract_string_option, Action, ArgumentValue, CommandArgument,
    ComponentClick, DispatchState, Event, InteractionData, SlashCommandData,
};
use semaine::payload::{poll_response, shutdown_response, OutboundResponse};
use semaine::schema::semaine;

fn named(name: &str, value: ArgumentValue) -> CommandArgument {
    CommandArgument { name: name.to_string(), value }
}

fn slash(name: &str, options: Vec<CommandArgument>) -> Event {
    Event::InteractionCreated(InteractionData::SlashCommand(SlashCommandData {
        id: 11,
        token: "tok".to_string(),
        command_name: name.to_string(),
        options,
    }))
}

fn click(custom_id: &str) -> Event {
    Event::InteractionCreated(InteractionData::ComponentInteraction(ComponentClick {
        id: 22,
        token: "click-tok".to_string(),
        custom_id: custom_id.to_string(),
    }))
}

#[test]
fn connection_established_registers_the_schema() {
    let (state, action) = dispatch(DispatchState::Running, Event::ConnectionEstablished);
    assert_eq!(state, DispatchState::Running);
    assert_eq!(action, Some(Action::RegisterCommands(vec![semaine()])));
}

#[test]
fn registering_twice_sends_the_same_schema() {
    let first = dispatch(DispatchState::Running, Event::ConnectionEstablished).1;
    let second = dispatch(DispatchState::Running, Event::ConnectionEstablished).1;
    assert_eq!(first, second);
    assert_eq!(semaine(), semaine());
}

#[test]
fn guild_join_with_system_channel_greets_there() {
    let event = Event::GuildCreated { system_channel_id: Some(77) };
    let (state, action) = dispatch(DispatchState::Running, event);
    assert_eq!(state, DispatchState::Running);
    match action.expect("a greeting is posted") {
        Action::SendChannelMessage { channel_id, response } => {
            assert_eq!(channel_id, 77);
            assert!(matches!(response, OutboundResponse::ChannelMessage { .. }));
        }
        other => panic!("unexpected action: {other:?}"),
    }
}

#[test]
fn guild_join_without_system_channel_is_ignored() {
    let event = Event::GuildCreated { system_channel_id: None };
    let (state, action) = dispatch(DispatchState::Running, event);
    assert_eq!(state, DispatchState::Running);
    assert_eq!(action, None);
}

#[test]
fn known_command_is_acknowledged_with_the_poll() {
    let options = vec![
        named("intitulé", ArgumentValue::Text("Réunion".to_string())),
        named("rôle", ArgumentValue::RoleRef(7)),
    ];
    let (state, action) = dispatch(DispatchState::Running, slash("semaine", options));
    assert_eq!(state, DispatchState::Running);
    match action.expect("the known command is acknowledged") {
        Action::AcknowledgeInteraction { interaction_id, token, response } => {
            assert_eq!(interaction_id, 11);
            assert_eq!(token, "tok");
            assert_eq!(response, poll_response(Some("Réunion".to_string()), Some(7)));
        }
        other => panic!("unexpected action: {other:?}"),
    }
}

#[test]
fn unknown_command_yields_no_outbound_call() {
    let (state, action) = dispatch(DispatchState::Running, slash("autre", vec![]));
    assert_eq!(state, DispatchState::Running);
    assert_eq!(action, None);
}

#[test]
fn shutdown_click_updates_and_terminates() {
    let (state, action) = dispatch(DispatchState::Running, click("shutdown"));
    assert_eq!(state, DispatchState::ShuttingDown);
    match action.expect("the click is acknowledged") {
        Action::AcknowledgeInteraction { interaction_id, token, response } => {
            assert_eq!(interaction_id, 22);
            assert_eq!(token, "click-tok");
            assert_eq!(response, shutdown_response());
            match response {
                OutboundResponse::UpdateMessage { components, .. } => {
                    assert_eq!(components.expect("present but empty").len(), 0);
                }
                other => panic!("unexpected response: {other:?}"),
            }
        }
        other => panic!("unexpected action: {other:?}"),
    }
}

#[test]
fn no_event_is_processed_after_shutdown() {
    for event in [
        Event::ConnectionEstablished,
        Event::GuildCreated { system_channel_id: Some(1) },
        slash("semaine", vec![]),
        click("shutdown"),
    ] {
        let (state, action) = dispatch(DispatchState::ShuttingDown, event);
        assert_eq!(state, DispatchState::ShuttingDown);
        assert_eq!(action, None);
    }
}

#[test]
fn other_component_clicks_are_ignored() {
    let (state, action) = dispatch(DispatchState::Running, click("lundi"));
    assert_eq!(state, DispatchState::Running);
    assert_eq!(action, None);
}

#[test]
fn option_extraction_takes_the_first_matching_name() {
    let options = vec![
        named("intitulé", ArgumentValue::Text("premier".to_string())),
        named("intitulé", ArgumentValue::Text("second".to_string())),
    ];
    assert_eq!(
        extract_string_option(&options, "intitulé"),
        Some("premier".to_string())
    );
}

#[test]
fn option_of_the_wrong_kind_is_dropped() {
    let options = vec![
        named("intitulé", ArgumentValue::RoleRef(5)),
        named("intitulé", ArgumentValue::Text("texte".to_string())),
        named("rôle", ArgumentValue::Text("pas un rôle".to_string())),
    ];
    assert_eq!(extract_string_option(&options, "intitulé"), None);
    assert_eq!(extract_role_option(&options, "rôle"), None);
    assert_eq!(extract_role_option(&options, "absent"), None);
}

#[test]
fn command_without_options_builds_the_default_poll() {
    let (_, action) = dispatch(DispatchState::Running, slash("semaine", vec![]));
    match action.expect("the known command is acknowledged") {
        Action::AcknowledgeInteraction { response, .. } => {
            assert_eq!(response, poll_response(None, None));
        }
        other => panic!("unexpected action: {other:?}"),
    }
}
