use semaine::payload::{
    greeting_response, poll_response, shutdown_response, ButtonStyle, OutboundResponse,
};

fn poll_parts(
    title: Option<&str>,
    role: Option<u64>,
) -> (
    Option<String>,
    Vec<semaine::payload::Embed>,
    Vec<semaine::payload::ActionRow>,
    Option<semaine::payload::MentionAllowance>,
) {
    match poll_response(title.map(|t| t.to_string()), role) {
        OutboundResponse::ChannelMessage { content, embeds, components, allowed_mentions } => (
            content,
            embeds.expect("poll payload always carries embeds"),
            components.expect("poll payload always carries components"),
            allowed_mentions,
        ),
        OutboundResponse::UpdateMessage { .. } => panic!("poll payload is a channel message"),
    }
}

#[test]
fn poll_shape_all_option_combinations() {
    for title in [None, Some("Réunion")] {
        for role in [None, Some(42u64)] {
            let (content, embeds, rows, mentions) = poll_parts(title, role);
            assert_eq!(content, None);
            assert_eq!(rows.len(), 2);
            assert_eq!(rows[0].buttons.len(), 4);
            assert_eq!(rows[1].buttons.len(), 4);
            assert_eq!(embeds.len(), 1);
            assert_eq!(embeds[0].fields.len(), 8);
            let labels: Vec<&str> =
                embeds[0].fields.iter().map(|f| f.name.as_str()).collect();
            assert_eq!(
                labels,
                vec![
                    "Lundi",
                    "Mardi",
                    "Mercredi",
                    "Jeudi",
                    "Vendredi",
                    "Samedi",
                    "Dimanche",
                    "Pas disponible",
                ]
            );
            for field in &embeds[0].fields {
                assert_eq!(field.value, "\u{200B}");
                assert!(field.inline);
            }
            assert_eq!(mentions.is_some(), role.is_some());
        }
    }
}

#[test]
fn poll_with_title_and_no_role() {
    let (_, embeds, _, mentions) = poll_parts(Some("Réunion"), None);
    assert_eq!(embeds[0].title, "Sondage pour la semaine : Réunion");
    assert_eq!(embeds[0].description, "Merci de répondre !");
    assert!(mentions.is_none());
}

#[test]
fn poll_without_options_uses_defaults() {
    let (_, embeds, rows, mentions) = poll_parts(None, None);
    assert_eq!(embeds[0].title, "Sondage pour la semaine");
    assert_eq!(embeds[0].description, "Merci de répondre !");
    assert_eq!(rows.len(), 2);
    assert!(mentions.is_none());
}

#[test]
fn poll_with_role_mentions_exactly_that_role() {
    let (_, embeds, _, mentions) = poll_parts(None, Some(42));
    assert_eq!(embeds[0].description, "Merci de répondre, membres de <@&42> !");
    assert_eq!(mentions.expect("a role was supplied").roles, vec![42]);
}

#[test]
fn poll_button_identifiers_and_styles() {
    let (_, _, rows, _) = poll_parts(Some("x"), Some(1));
    let expected = [
        ("lundi", "Lundi", ButtonStyle::Primary),
        ("mardi", "Mardi", ButtonStyle::Primary),
        ("mercredi", "Mercredi", ButtonStyle::Primary),
        ("jeudi", "Jeudi", ButtonStyle::Primary),
        ("vendredi", "Vendredi", ButtonStyle::Primary),
        ("samedi", "Samedi", ButtonStyle::Primary),
        ("dimanche", "Dimanche", ButtonStyle::Primary),
        ("pas_disponible", "Pas disponible", ButtonStyle::Danger),
    ];
    let buttons: Vec<&semaine::payload::Button> =
        rows.iter().flat_map(|r| r.buttons.iter()).collect();
    assert_eq!(buttons.len(), expected.len());
    for (button, (id, label, style)) in buttons.iter().zip(expected.iter()) {
        assert_eq!(button.custom_id.as_deref(), Some(*id));
        assert_eq!(button.label.as_deref(), Some(*label));
        assert_eq!(button.style, *style);
        assert!(!button.disabled);
    }
}

#[test]
fn greeting_has_exactly_one_shutdown_button() {
    match greeting_response() {
        OutboundResponse::ChannelMessage { content, embeds, components, allowed_mentions } => {
            assert!(content.is_some());
            assert!(embeds.is_none());
            assert!(allowed_mentions.is_none());
            let rows = components.expect("greeting carries a button row");
            assert_eq!(rows.len(), 1);
            assert_eq!(rows[0].buttons.len(), 1);
            assert_eq!(rows[0].buttons[0].custom_id.as_deref(), Some("shutdown"));
        }
        OutboundResponse::UpdateMessage { .. } => panic!("greeting is a channel message"),
    }
}

#[test]
fn shutdown_acknowledgment_clears_components() {
    match shutdown_response() {
        OutboundResponse::UpdateMessage { content, components } => {
            assert!(content.is_some());
            assert_eq!(components.expect("component list is present but empty").len(), 0);
        }
        OutboundResponse::ChannelMessage { .. } => panic!("shutdown response updates in place"),
    }
}
