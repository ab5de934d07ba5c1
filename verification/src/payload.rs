use vstd::prelude::*;
use vstd::string::StringExecFns;
use crate::text::{role_mention, role_mention_string};

verus! {

// ---------------------------------------------------------------------------
// Outbound payload data: plain values that the process serialises at its edge.
// ---------------------------------------------------------------------------

/// Visual style of an interactive button.
#[derive(Clone, Copy, Debug, PartialEq, Eq, Structural)]
pub enum ButtonStyle {
    Primary,
    Danger,
}

/// One interactive button attached to a message.
#[derive(Clone, Debug, PartialEq, Eq)]
pub struct Button {
    pub custom_id: Option<String>,
    pub label: Option<String>,
    pub style: ButtonStyle,
    pub disabled: bool,
}

/// One horizontal row of buttons.
#[derive(Clone, Debug, PartialEq, Eq)]
pub struct ActionRow {
    pub buttons: Vec<Button>,
}

/// One titled field of an embed.
#[derive(Clone, Debug, PartialEq, Eq)]
pub struct EmbedField {
    pub name: String,
    pub value: String,
    pub inline: bool,
}

/// Embedded rich content of a message.
#[derive(Clone, Debug, PartialEq, Eq)]
pub struct Embed {
    pub title: String,
    pub description: String,
    pub fields: Vec<EmbedField>,
}

/// Restriction of which mentions in a message actually notify:
/// pings are scoped to exactly the listed roles.
#[derive(Clone, Debug, PartialEq, Eq)]
pub struct MentionAllowance {
    pub roles: Vec<u64>,
}

/// An outbound response payload: either a fresh channel message or an
/// in-place update of the message an interaction came from.
#[derive(Clone, Debug, PartialEq, Eq)]
pub enum OutboundResponse {
    ChannelMessage {
        content: Option<String>,
        embeds: Option<Vec<Embed>>,
        components: Option<Vec<ActionRow>>,
        allowed_mentions: Option<MentionAllowance>,
    },
    UpdateMessage {
        content: Option<String>,
        components: Option<Vec<ActionRow>>,
    },
}

// ---------------------------------------------------------------------------
// Mathematical models of the payload data.
// ---------------------------------------------------------------------------

#[verifier::ext_equal]
pub ghost struct ButtonModel {
    pub custom_id: Option<Seq<char>>,
    pub label: Option<Seq<char>>,
    pub style: ButtonStyle,
    pub disabled: bool,
}

#[verifier::ext_equal]
pub ghost struct ActionRowModel {
    pub buttons: Seq<ButtonModel>,
}

#[verifier::ext_equal]
pub ghost struct EmbedFieldModel {
    pub name: Seq<char>,
    pub value: Seq<char>,
    pub inline: bool,
}

#[verifier::ext_equal]
pub ghost struct EmbedModel {
    pub title: Seq<char>,
    pub description: Seq<char>,
    pub fields: Seq<EmbedFieldModel>,
}

#[verifier::ext_equal]
pub ghost struct MentionAllowanceModel {
    pub roles: Seq<u64>,
}

#[verifier::ext_equal]
pub enum ResponseModel {
    ChannelMessage {
        content: Option<Seq<char>>,
        embeds: Option<Seq<EmbedModel>>,
        components: Option<Seq<ActionRowModel>>,
        allowed_mentions: Option<MentionAllowanceModel>,
    },
    UpdateMessage {
        content: Option<Seq<char>>,
        components: Option<Seq<ActionRowModel>>,
    },
}

/// The view of an optional owned string.
pub open spec fn opt_text(o: Option<String>) -> Option<Seq<char>> {
    match o {
        Some(s) => Some(s@),
        None => None,
    }
}

impl View for Button {
    type V = ButtonModel;

    open spec fn view(&self) -> ButtonModel {
        ButtonModel {
            custom_id: opt_text(self.custom_id),
            label: opt_text(self.label),
            style: self.style,
            disabled: self.disabled,
        }
    }
}

impl View for ActionRow {
    type V = ActionRowModel;

    open spec fn view(&self) -> ActionRowModel {
        ActionRowModel { buttons: self.buttons@.map_values(|b: Button| b@) }
    }
}

impl View for EmbedField {
    type V = EmbedFieldModel;

    open spec fn view(&self) -> EmbedFieldModel {
        EmbedFieldModel { name: self.name@, value: self.value@, inline: self.inline }
    }
}

impl View for Embed {
    type V = EmbedModel;

    open spec fn view(&self) -> EmbedModel {
        EmbedModel {
            title: self.title@,
            description: self.description@,
            fields: self.fields@.map_values(|f: EmbedField| f@),
        }
    }
}

impl View for MentionAllowance {
    type V = MentionAllowanceModel;

    open spec fn view(&self) -> MentionAllowanceModel {
        MentionAllowanceModel { roles: self.roles@ }
    }
}

/// The view of an optional embed list.
pub open spec fn opt_embeds(o: Option<Vec<Embed>>) -> Option<Seq<EmbedModel>> {
    match o {
        Some(v) => Some(v@.map_values(|e: Embed| e@)),
        None => None,
    }
}

/// The view of an optional component-row list.
pub open spec fn opt_rows(o: Option<Vec<ActionRow>>) -> Option<Seq<ActionRowModel>> {
    match o {
        Some(v) => Some(v@.map_values(|r: ActionRow| r@)),
        None => None,
    }
}

/// The view of an optional mention restriction.
pub open spec fn opt_mentions(o: Option<MentionAllowance>) -> Option<MentionAllowanceModel> {
    match o {
        Some(m) => Some(m@),
        None => None,
    }
}

impl View for OutboundResponse {
    type V = ResponseModel;

    open spec fn view(&self) -> ResponseModel {
        match *self {
            OutboundResponse::ChannelMessage { content, embeds, components, allowed_mentions } => {
                ResponseModel::ChannelMessage {
                    content: opt_text(content),
                    embeds: opt_embeds(embeds),
                    components: opt_rows(components),
                    allowed_mentions: opt_mentions(allowed_mentions),
                }
            },
            OutboundResponse::UpdateMessage { content, components } => {
                ResponseModel::UpdateMessage {
                    content: opt_text(content),
                    components: opt_rows(components),
                }
            },
        }
    }
}

// ---------------------------------------------------------------------------
// The poll payload.
// ---------------------------------------------------------------------------

/// An enabled primary-style button whose label and machine identifier are given.
pub open spec fn primary_button_model(id: Seq<char>, label: Seq<char>) -> ButtonModel {
    ButtonModel { custom_id: Some(id), label: Some(label), style: ButtonStyle::Primary, disabled: false }
}

/// The two fixed button rows of the poll: four weekdays, then three weekdays
/// plus a visually distinct "not available" button.
pub open spec fn poll_rows() -> Seq<ActionRowModel> {
    seq![
        ActionRowModel {
            buttons: seq![
                primary_button_model("lundi"@, "Lundi"@),
                primary_button_model("mardi"@, "Mardi"@),
                primary_button_model("mercredi"@, "Mercredi"@),
                primary_button_model("jeudi"@, "Jeudi"@),
            ],
        },
        ActionRowModel {
            buttons: seq![
                primary_button_model("vendredi"@, "Vendredi"@),
                primary_button_model("samedi"@, "Samedi"@),
                primary_button_model("dimanche"@, "Dimanche"@),
                ButtonModel {
                    custom_id: Some("pas_disponible"@),
                    label: Some("Pas disponible"@),
                    style: ButtonStyle::Danger,
                    disabled: false,
                },
            ],
        },
    ]
}

/// One inline embed field with the given label and a zero-width placeholder value.
pub open spec fn poll_field_model(label: Seq<char>) -> EmbedFieldModel {
    EmbedFieldModel { name: label, value: "\u{200B}"@, inline: true }
}

/// The eight fixed-label embed fields: the seven weekday names and "Pas disponible".
pub open spec fn poll_fields() -> Seq<EmbedFieldModel> {
    seq![
        poll_field_model("Lundi"@),
        poll_field_model("Mardi"@),
        poll_field_model("Mercredi"@),
        poll_field_model("Jeudi"@),
        poll_field_model("Vendredi"@),
        poll_field_model("Samedi"@),
        poll_field_model("Dimanche"@),
        poll_field_model("Pas disponible"@),
    ]
}

/// The embed heading: the fixed default, or the default extended by the given title.
pub open spec fn poll_title(title: Option<Seq<char>>) -> Seq<char> {
    match title {
        Some(t) => "Sondage pour la semaine : "@ + t,
        None => "Sondage pour la semaine"@,
    }
}

/// The embed description: a fixed sentence, mentioning the role when one was given.
pub open spec fn poll_description(role: Option<u64>) -> Seq<char> {
    match role {
        Some(r) => "Merci de répondre, membres de "@ + role_mention(r as nat) + " !"@,
        None => "Merci de répondre !"@,
    }
}

/// The complete poll payload for the given optional title and optional role.
pub open spec fn poll_model(title: Option<Seq<char>>, role: Option<u64>) -> ResponseModel {
    ResponseModel::ChannelMessage {
        content: None,
        embeds: Some(
            seq![
                EmbedModel {
                    title: poll_title(title),
                    description: poll_description(role),
                    fields: poll_fields(),
                },
            ],
        ),
        components: Some(poll_rows()),
        allowed_mentions: match role {
            Some(r) => Some(MentionAllowanceModel { roles: seq![r] }),
            None => None,
        },
    }
}

/// An enabled primary-style button from a machine identifier and a label.
fn primary_button(id: &str, label: &str) -> (b: Button)
    ensures
        b@ == primary_button_model(id@, label@),
{
    Button {
        custom_id: Some(id.to_owned()),
        label: Some(label.to_owned()),
        style: ButtonStyle::Primary,
        disabled: false,
    }
}

/// One inline embed field with a zero-width placeholder value.
fn placeholder_field(label: &str) -> (f: EmbedField)
    ensures
        f@ == poll_field_model(label@),
{
    EmbedField { name: label.to_owned(), value: "\u{200B}".to_owned(), inline: true }
}

/// Builds the poll payload: an embed with the weekly heading, a description
/// that mentions the role when one was given, eight fixed inline fields, two
/// rows of buttons, and a mention restriction scoped to the given role.
pub fn poll_response(title: Option<String>, role: Option<u64>) -> (r: OutboundResponse)
    ensures
        r@ == poll_model(opt_text(title), role),
{
    let title_text = match &title {
        Some(t) => String::from_str("Sondage pour la semaine : ").concat(t.as_str()),
        None => String::from_str("Sondage pour la semaine"),
    };
    let description = match role {
        Some(rid) => {
            let mention = role_mention_string(rid);
            String::from_str("Merci de répondre, membres de ").concat(mention.as_str()).concat(
                " !",
            )
        },
        None => String::from_str("Merci de répondre !"),
    };
    proof {
        assert(title_text@ =~= poll_title(opt_text(title)));
        assert(description@ =~= poll_description(role));
    }
    let row_one = ActionRow {
        buttons: vec![
            primary_button("lundi", "Lundi"),
            primary_button("mardi", "Mardi"),
            primary_button("mercredi", "Mercredi"),
            primary_button("jeudi", "Jeudi"),
        ],
    };
    let row_two = ActionRow {
        buttons: vec![
            primary_button("vendredi", "Vendredi"),
            primary_button("samedi", "Samedi"),
            primary_button("dimanche", "Dimanche"),
            Button {
                custom_id: Some("pas_disponible".to_owned()),
                label: Some("Pas disponible".to_owned()),
                style: ButtonStyle::Danger,
                disabled: false,
            },
        ],
    };
    let rows = vec![row_one, row_two];
    proof {
        assert(rows@.map_values(|x: ActionRow| x@) =~~= poll_rows());
    }
    let embed = Embed {
        title: title_text,
        description,
        fields: vec![
            placeholder_field("Lundi"),
            placeholder_field("Mardi"),
            placeholder_field("Mercredi"),
            placeholder_field("Jeudi"),
            placeholder_field("Vendredi"),
            placeholder_field("Samedi"),
            placeholder_field("Dimanche"),
            placeholder_field("Pas disponible"),
        ],
    };
    let embeds = vec![embed];
    let allowed_mentions = match role {
        Some(rid) => Some(MentionAllowance { roles: vec![rid] }),
        None => None,
    };
    let r = OutboundResponse::ChannelMessage {
        content: None,
        embeds: Some(embeds),
        components: Some(rows),
        allowed_mentions,
    };
    proof {
        assert(r@ =~~= poll_model(opt_text(title), role));
    }
    r
}

// ---------------------------------------------------------------------------
// The greeting and shutdown payloads.
// ---------------------------------------------------------------------------

/// The greeting payload: a fixed sentence and one row with the single
/// button whose identifier triggers the shutdown transition.
pub open spec fn greeting_model() -> ResponseModel {
    ResponseModel::ChannelMessage {
        content: Some("Bonjour ! Utilisez /semaine pour créer un sondage."@),
        embeds: None,
        components: Some(
            seq![
                ActionRowModel {
                    buttons: seq![
                        ButtonModel {
                            custom_id: Some("shutdown"@),
                            label: Some("Arrêter le bot"@),
                            style: ButtonStyle::Danger,
                            disabled: false,
                        },
                    ],
                },
            ],
        ),
        allowed_mentions: None,
    }
}

/// The shutdown acknowledgment payload: a fixed sentence and an empty
/// component list, which removes the buttons from the original message.
pub open spec fn shutdown_model() -> ResponseModel {
    ResponseModel::UpdateMessage {
        content: Some("Le bot est arrêté. À bientôt !"@),
        components: Some(Seq::<ActionRowModel>::empty()),
    }
}

/// Builds the greeting payload.
pub fn greeting_response() -> (r: OutboundResponse)
    ensures
        r@ == greeting_model(),
{
    let button = Button {
        custom_id: Some("shutdown".to_owned()),
        label: Some("Arrêter le bot".to_owned()),
        style: ButtonStyle::Danger,
        disabled: false,
    };
    let rows = vec![ActionRow { buttons: vec![button] }];
    let r = OutboundResponse::ChannelMessage {
        content: Some("Bonjour ! Utilisez /semaine pour créer un sondage.".to_owned()),
        embeds: None,
        components: Some(rows),
        allowed_mentions: None,
    };
    proof {
        assert(r@ =~~= greeting_model());
    }
    r
}

/// Builds the shutdown acknowledgment payload.
pub fn shutdown_response() -> (r: OutboundResponse)
    ensures
        r@ == shutdown_model(),
{
    let rows: Vec<ActionRow> = Vec::new();
    let r = OutboundResponse::UpdateMessage {
        content: Some("Le bot est arrêté. À bientôt !".to_owned()),
        components: Some(rows),
    };
    proof {
        assert(r@ =~~= shutdown_model());
    }
    r
}

// ---------------------------------------------------------------------------
// Laws on the payload shapes.
// ---------------------------------------------------------------------------

/// Law: for every combination of optional title and optional role, the poll
/// payload has exactly two button rows of four buttons each, exactly one
/// embed with the eight fixed-label fields, and an allowed-mentions
/// restriction exactly when a role was supplied, scoped to that role alone.
pub proof fn lemma_poll_shape(title: Option<Seq<char>>, role: Option<u64>)
    ensures
        poll_model(title, role) is ChannelMessage,
        poll_model(title, role)->ChannelMessage_components == Some(poll_rows()),
        poll_rows().len() == 2,
        poll_rows()[0].buttons.len() == 4,
        poll_rows()[1].buttons.len() == 4,
        poll_model(title, role)->ChannelMessage_embeds matches Some(es) && es.len() == 1
            && es[0].fields == poll_fields(),
        poll_fields().len() == 8,
        poll_fields()[0].name == "Lundi"@,
        poll_fields()[1].name == "Mardi"@,
        poll_fields()[2].name == "Mercredi"@,
        poll_fields()[3].name == "Jeudi"@,
        poll_fields()[4].name == "Vendredi"@,
        poll_fields()[5].name == "Samedi"@,
        poll_fields()[6].name == "Dimanche"@,
        poll_fields()[7].name == "Pas disponible"@,
        poll_model(title, role)->ChannelMessage_allowed_mentions is Some <==> role is Some,
        role matches Some(r) ==> poll_model(title, role)->ChannelMessage_allowed_mentions
            == Some(MentionAllowanceModel { roles: seq![r] }),
{
}

/// Law: the greeting payload carries exactly one button row holding exactly
/// one button, whose machine identifier is the fixed shutdown token.
pub proof fn lemma_greeting_single_shutdown_button()
    ensures
        greeting_model() is ChannelMessage,
        greeting_model()->ChannelMessage_components matches Some(rows) && rows.len() == 1
            && rows[0].buttons.len() == 1
            && rows[0].buttons[0].custom_id == Some("shutdown"@),
{
}

} // verus!
