use vstd::prelude::*;
use vstd::string::StringExecFns;
use crate::payload::{
    greeting_model, greeting_response, opt_text, poll_model, poll_response, shutdown_model,
    shutdown_response, OutboundResponse, ResponseModel,
};
use crate::schema::{semaine, semaine_model, CommandSchema, CommandSchemaModel};

verus! {

// ---------------------------------------------------------------------------
// Inbound events, as plain values handed in by the gateway edge.
// ---------------------------------------------------------------------------

/// A typed value carried by one slash-command option.
#[derive(Clone, Debug, PartialEq, Eq)]
pub enum ArgumentValue {
    /// Free text.
    Text(String),
    /// A reference to a role, by its identifier.
    RoleRef(u64),
}

/// One named option supplied with a slash-command invocation.
#[derive(Clone, Debug, PartialEq, Eq)]
pub struct CommandArgument {
    pub name: String,
    pub value: ArgumentValue,
}

/// A slash-command invocation, scoped to one dispatch iteration.
#[derive(Clone, Debug, PartialEq, Eq)]
pub struct SlashCommandData {
    pub id: u64,
    pub token: String,
    pub command_name: String,
    pub options: Vec<CommandArgument>,
}

/// A click on an interactive component of a previously sent message.
#[derive(Clone, Debug, PartialEq, Eq)]
pub struct ComponentClick {
    pub id: u64,
    pub token: String,
    pub custom_id: String,
}

/// The two interaction variants this bot reacts to.
#[derive(Clone, Debug, PartialEq, Eq)]
pub enum InteractionData {
    SlashCommand(SlashCommandData),
    ComponentInteraction(ComponentClick),
}

/// An inbound gateway event, one variant per kind this bot consumes.
#[derive(Clone, Debug, PartialEq, Eq)]
pub enum Event {
    /// The connection to the platform is established.
    ConnectionEstablished,
    /// The bot joined a guild; the guild's system channel, when it has one.
    GuildCreated { system_channel_id: Option<u64> },
    /// A user interacted with the bot.
    InteractionCreated(InteractionData),
}

// ---------------------------------------------------------------------------
// Outbound actions and the two dispatch states.
// ---------------------------------------------------------------------------

/// The dispatch loop's state: `ShuttingDown` is terminal.
#[derive(Clone, Copy, Debug, PartialEq, Eq, Structural)]
pub enum DispatchState {
    Running,
    ShuttingDown,
}

/// One outbound API call, synthesized by the dispatch step.
#[derive(Clone, Debug, PartialEq, Eq)]
pub enum Action {
    /// Upsert the global command schema.
    RegisterCommands(Vec<CommandSchema>),
    /// Post a message to a channel.
    SendChannelMessage { channel_id: u64, response: OutboundResponse },
    /// Acknowledge an interaction with a response payload.
    AcknowledgeInteraction { interaction_id: u64, token: String, response: OutboundResponse },
}

// ---------------------------------------------------------------------------
// Mathematical models.
// ---------------------------------------------------------------------------

#[verifier::ext_equal]
pub enum ArgumentValueModel {
    Text(Seq<char>),
    RoleRef(u64),
}

#[verifier::ext_equal]
pub ghost struct CommandArgumentModel {
    pub name: Seq<char>,
    pub value: ArgumentValueModel,
}

#[verifier::ext_equal]
pub ghost struct SlashCommandModel {
    pub id: u64,
    pub token: Seq<char>,
    pub command_name: Seq<char>,
    pub options: Seq<CommandArgumentModel>,
}

#[verifier::ext_equal]
pub ghost struct ComponentClickModel {
    pub id: u64,
    pub token: Seq<char>,
    pub custom_id: Seq<char>,
}

#[verifier::ext_equal]
pub enum InteractionModel {
    SlashCommand(SlashCommandModel),
    ComponentInteraction(ComponentClickModel),
}

#[verifier::ext_equal]
pub enum EventModel {
    ConnectionEstablished,
    GuildCreated { system_channel_id: Option<u64> },
    InteractionCreated(InteractionModel),
}

#[verifier::ext_equal]
pub enum ActionModel {
    RegisterCommands(Seq<CommandSchemaModel>),
    SendChannelMessage { channel_id: u64, response: ResponseModel },
    AcknowledgeInteraction { interaction_id: u64, token: Seq<char>, response: ResponseModel },
}

impl View for ArgumentValue {
    type V = ArgumentValueModel;

    open spec fn view(&self) -> ArgumentValueModel {
        match *self {
            ArgumentValue::Text(t) => ArgumentValueModel::Text(t@),
            ArgumentValue::RoleRef(r) => ArgumentValueModel::RoleRef(r),
        }
    }
}

impl View for CommandArgument {
    type V = CommandArgumentModel;

    open spec fn view(&self) -> CommandArgumentModel {
        CommandArgumentModel { name: self.name@, value: self.value@ }
    }
}

/// The view of an option list.
pub open spec fn args_model(opts: Seq<CommandArgument>) -> Seq<CommandArgumentModel> {
    opts.map_values(|a: CommandArgument| a@)
}

impl View for SlashCommandData {
    type V = SlashCommandModel;

    open spec fn view(&self) -> SlashCommandModel {
        SlashCommandModel {
            id: self.id,
            token: self.token@,
            command_name: self.command_name@,
            options: args_model(self.options@),
        }
    }
}

impl View for ComponentClick {
    type V = ComponentClickModel;

    open spec fn view(&self) -> ComponentClickModel {
        ComponentClickModel { id: self.id, token: self.token@, custom_id: self.custom_id@ }
    }
}

impl View for InteractionData {
    type V = InteractionModel;

    open spec fn view(&self) -> InteractionModel {
        match *self {
            InteractionData::SlashCommand(sc) => InteractionModel::SlashCommand(sc@),
            InteractionData::ComponentInteraction(cc) => InteractionModel::ComponentInteraction(
                cc@,
            ),
        }
    }
}

impl View for Event {
    type V = EventModel;

    open spec fn view(&self) -> EventModel {
        match *self {
            Event::ConnectionEstablished => EventModel::ConnectionEstablished,
            Event::GuildCreated { system_channel_id } => EventModel::GuildCreated {
                system_channel_id,
            },
            Event::InteractionCreated(i) => EventModel::InteractionCreated(i@),
        }
    }
}

impl View for Action {
    type V = ActionModel;

    open spec fn view(&self) -> ActionModel {
        match *self {
            Action::RegisterCommands(cs) => ActionModel::RegisterCommands(
                cs@.map_values(|c: CommandSchema| c@),
            ),
            Action::SendChannelMessage { channel_id, response } => ActionModel::SendChannelMessage {
                channel_id,
                response: response@,
            },
            Action::AcknowledgeInteraction { interaction_id, token, response } => {
                ActionModel::AcknowledgeInteraction {
                    interaction_id,
                    token: token@,
                    response: response@,
                }
            },
        }
    }
}

/// The view of an optional action.
pub open spec fn opt_action_model(o: Option<Action>) -> Option<ActionModel> {
    match o {
        Some(a) => Some(a@),
        None => None,
    }
}

// ---------------------------------------------------------------------------
// Option extraction: first occurrence by name, value only when the variant fits.
// ---------------------------------------------------------------------------

/// The first option carrying the given name, if any.
pub open spec fn first_with_name(
    opts: Seq<CommandArgumentModel>,
    name: Seq<char>,
) -> Option<CommandArgumentModel>
    decreases opts.len(),
{
    if opts.len() == 0 {
        None
    } else if opts[0].name == name {
        Some(opts[0])
    } else {
        first_with_name(opts.drop_first(), name)
    }
}

/// The text of the first option named `name`, provided that option holds text.
pub open spec fn string_option(
    opts: Seq<CommandArgumentModel>,
    name: Seq<char>,
) -> Option<Seq<char>> {
    match first_with_name(opts, name) {
        Some(arg) => match arg.value {
            ArgumentValueModel::Text(t) => Some(t),
            ArgumentValueModel::RoleRef(_) => None,
        },
        None => None,
    }
}

/// The role of the first option named `name`, provided that option holds a role.
pub open spec fn role_option(opts: Seq<CommandArgumentModel>, name: Seq<char>) -> Option<u64> {
    match first_with_name(opts, name) {
        Some(arg) => match arg.value {
            ArgumentValueModel::Text(_) => None,
            ArgumentValueModel::RoleRef(r) => Some(r),
        },
        None => None,
    }
}

/// When no option among the first `i` carries the name, the first match in
/// the whole list is the first match past those `i`.
proof fn lemma_first_with_name_from(s: Seq<CommandArgumentModel>, name: Seq<char>, i: int)
    requires
        0 <= i <= s.len(),
        forall|j: int| 0 <= j < i ==> s[j].name != name,
    ensures
        first_with_name(s, name) == first_with_name(s.skip(i), name),
    decreases i,
{
    if i == 0 {
        assert(s.skip(0) =~= s);
    } else {
        assert(s[0].name != name);
        assert(s.drop_first() =~= s.skip(1));
        assert(forall|j: int| 0 <= j < i - 1 ==> s.drop_first()[j].name != name);
        lemma_first_with_name_from(s.drop_first(), name, i - 1);
        assert(s.drop_first().skip(i - 1) =~= s.skip(i));
    }
}

/// Finds the first option whose name equals `name`.
fn find_argument<'a>(opts: &'a Vec<CommandArgument>, name: &str) -> (r: Option<
    &'a CommandArgument,
>)
    ensures
        match r {
            Some(a) => first_with_name(args_model(opts@), name@) == Some(a@),
            None => first_with_name(args_model(opts@), name@) is None,
        },
{
    let wanted: String = name.to_owned();
    let ghost model = args_model(opts@);
    let mut i: usize = 0;
    while i < opts.len()
        invariant
            0 <= i <= opts.len(),
            wanted@ == name@,
            model == args_model(opts@),
            model.len() == opts@.len(),
            forall|j: int| 0 <= j < i ==> model[j].name != name@,
        decreases opts.len() - i,
    {
        let candidate = &opts[i];
        assert(candidate@ == model[i as int]);
        if candidate.name == wanted {
            proof {
                lemma_first_with_name_from(model, name@, i as int);
                assert(model.skip(i as int)[0] == model[i as int]);
            }
            return Some(candidate);
        }
        i = i + 1;
    }
    proof {
        lemma_first_with_name_from(model, name@, opts@.len() as int);
        assert(model.skip(opts@.len() as int) =~= Seq::<CommandArgumentModel>::empty());
    }
    None
}

/// Extracts the text of the first option named `name`, when that option holds text.
pub fn extract_string_option(opts: &Vec<CommandArgument>, name: &str) -> (r: Option<String>)
    ensures
        opt_text(r) == string_option(args_model(opts@), name@),
{
    match find_argument(opts, name) {
        Some(arg) => match &arg.value {
            ArgumentValue::Text(t) => Some(t.clone()),
            ArgumentValue::RoleRef(_) => None,
        },
        None => None,
    }
}

/// Extracts the role of the first option named `name`, when that option holds a role.
pub fn extract_role_option(opts: &Vec<CommandArgument>, name: &str) -> (r: Option<u64>)
    ensures
        r == role_option(args_model(opts@), name@),
{
    match find_argument(opts, name) {
        Some(arg) => match &arg.value {
            ArgumentValue::Text(_) => None,
            ArgumentValue::RoleRef(role) => Some(*role),
        },
        None => None,
    }
}

// ---------------------------------------------------------------------------
// The dispatch step.
// ---------------------------------------------------------------------------

/// The transition relation of the dispatch loop: from the current state and
/// one inbound event to the next state and at most one outbound call.
///
/// In `Running`: connection establishment registers the command schema; a
/// guild join with a system channel posts the greeting there; the recognized
/// slash command is acknowledged with the poll payload built from its
/// options; the shutdown button click is acknowledged with the clearing
/// update and moves to `ShuttingDown`; everything else is ignored.
/// `ShuttingDown` is terminal and ignores every event.
pub open spec fn dispatch_spec(state: DispatchState, e: EventModel) -> (DispatchState, Option<
    ActionModel,
>) {
    match state {
        DispatchState::ShuttingDown => (DispatchState::ShuttingDown, None),
        DispatchState::Running => match e {
            EventModel::ConnectionEstablished => (
                DispatchState::Running,
                Some(ActionModel::RegisterCommands(seq![semaine_model()])),
            ),
            EventModel::GuildCreated { system_channel_id: Some(channel_id) } => (
                DispatchState::Running,
                Some(ActionModel::SendChannelMessage { channel_id, response: greeting_model() }),
            ),
            EventModel::GuildCreated { system_channel_id: None } => (DispatchState::Running, None),
            EventModel::InteractionCreated(InteractionModel::SlashCommand(sc)) => {
                if sc.command_name == "semaine"@ {
                    (
                        DispatchState::Running,
                        Some(
                            ActionModel::AcknowledgeInteraction {
                                interaction_id: sc.id,
                                token: sc.token,
                                response: poll_model(
                                    string_option(sc.options, "intitulé"@),
                                    role_option(sc.options, "rôle"@),
                                ),
                            },
                        ),
                    )
                } else {
                    (DispatchState::Running, None)
                }
            },
            EventModel::InteractionCreated(InteractionModel::ComponentInteraction(cc)) => {
                if cc.custom_id == "shutdown"@ {
                    (
                        DispatchState::ShuttingDown,
                        Some(
                            ActionModel::AcknowledgeInteraction {
                                interaction_id: cc.id,
                                token: cc.token,
                                response: shutdown_model(),
                            },
                        ),
                    )
                } else {
                    (DispatchState::Running, None)
                }
            },
        },
    }
}

/// Performs one dispatch step: classifies the event and synthesizes the
/// outbound call the transition relation prescribes.
pub fn dispatch(state: DispatchState, event: Event) -> (r: (DispatchState, Option<Action>))
    ensures
        r.0 == dispatch_spec(state, event@).0,
        opt_action_model(r.1) == dispatch_spec(state, event@).1,
{
    let ghost e = event@;
    match state {
        DispatchState::ShuttingDown => (DispatchState::ShuttingDown, None),
        DispatchState::Running => match event {
            Event::ConnectionEstablished => {
                let commands = vec![semaine()];
                proof {
                    assert(commands@.map_values(|c: CommandSchema| c@) =~~= seq![semaine_model()]);
                }
                (DispatchState::Running, Some(Action::RegisterCommands(commands)))
            },
            Event::GuildCreated { system_channel_id: Some(channel_id) } => (
                DispatchState::Running,
                Some(
                    Action::SendChannelMessage { channel_id, response: greeting_response() },
                ),
            ),
            Event::GuildCreated { system_channel_id: None } => (DispatchState::Running, None),
            Event::InteractionCreated(InteractionData::SlashCommand(sc)) => {
                if sc.command_name == String::from_str("semaine") {
                    let title = extract_string_option(&sc.options, "intitulé");
                    let role = extract_role_option(&sc.options, "rôle");
                    let response = poll_response(title, role);
                    let r = (
                        DispatchState::Running,
                        Some(
                            Action::AcknowledgeInteraction {
                                interaction_id: sc.id,
                                token: sc.token,
                                response,
                            },
                        ),
                    );
                    proof {
                        assert(opt_action_model(r.1) =~~= dispatch_spec(state, e).1);
                    }
                    r
                } else {
                    (DispatchState::Running, None)
                }
            },
            Event::InteractionCreated(InteractionData::ComponentInteraction(cc)) => {
                if cc.custom_id == String::from_str("shutdown") {
                    (
                        DispatchState::ShuttingDown,
                        Some(
                            Action::AcknowledgeInteraction {
                                interaction_id: cc.id,
                                token: cc.token,
                                response: shutdown_response(),
                            },
                        ),
                    )
                } else {
                    (DispatchState::Running, None)
                }
            },
        },
    }
}

// ---------------------------------------------------------------------------
// Laws on the dispatch step.
// ---------------------------------------------------------------------------

/// Law: a click on the shutdown button always yields the update that clears
/// the component list, and moves the loop into the terminal state; in that
/// state, every further event is ignored, so no event is processed after
/// the shutdown transition.
pub proof fn lemma_shutdown_transition(cc: ComponentClickModel, later: EventModel)
    requires
        cc.custom_id == "shutdown"@,
    ensures
        dispatch_spec(
            DispatchState::Running,
            EventModel::InteractionCreated(InteractionModel::ComponentInteraction(cc)),
        ) == (
            DispatchState::ShuttingDown,
            Some(
                ActionModel::AcknowledgeInteraction {
                    interaction_id: cc.id,
                    token: cc.token,
                    response: shutdown_model(),
                },
            ),
        ),
        shutdown_model() is UpdateMessage,
        shutdown_model()->UpdateMessage_components == Some(Seq::<crate::payload::ActionRowModel>::empty()),
        dispatch_spec(DispatchState::ShuttingDown, later) == (
            DispatchState::ShuttingDown,
            None::<ActionModel>,
        ),
{
}

/// Law: a slash command whose name is not the registered command name yields
/// no outbound call and leaves the loop running.
pub proof fn lemma_unknown_command_ignored(sc: SlashCommandModel)
    requires
        sc.command_name != "semaine"@,
    ensures
        dispatch_spec(
            DispatchState::Running,
            EventModel::InteractionCreated(InteractionModel::SlashCommand(sc)),
        ) == (DispatchState::Running, None::<ActionModel>),
{
}

} // verus!
