use vstd::prelude::*;
use vstd::string::StringExecFns;

verus! {

// ---------------------------------------------------------------------------
// Static slash-command descriptors and their registration semantics.
// ---------------------------------------------------------------------------

/// The type of value a command option accepts.
#[derive(Clone, Copy, Debug, PartialEq, Eq, Structural)]
pub enum OptionKind {
    /// Free text.
    Text,
    /// A reference to a role.
    Role,
}

/// One typed option of a slash command.
#[derive(Clone, Debug, PartialEq, Eq)]
pub struct CommandOptionSchema {
    pub kind: OptionKind,
    pub name: String,
    pub description: String,
    pub required: bool,
}

/// A static slash-command descriptor: registered once on connection
/// establishment, never mutated afterwards in this process.
#[derive(Clone, Debug, PartialEq, Eq)]
pub struct CommandSchema {
    pub name: String,
    pub description: String,
    pub options: Vec<CommandOptionSchema>,
}

#[verifier::ext_equal]
pub ghost struct CommandOptionModel {
    pub kind: OptionKind,
    pub name: Seq<char>,
    pub description: Seq<char>,
    pub required: bool,
}

#[verifier::ext_equal]
pub ghost struct CommandSchemaModel {
    pub name: Seq<char>,
    pub description: Seq<char>,
    pub options: Seq<CommandOptionModel>,
}

impl View for CommandOptionSchema {
    type V = CommandOptionModel;

    open spec fn view(&self) -> CommandOptionModel {
        CommandOptionModel {
            kind: self.kind,
            name: self.name@,
            description: self.description@,
            required: self.required,
        }
    }
}

impl View for CommandSchema {
    type V = CommandSchemaModel;

    open spec fn view(&self) -> CommandSchemaModel {
        CommandSchemaModel {
            name: self.name@,
            description: self.description@,
            options: self.options@.map_values(|o: CommandOptionSchema| o@),
        }
    }
}

/// The descriptor of the weekly-poll command: name, description, and two
/// optional typed options — a free-text title and a role to notify.
pub open spec fn semaine_model() -> CommandSchemaModel {
    CommandSchemaModel {
        name: "semaine"@,
        description: "Crée un sondage pour un ou plusieurs jours de la semaine"@,
        options: seq![
            CommandOptionModel {
                kind: OptionKind::Text,
                name: "intitulé"@,
                description: "Intitulé du sondage"@,
                required: false,
            },
            CommandOptionModel {
                kind: OptionKind::Role,
                name: "rôle"@,
                description: "Rôle à notifier"@,
                required: false,
            },
        ],
    }
}

/// Builds the descriptor of the weekly-poll command.
pub fn semaine() -> (r: CommandSchema)
    ensures
        r@ == semaine_model(),
{
    let options = vec![
        CommandOptionSchema {
            kind: OptionKind::Text,
            name: String::from_str("intitulé"),
            description: String::from_str("Intitulé du sondage"),
            required: false,
        },
        CommandOptionSchema {
            kind: OptionKind::Role,
            name: String::from_str("rôle"),
            description: String::from_str("Rôle à notifier"),
            required: false,
        },
    ];
    let r = CommandSchema {
        name: String::from_str("semaine"),
        description: String::from_str("Crée un sondage pour un ou plusieurs jours de la semaine"),
        options,
    };
    proof {
        assert(r@ =~~= semaine_model());
    }
    r
}

/// Registering a command list against the platform is an upsert: the remote
/// global schema becomes exactly the registered list, whatever it held before.
pub open spec fn upsert_commands(
    remote: Seq<CommandSchemaModel>,
    commands: Seq<CommandSchemaModel>,
) -> Seq<CommandSchemaModel> {
    commands
}

/// Law: registering the same command list twice in sequence leaves the remote
/// schema in exactly the state that registering it once does.
pub proof fn lemma_registration_idempotent(
    remote: Seq<CommandSchemaModel>,
    commands: Seq<CommandSchemaModel>,
)
    ensures
        upsert_commands(upsert_commands(remote, commands), commands) == upsert_commands(
            remote,
            commands,
        ),
{
}

} // verus!
