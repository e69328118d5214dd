//! The commands that the bot registers, and what is fixed of each before the
//! framework starts: its name, its description, its parameters, and where it
//! can be invoked.

use vstd::prelude::*;
use vstd::string::*;

verus! {

/// The bot's commands.
#[derive(Clone, Copy, Debug, PartialEq, Eq, Structural)]
pub enum CommandId {
    Help,
    Register,
    VoiceInfo,
    Echo,
}

/// What a parameter takes.
#[derive(Clone, Copy, Debug, PartialEq, Eq, Structural)]
pub enum ParameterKind {
    /// One word of text.
    Text,
    /// All the text that is left of the message.
    RestOfMessage,
    /// A voice channel of the guild.
    VoiceChannel,
}

/// A parameter of a command.
#[derive(Clone, Copy, Debug, PartialEq, Eq)]
pub struct ParameterDefinition {
    pub name: &'static str,
    pub description: &'static str,
    pub required: bool,
    pub kind: ParameterKind,
}

/// A `ParameterDefinition` as a mathematical value.
pub struct ParameterDefinitionView {
    pub name: Seq<char>,
    pub description: Seq<char>,
    pub required: bool,
    pub kind: ParameterKind,
}

impl View for ParameterDefinition {
    type V = ParameterDefinitionView;

    open spec fn view(&self) -> ParameterDefinitionView {
        ParameterDefinitionView {
            name: self.name@,
            description: self.description@,
            required: self.required,
            kind: self.kind,
        }
    }
}

/// A command as it is registered.
#[derive(Clone, Debug, PartialEq, Eq)]
pub struct CommandDefinition {
    pub id: CommandId,
    pub name: &'static str,
    pub description: &'static str,
    /// Whether the command can be invoked by a message that starts with a
    /// prefix.
    pub prefix_command: bool,
    /// Whether the command can be invoked as a slash command.
    pub slash_command: bool,
    /// Whether the help leaves the command out.
    pub hide_in_help: bool,
    /// Whether the command runs again when its message is edited.
    pub track_edits: bool,
    pub parameters: Vec<ParameterDefinition>,
}

/// A `CommandDefinition` as a mathematical value.
pub struct CommandDefinitionView {
    pub id: CommandId,
    pub name: Seq<char>,
    pub description: Seq<char>,
    pub prefix_command: bool,
    pub slash_command: bool,
    pub hide_in_help: bool,
    pub track_edits: bool,
    pub parameters: Seq<ParameterDefinitionView>,
}

impl View for CommandDefinition {
    type V = CommandDefinitionView;

    open spec fn view(&self) -> CommandDefinitionView {
        CommandDefinitionView {
            id: self.id,
            name: self.name@,
            description: self.description@,
            prefix_command: self.prefix_command,
            slash_command: self.slash_command,
            hide_in_help: self.hide_in_help,
            track_edits: self.track_edits,
            parameters: Seq::new(self.parameters@.len(), |i: int| self.parameters@[i]@),
        }
    }
}

/// The definition of each command.
pub open spec fn definition_of(id: CommandId) -> CommandDefinitionView {
    match id {
        CommandId::Help => CommandDefinitionView {
            id,
            name: "help"@,
            description: "Show this help menu"@,
            prefix_command: false,
            slash_command: true,
            hide_in_help: false,
            track_edits: true,
            parameters: seq![
                ParameterDefinitionView {
                    name: "command"@,
                    description: "Specific command to show help about"@,
                    required: false,
                    kind: ParameterKind::Text,
                },
            ],
        },
        CommandId::Register => CommandDefinitionView {
            id,
            name: "register"@,
            description: "Registers or unregisters application commands in this guild or globally"@,
            prefix_command: true,
            slash_command: false,
            hide_in_help: true,
            track_edits: false,
            parameters: seq![],
        },
        CommandId::VoiceInfo => CommandDefinitionView {
            id,
            name: "voiceinfo"@,
            description: "info about a voice channel"@,
            prefix_command: false,
            slash_command: true,
            hide_in_help: false,
            track_edits: false,
            parameters: seq![
                ParameterDefinitionView {
                    name: "channel"@,
                    description: "Information about a server voice channel"@,
                    required: true,
                    kind: ParameterKind::VoiceChannel,
                },
            ],
        },
        CommandId::Echo => CommandDefinitionView {
            id,
            name: "echo"@,
            description: "basically bash echo"@,
            prefix_command: true,
            slash_command: true,
            hide_in_help: false,
            track_edits: false,
            parameters: seq![
                ParameterDefinitionView {
                    name: "msg"@,
                    description: "Text to say"@,
                    required: true,
                    kind: ParameterKind::RestOfMessage,
                },
            ],
        },
    }
}

/// The commands in the order in which they are registered.
pub open spec fn registered() -> Seq<CommandId> {
    seq![CommandId::Help, CommandId::Register, CommandId::VoiceInfo, CommandId::Echo]
}

/// The definition of a command.
pub fn definition(id: CommandId) -> (command: CommandDefinition)
    ensures
        command@ == definition_of(id),
{
    let command = match id {
        CommandId::Help => {
            let mut parameters: Vec<ParameterDefinition> = Vec::new();
            parameters.push(
                ParameterDefinition {
                    name: "command",
                    description: "Specific command to show help about",
                    required: false,
                    kind: ParameterKind::Text,
                },
            );
            CommandDefinition {
                id,
                name: "help",
                description: "Show this help menu",
                prefix_command: false,
                slash_command: true,
                hide_in_help: false,
                track_edits: true,
                parameters,
            }
        },
        CommandId::Register => CommandDefinition {
            id,
            name: "register",
            description: "Registers or unregisters application commands in this guild or globally",
            prefix_command: true,
            slash_command: false,
            hide_in_help: true,
            track_edits: false,
            parameters: Vec::new(),
        },
        CommandId::VoiceInfo => {
            let mut parameters: Vec<ParameterDefinition> = Vec::new();
            parameters.push(
                ParameterDefinition {
                    name: "channel",
                    description: "Information about a server voice channel",
                    required: true,
                    kind: ParameterKind::VoiceChannel,
                },
            );
            CommandDefinition {
                id,
                name: "voiceinfo",
                description: "info about a voice channel",
                prefix_command: false,
                slash_command: true,
                hide_in_help: false,
                track_edits: false,
                parameters,
            }
        },
        CommandId::Echo => {
            let mut parameters: Vec<ParameterDefinition> = Vec::new();
            parameters.push(
                ParameterDefinition {
                    name: "msg",
                    description: "Text to say",
                    required: true,
                    kind: ParameterKind::RestOfMessage,
                },
            );
            CommandDefinition {
                id,
                name: "echo",
                description: "basically bash echo",
                prefix_command: true,
                slash_command: true,
                hide_in_help: false,
                track_edits: false,
                parameters,
            }
        },
    };
    assert(command@.parameters =~= definition_of(id).parameters);
    command
}

/// The commands to hand to the framework, in the order of `registered()`.
pub fn registry() -> (commands: Vec<CommandDefinition>)
    ensures
        commands@.len() == registered().len(),
        forall|i: int|
            0 <= i < commands@.len() ==> (#[trigger] commands@[i])@ == definition_of(
                registered()[i],
            ),
{
    let mut commands: Vec<CommandDefinition> = Vec::new();
    commands.push(definition(CommandId::Help));
    commands.push(definition(CommandId::Register));
    commands.push(definition(CommandId::VoiceInfo));
    commands.push(definition(CommandId::Echo));
    commands
}

/// Every command is registered once, and can be invoked in at least one way.
pub proof fn lemma_registry_is_complete(id: CommandId)
    ensures
        exists|i: int| 0 <= i < registered().len() && registered()[i] == id,
        forall|i: int, j: int|
            0 <= i < j < registered().len() ==> registered()[i] != registered()[j],
        definition_of(id).id == id,
        definition_of(id).prefix_command || definition_of(id).slash_command,
{
    match id {
        CommandId::Help => assert(registered()[0] == id),
        CommandId::Register => assert(registered()[1] == id),
        CommandId::VoiceInfo => assert(registered()[2] == id),
        CommandId::Echo => assert(registered()[3] == id),
    }
}

/// No two commands share a name.
pub proof fn lemma_names_are_distinct(a: CommandId, b: CommandId)
    requires
        a != b,
    ensures
        definition_of(a).name != definition_of(b).name,
{
    reveal_strlit("help");
    reveal_strlit("register");
    reveal_strlit("voiceinfo");
    reveal_strlit("echo");
    assert("help"@.len() == 4 && "echo"@.len() == 4);
    assert("register"@.len() == 8 && "voiceinfo"@.len() == 9);
    assert("help"@[0] != "echo"@[0]);
}

} // verus!
