use aerobot::commands::builtin::help;
use aerobot::commands::registry::{definition, registry, CommandId, ParameterKind};

#[test]
fn registry_lists_the_four_commands_in_order() {
    let ids: Vec<CommandId> = registry().iter().map(|command| command.id).collect();
    assert_eq!(ids, vec![CommandId::Help, CommandId::Register, CommandId::VoiceInfo, CommandId::Echo]);
}

#[test]
fn registry_holds_each_definition() {
    for command in registry() {
        assert_eq!(command, definition(command.id));
    }
}

#[test]
fn registry_names_are_distinct() {
    let names: Vec<&str> = registry().iter().map(|command| command.name).collect();
    assert_eq!(names, vec!["help", "register", "voiceinfo", "echo"]);
}

#[test]
fn every_command_can_be_invoked() {
    for command in registry() {
        assert!(command.prefix_command || command.slash_command);
    }
}

#[test]
fn help_is_a_slash_command_that_tracks_edits() {
    let command = definition(CommandId::Help);
    assert_eq!(command.name, "help");
    assert_eq!(command.description, "Show this help menu");
    assert!(command.slash_command);
    assert!(!command.prefix_command);
    assert!(command.track_edits);
    assert!(!command.hide_in_help);
    assert_eq!(command.parameters.len(), 1);
    assert_eq!(command.parameters[0].name, "command");
    assert_eq!(command.parameters[0].description, "Specific command to show help about");
    assert!(!command.parameters[0].required);
    assert_eq!(command.parameters[0].kind, ParameterKind::Text);
}

#[test]
fn register_is_a_hidden_prefix_command() {
    let command = definition(CommandId::Register);
    assert_eq!(command.name, "register");
    assert_eq!(
        command.description,
        "Registers or unregisters application commands in this guild or globally"
    );
    assert!(command.prefix_command);
    assert!(!command.slash_command);
    assert!(command.hide_in_help);
    assert!(!command.track_edits);
    assert!(command.parameters.is_empty());
}

#[test]
fn voiceinfo_is_a_slash_command_on_a_voice_channel() {
    let command = definition(CommandId::VoiceInfo);
    assert_eq!(command.name, "voiceinfo");
    assert_eq!(command.description, "info about a voice channel");
    assert!(command.slash_command);
    assert!(!command.prefix_command);
    assert!(!command.hide_in_help);
    assert_eq!(command.parameters.len(), 1);
    assert_eq!(command.parameters[0].name, "channel");
    assert_eq!(command.parameters[0].description, "Information about a server voice channel");
    assert!(command.parameters[0].required);
    assert_eq!(command.parameters[0].kind, ParameterKind::VoiceChannel);
}

#[test]
fn echo_is_a_prefix_and_slash_command_on_the_rest_of_the_message() {
    let command = definition(CommandId::Echo);
    assert_eq!(command.name, "echo");
    assert_eq!(command.description, "basically bash echo");
    assert!(command.prefix_command);
    assert!(command.slash_command);
    assert!(!command.hide_in_help);
    assert_eq!(command.parameters.len(), 1);
    assert_eq!(command.parameters[0].name, "msg");
    assert_eq!(command.parameters[0].description, "Text to say");
    assert!(command.parameters[0].required);
    assert_eq!(command.parameters[0].kind, ParameterKind::RestOfMessage);
}

#[test]
fn only_register_is_hidden_from_help() {
    let hidden: Vec<CommandId> =
        registry().iter().filter(|command| command.hide_in_help).map(|command| command.id).collect();
    assert_eq!(hidden, vec![CommandId::Register]);
}

#[test]
fn help_without_a_command_asks_for_the_list() {
    let request = help(None);
    assert_eq!(request.command, None);
    assert_eq!(request.extra_text_at_bottom, "\n\nA bot for the AeroNU Discord server");
    assert!(request.show_context_menu_commands);
}

#[test]
fn help_with_a_command_asks_for_that_command() {
    let request = help(Some("echo".to_string()));
    assert_eq!(request.command, Some("echo".to_string()));
    assert_eq!(request.extra_text_at_bottom, "\n\nA bot for the AeroNU Discord server");
    assert!(request.show_context_menu_commands);
}
