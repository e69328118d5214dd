use aerobot::intents::{
    gateway_intents, GUILD_MEMBERS, GUILD_PRESENCES, MESSAGE_CONTENT, NON_PRIVILEGED, REQUESTED,
};
use aerobot::startup::{
    command_check, post_command, pre_command, require_token, settings, StartupError,
    BLOCKED_USER_ID, EDIT_TRACKING_SECS, TOKEN_VARIABLE,
};
use aerobot::State;
use poise::serenity_prelude::GatewayIntents;

#[test]
fn token_that_is_set_is_kept() {
    let token = require_token(Some("not-a-real-token".to_string()));
    match token {
        Ok(token) => assert_eq!(token.as_str(), "not-a-real-token"),
        Err(_) => panic!("a token that is set must be accepted"),
    }
}

#[test]
fn token_of_one_character_is_accepted() {
    assert_eq!(require_token(Some("x".to_string())).ok().map(|t| t.as_str().to_string()), Some("x".to_string()));
}

#[test]
fn unset_token_stops_the_startup() {
    assert_eq!(require_token(None).err(), Some(StartupError::MissingToken));
}

#[test]
fn empty_token_stops_the_startup() {
    assert_eq!(require_token(Some(String::new())).err(), Some(StartupError::MissingToken));
}

#[test]
fn missing_token_names_the_variable() {
    assert_eq!(
        StartupError::MissingToken.message(),
        "Missing `DISCORD_TOKEN` env var, see README for more information."
    );
    assert!(StartupError::MissingToken.message().contains(TOKEN_VARIABLE));
    assert_eq!(TOKEN_VARIABLE, "DISCORD_TOKEN");
}

#[test]
fn command_check_refuses_the_blocked_user_only() {
    assert_eq!(BLOCKED_USER_ID, 123456789);
    assert!(!command_check(123456789));
    assert!(command_check(123456788));
    assert!(command_check(123456790));
    assert!(command_check(0));
    assert!(command_check(u64::MAX));
}

#[test]
fn pre_command_announces_the_command() {
    assert_eq!(pre_command("echo"), "Executing command echo...");
    assert_eq!(pre_command(""), "Executing command ...");
}

#[test]
fn post_command_reports_the_command() {
    assert_eq!(post_command("voiceinfo"), "Executed command voiceinfo!");
    assert_eq!(post_command("parent child"), "Executed command parent child!");
}

#[test]
fn settings_hold_the_prefixes() {
    let settings = settings();
    assert_eq!(settings.prefix, "~");
    assert_eq!(settings.additional_prefixes, vec!["hey bot", "hey bot,"]);
}

#[test]
fn settings_track_edits_for_an_hour() {
    assert_eq!(settings().edit_tracking_secs, 3600);
    assert_eq!(EDIT_TRACKING_SECS, 60 * 60);
}

#[test]
fn settings_keep_checks_for_owners() {
    assert!(!settings().skip_checks_for_owners);
}

#[test]
fn settings_hold_the_requested_intents() {
    assert_eq!(settings().intents, gateway_intents());
}

#[test]
fn gateway_intents_have_their_exact_bits() {
    assert_eq!(gateway_intents(), 0x31FEFD);
    assert_eq!(gateway_intents(), REQUESTED);
    assert_eq!(NON_PRIVILEGED, 0x317EFD);
    assert_eq!(NON_PRIVILEGED | MESSAGE_CONTENT, REQUESTED);
}

#[test]
fn gateway_intents_hold_message_content_and_no_other_privileged_intent() {
    let bits = gateway_intents();
    assert_eq!(bits & MESSAGE_CONTENT, MESSAGE_CONTENT);
    assert_eq!(bits & GUILD_MEMBERS, 0);
    assert_eq!(bits & GUILD_PRESENCES, 0);
}

#[test]
fn gateway_intents_agree_with_serenity() {
    let expected = GatewayIntents::non_privileged() | GatewayIntents::MESSAGE_CONTENT;
    assert_eq!(gateway_intents(), expected.bits());
    assert_eq!(GatewayIntents::from_bits(gateway_intents()), Some(expected));
    assert_eq!(GUILD_MEMBERS, GatewayIntents::GUILD_MEMBERS.bits());
    assert_eq!(GUILD_PRESENCES, GatewayIntents::GUILD_PRESENCES.bits());
    assert_eq!(MESSAGE_CONTENT, GatewayIntents::MESSAGE_CONTENT.bits());
    assert_eq!(NON_PRIVILEGED, GatewayIntents::non_privileged().bits());
    assert_eq!(
        GatewayIntents::privileged().bits(),
        GUILD_MEMBERS | GUILD_PRESENCES | MESSAGE_CONTENT
    );
}

#[test]
fn state_holds_nothing() {
    assert_eq!(State, State::default());
    assert_eq!(std::mem::size_of::<State>(), 0);
}
