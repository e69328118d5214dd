//! What the bot settles before it connects: its token, its prefixes, the
//! gateway intents it asks for, and who may run commands.

use crate::intents::{gateway_intents, REQUESTED};
use vstd::prelude::*;
use vstd::string::*;

verus! {

/// The name of the environment variable that holds the bot's token.
pub const TOKEN_VARIABLE: &'static str = "DISCORD_TOKEN";

/// The window, in seconds, within which an edit of a message runs its command
/// again: one hour.
pub const EDIT_TRACKING_SECS: u64 = 3600;

/// The one user whose commands the bot refuses.
pub const BLOCKED_USER_ID: u64 = 123456789;

/// The bot's token: a secret that is never empty. Only `require_token` makes
/// one, so whoever holds a token has passed the check at startup.
pub struct BotToken {
    secret: String,
}

impl View for BotToken {
    type V = Seq<char>;

    closed spec fn view(&self) -> Seq<char> {
        self.secret@
    }
}

impl BotToken {
    #[verifier::type_invariant]
    spec fn non_empty(self) -> bool {
        self.secret@.len() > 0
    }

    /// The secret itself, to hand to the framework.
    pub fn as_str(&self) -> (secret: &str)
        ensures
            secret@ == self@,
            secret@.len() > 0,
    {
        proof {
            use_type_invariant(self);
        }
        self.secret.as_str()
    }
}

/// Why the bot cannot start.
#[derive(Clone, Copy, Debug, PartialEq, Eq, Structural)]
pub enum StartupError {
    /// The environment holds no token.
    MissingToken,
}

impl StartupError {
    /// The diagnostic of an error, as a mathematical value.
    pub open spec fn diagnostic(self) -> Seq<char> {
        match self {
            StartupError::MissingToken =>
                "Missing `DISCORD_TOKEN` env var, see README for more information."@,
        }
    }

    /// The diagnostic with which the process stops.
    pub fn message(&self) -> (text: String)
        ensures
            text@ == self.diagnostic(),
    {
        match self {
            StartupError::MissingToken => String::from_str(
                "Missing `DISCORD_TOKEN` env var, see README for more information.",
            ),
        }
    }
}

/// Takes what the environment holds under `TOKEN_VARIABLE` and gives the
/// token, or the reason why the bot must stop before it connects: there is a
/// token exactly when the variable is set to a text that is not empty. With
/// the variable unset there is none, and nothing to connect with.
pub fn require_token(lookup: Option<String>) -> (token: Result<BotToken, StartupError>)
    ensures
        match lookup {
            Some(secret) => if secret@.len() > 0 {
                token matches Ok(t) && t@ == secret@
            } else {
                token == Err::<BotToken, StartupError>(StartupError::MissingToken)
            },
            None => token == Err::<BotToken, StartupError>(StartupError::MissingToken),
        },
{
    match lookup {
        Some(secret) => {
            if secret.as_str().is_empty() {
                Err(StartupError::MissingToken)
            } else {
                Ok(BotToken { secret })
            }
        },
        None => Err(StartupError::MissingToken),
    }
}

/// What the framework is configured with.
#[derive(Clone, Debug, PartialEq, Eq)]
pub struct Settings {
    /// The prefix that starts a command in a message.
    pub prefix: &'static str,
    /// Phrases that start a command as the prefix does.
    pub additional_prefixes: Vec<&'static str>,
    /// For how many seconds an edit of a message runs its command again.
    pub edit_tracking_secs: u64,
    /// Whether the bot's owners may run commands that `command_check` refuses.
    pub skip_checks_for_owners: bool,
    /// The gateway intents to connect with.
    pub intents: u64,
}

/// `Settings` as a mathematical value.
pub struct SettingsView {
    pub prefix: Seq<char>,
    pub additional_prefixes: Seq<Seq<char>>,
    pub edit_tracking_secs: u64,
    pub skip_checks_for_owners: bool,
    pub intents: u64,
}

impl View for Settings {
    type V = SettingsView;

    open spec fn view(&self) -> SettingsView {
        SettingsView {
            prefix: self.prefix@,
            additional_prefixes: Seq::new(
                self.additional_prefixes@.len(),
                |i: int| self.additional_prefixes@[i]@,
            ),
            edit_tracking_secs: self.edit_tracking_secs,
            skip_checks_for_owners: self.skip_checks_for_owners,
            intents: self.intents,
        }
    }
}

/// The bot's settings: commands start with `~`, with `hey bot` or with
/// `hey bot,`; edits are tracked for an hour; checks hold for owners too; and
/// the intents are the requested ones.
pub open spec fn bot_settings() -> SettingsView {
    SettingsView {
        prefix: "~"@,
        additional_prefixes: seq!["hey bot"@, "hey bot,"@],
        edit_tracking_secs: EDIT_TRACKING_SECS,
        skip_checks_for_owners: false,
        intents: REQUESTED,
    }
}

/// Assembles the bot's settings.
pub fn settings() -> (settings: Settings)
    ensures
        settings@ == bot_settings(),
{
    let mut additional_prefixes: Vec<&'static str> = Vec::new();
    additional_prefixes.push("hey bot");
    additional_prefixes.push("hey bot,");
    let settings = Settings {
        prefix: "~",
        additional_prefixes,
        edit_tracking_secs: EDIT_TRACKING_SECS,
        skip_checks_for_owners: false,
        intents: gateway_intents(),
    };
    assert(settings@.additional_prefixes =~= bot_settings().additional_prefixes);
    settings
}

/// Whether the framework may run a command for this author: it may for
/// everyone but the blocked user.
pub fn command_check(author_id: u64) -> (allowed: bool)
    ensures
        allowed == (author_id != BLOCKED_USER_ID),
{
    author_id != BLOCKED_USER_ID
}

/// The line that announces a command.
pub open spec fn pre_command_line(qualified_name: Seq<char>) -> Seq<char> {
    "Executing command "@ + qualified_name + "..."@
}

/// The line that reports a command that ended well.
pub open spec fn post_command_line(qualified_name: Seq<char>) -> Seq<char> {
    "Executed command "@ + qualified_name + "!"@
}

/// The line to print before a command runs.
pub fn pre_command(qualified_name: &str) -> (line: String)
    ensures
        line@ == pre_command_line(qualified_name@),
{
    let mut line = String::from_str("Executing command ");
    line.append(qualified_name);
    line.append("...");
    line
}

/// The line to print after a command has returned without an error.
pub fn post_command(qualified_name: &str) -> (line: String)
    ensures
        line@ == post_command_line(qualified_name@),
{
    let mut line = String::from_str("Executed command ");
    line.append(qualified_name);
    line.append("!");
    line
}

} // verus!
