//! What the bot does when the framework reports an error.
//!
//! An error in setup stops the bot. An error in a command is printed with the
//! command's name, and the bot goes on. Every other error is handed to the
//! framework's default handler; if that handler fails in turn, its failure is
//! printed. No error is dropped in silence.

use vstd::prelude::*;
use vstd::string::*;

verus! {

/// An error as the framework reports it, as far as the bot tells errors
/// apart. A cause is held as the text that describes it.
#[derive(Clone, Debug, PartialEq, Eq)]
pub enum ReportedError {
    /// Setting up the bot's state failed.
    Setup { cause: String },
    /// A command returned an error.
    Command { command: String, cause: String },
    /// Any other error.
    Other,
}

/// A `ReportedError` as a mathematical value.
pub enum ReportedErrorView {
    Setup { cause: Seq<char> },
    Command { command: Seq<char>, cause: Seq<char> },
    Other,
}

impl View for ReportedError {
    type V = ReportedErrorView;

    open spec fn view(&self) -> ReportedErrorView {
        match self {
            ReportedError::Setup { cause } => ReportedErrorView::Setup { cause: cause@ },
            ReportedError::Command { command, cause } => ReportedErrorView::Command {
                command: command@,
                cause: cause@,
            },
            ReportedError::Other => ReportedErrorView::Other,
        }
    }
}

/// What the caller is to do about an error.
#[derive(Clone, Debug, PartialEq, Eq)]
pub enum ErrorAction {
    /// Stop the process with this message.
    Abort(String),
    /// Print this line and go on serving.
    Print(String),
    /// Hand the error to the framework's default handler.
    Forward,
}

/// An `ErrorAction` as a mathematical value.
pub enum ErrorActionView {
    Abort(Seq<char>),
    Print(Seq<char>),
    Forward,
}

impl View for ErrorAction {
    type V = ErrorActionView;

    open spec fn view(&self) -> ErrorActionView {
        match self {
            ErrorAction::Abort(message) => ErrorActionView::Abort(message@),
            ErrorAction::Print(line) => ErrorActionView::Print(line@),
            ErrorAction::Forward => ErrorActionView::Forward,
        }
    }
}

/// The message with which the bot stops when its setup has failed.
pub open spec fn setup_error_message(cause: Seq<char>) -> Seq<char> {
    "Failed to start bot: "@ + cause
}

/// The line that reports an error in a command.
pub open spec fn command_error_line(command: Seq<char>, cause: Seq<char>) -> Seq<char> {
    "Error in command `"@ + command + "`: "@ + cause
}

/// The line that reports that the default handler failed.
pub open spec fn handler_error_line(cause: Seq<char>) -> Seq<char> {
    "Error while handling error: "@ + cause
}

/// The action that an error calls for.
pub open spec fn error_action(error: ReportedErrorView) -> ErrorActionView {
    match error {
        ReportedErrorView::Setup { cause } => ErrorActionView::Abort(setup_error_message(cause)),
        ReportedErrorView::Command { command, cause } => ErrorActionView::Print(
            command_error_line(command, cause),
        ),
        ReportedErrorView::Other => ErrorActionView::Forward,
    }
}

/// Decides what to do about an error that the framework reports.
pub fn on_error(error: &ReportedError) -> (action: ErrorAction)
    ensures
        action@ == error_action(error@),
{
    match error {
        ReportedError::Setup { cause } => {
            let mut message = String::from_str("Failed to start bot: ");
            message.append(cause.as_str());
            ErrorAction::Abort(message)
        },
        ReportedError::Command { command, cause } => {
            let mut line = String::from_str("Error in command `");
            line.append(command.as_str());
            line.append("`: ");
            line.append(cause.as_str());
            ErrorAction::Print(line)
        },
        ReportedError::Other => ErrorAction::Forward,
    }
}

/// Decides what to print once the default handler has come back from an
/// error that was forwarded to it: nothing where it succeeded, one line with
/// the cause where it failed.
pub fn on_forwarded(outcome: &Result<(), String>) -> (line: Option<String>)
    ensures
        match outcome {
            Ok(_) => line is None,
            Err(cause) => line matches Some(text) && text@ == handler_error_line(cause@),
        },
{
    match outcome {
        Ok(_) => None,
        Err(cause) => {
            let mut text = String::from_str("Error while handling error: ");
            text.append(cause.as_str());
            Some(text)
        },
    }
}

/// An error in a command is always printed, an error in setup always stops
/// the bot, and no other error does either: it is forwarded. So every error
/// leads to a message of the bot's own or reaches the default handler.
pub proof fn lemma_no_error_is_dropped(error: ReportedErrorView)
    ensures
        error is Command <==> error_action(error) is Print,
        error is Setup <==> error_action(error) is Abort,
        error is Other <==> error_action(error) is Forward,
{
}

} // verus!
