use aerobot::errors::{on_error, on_forwarded, ErrorAction, ReportedError};

#[test]
fn setup_failure_stops_the_bot() {
    let failure = ReportedError::Setup { cause: "Io(NotFound)".to_string() };
    assert_eq!(
        on_error(&failure),
        ErrorAction::Abort("Failed to start bot: Io(NotFound)".to_string())
    );
}

#[test]
fn command_failure_is_printed_with_the_command() {
    let failure = ReportedError::Command {
        command: "voiceinfo".to_string(),
        cause: "Http(UnsuccessfulRequest)".to_string(),
    };
    assert_eq!(
        on_error(&failure),
        ErrorAction::Print("Error in command `voiceinfo`: Http(UnsuccessfulRequest)".to_string())
    );
}

#[test]
fn command_failure_with_empty_texts() {
    let failure = ReportedError::Command { command: String::new(), cause: String::new() };
    assert_eq!(on_error(&failure), ErrorAction::Print("Error in command ``: ".to_string()));
}

#[test]
fn other_failures_are_forwarded() {
    assert_eq!(on_error(&ReportedError::Other), ErrorAction::Forward);
}

#[test]
fn forwarded_error_that_was_handled_prints_nothing() {
    assert_eq!(on_forwarded(&Ok(())), None);
}

#[test]
fn forwarded_error_that_failed_is_printed() {
    assert_eq!(
        on_forwarded(&Err("Missing Permissions".to_string())),
        Some("Error while handling error: Missing Permissions".to_string())
    );
}
