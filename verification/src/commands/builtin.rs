//! The help command. Its text is made by the framework; the bot chooses what
//! the framework is asked for.

use vstd::prelude::*;
use vstd::string::*;

verus! {

/// The text that closes every help message.
pub open spec fn help_footer() -> Seq<char> {
    "\n\nA bot for the AeroNU Discord server"@
}

/// What the framework is asked to show.
#[derive(Clone, Debug, PartialEq, Eq)]
pub struct HelpRequest {
    /// The command to explain, or `None` for the list of all commands.
    pub command: Option<String>,
    /// Text to put below the help.
    pub extra_text_at_bottom: &'static str,
    /// Whether context menu commands are listed too.
    pub show_context_menu_commands: bool,
}

/// A `HelpRequest` as a mathematical value.
pub struct HelpRequestView {
    pub command: Option<Seq<char>>,
    pub extra_text_at_bottom: Seq<char>,
    pub show_context_menu_commands: bool,
}

impl View for HelpRequest {
    type V = HelpRequestView;

    open spec fn view(&self) -> HelpRequestView {
        HelpRequestView {
            command: match self.command {
                Some(name) => Some(name@),
                None => None,
            },
            extra_text_at_bottom: self.extra_text_at_bottom@,
            show_context_menu_commands: self.show_context_menu_commands,
        }
    }
}

/// The request that the help command makes: help on the command that was
/// named, if one was, with the bot's footer below it and the context menu
/// commands listed.
pub fn help(command: Option<String>) -> (request: HelpRequest)
    ensures
        request@ == (HelpRequestView {
            command: match command {
                Some(name) => Some(name@),
                None => None,
            },
            extra_text_at_bottom: help_footer(),
            show_context_menu_commands: true,
        }),
{
    HelpRequest {
        command,
        extra_text_at_bottom: "\n\nA bot for the AeroNU Discord server",
        show_context_menu_commands: true,
    }
}

} // verus!
