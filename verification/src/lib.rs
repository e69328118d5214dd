//! The decisions of a small Discord bot, stated and proved.
//!
//! The bot answers two commands, pins and unpins messages when the pin emoji
//! is added to or removed from them, and reports errors. Everything that
//! talks to Discord lives outside this library: the library takes plain values,
//! says what is to be sent or done, and hands plain values back.

use vstd::prelude::*;

pub mod commands;
pub mod errors;
pub mod events;
pub mod intents;
pub mod startup;
pub mod text;

verus! {

/// The state that every command handler is given. It holds nothing: the bot
/// keeps no data between two invocations.
#[derive(Clone, Copy, Debug, Default, PartialEq, Eq)]
pub struct State;

} // verus!
