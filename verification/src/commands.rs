//! The replies of the bot's commands.

pub mod builtin;
pub mod general;
pub mod registry;
