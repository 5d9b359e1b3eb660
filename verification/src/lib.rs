//! Command handling for a chat bot: tokenising messages, resolving and
//! dispatching commands, formatting replies, and the text tools and the
//! guessing game behind individual commands.

pub mod args;
pub mod codec;
pub mod dispatch;
pub mod embed;
pub mod fun;
pub mod general;
pub mod guess;
pub mod help;
pub mod image;
pub mod moderation;
pub mod registry;
pub mod reply;
pub mod text;
pub mod tools;
