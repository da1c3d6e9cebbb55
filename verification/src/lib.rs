//! Decision core of a slash-command chat bot: who may stop the bot, which
//! handler an interaction reaches, what each handler answers, and how the
//! stop signal travels from a handler to the task that closes the connection.

pub mod action;
pub mod admin;
pub mod commands;
pub mod components;
pub mod registry;
pub mod router;
pub mod session;
pub mod settings;
pub mod shutdown;
pub mod text;
