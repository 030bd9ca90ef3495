//! A persistent dialogue engine for a chat bot: it carries each conversation through
//! identification (login, then full name) and decides, per message, the profile writes,
//! the change to the conversation's stored state and the prompt to send.

pub mod command;
pub mod config;
pub mod dialogue;
pub mod engine;
pub mod simple;
pub mod user;
