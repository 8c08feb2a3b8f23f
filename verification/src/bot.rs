//! What the bot shows and how it answers.

pub mod commands;
pub mod footer;
pub mod handlers;
pub mod token;
