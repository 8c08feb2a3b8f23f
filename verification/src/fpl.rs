//! The game's data as the remote source hands it out.

pub mod client;
pub mod models;
