//! The shapes of the remote source's answers, as plain values.

pub mod fixtures;
pub mod gameweek;
pub mod league;
pub mod manager;
pub mod player;
pub mod teams;
