//! What the bot remembers of a user and of a channel.

use vstd::prelude::*;

verus! {

/// A chat user and the manager they have linked, if any.
#[derive(Debug, Clone)]
pub struct DBUser {
    /// The user's identifier on the chat platform
    pub discord_id: i64,
    /// The manager the user has linked
    pub manager_id: Option<i32>,
}

/// A channel and the league shown there by default, if any.
#[derive(Debug, Clone)]
pub struct DBChannel {
    /// The channel's identifier on the chat platform
    pub channel_id: i64,
    /// The league shown when none is named
    pub default_league_id: Option<i32>,
}

} // verus!
