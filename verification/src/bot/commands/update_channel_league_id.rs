//! Setting the league that a channel shows by default: the record to
//! store, and what to say of how storing went.

use crate::database::models::DBChannel;
use crate::utils::error::FplBotError;
use crate::utils::type_conversion::{option_number, r_option_to_i32, ResolvedOption};
use vstd::prelude::*;

verus! {

/// What is said where no league was given.
pub open spec fn no_league_text() -> Seq<char> {
    "Please provide a valid league ID"@
}

/// What is said once the league is stored.
pub open spec fn stored_text() -> Seq<char> {
    "channel league_id update succesful"@
}

/// What is said where the league could not be stored.
pub open spec fn not_stored_text() -> Seq<char> {
    "Failed to update users manager_id"@
}

/// The league that `option` names. An option that holds no number that
/// fits is refused as input.
pub fn extract_league_id(option: &ResolvedOption) -> (r: Result<i32, FplBotError>)
    ensures
        match option_number(*option) {
            Some(id) => r == Ok::<i32, FplBotError>(id),
            None => r matches Err(FplBotError::Input(detail)) && detail@ == no_league_text(),
        },
{
    match r_option_to_i32(option) {
        Ok(id) => Ok(id),
        Err(_) => Err(FplBotError::Input(String::from_str("Please provide a valid league ID"))),
    }
}

/// The record to store for channel `channel_id`: the channel with the
/// league that `option` names.
pub fn record(channel_id: i64, option: &ResolvedOption) -> (r: Result<DBChannel, FplBotError>)
    ensures
        match option_number(*option) {
            Some(id) => r matches Ok(channel) && channel.channel_id == channel_id
                && channel.default_league_id == Some(id),
            None => r matches Err(FplBotError::Input(detail)) && detail@ == no_league_text(),
        },
{
    match extract_league_id(option) {
        Ok(id) => Ok(DBChannel { channel_id, default_league_id: Some(id) }),
        Err(error) => Err(error),
    }
}

/// What to say of how storing went: that it is done, or a store failure.
pub fn outcome(stored: bool) -> (r: Result<String, FplBotError>)
    ensures
        if stored {
            r matches Ok(content) && content@ == stored_text()
        } else {
            r matches Err(FplBotError::Store(detail)) && detail@ == not_stored_text()
        },
{
    if stored {
        Ok(String::from_str("channel league_id update succesful"))
    } else {
        Err(FplBotError::Store(String::from_str("Failed to update users manager_id")))
    }
}

} // verus!
