//! Linking a manager to a user: the record to store, and what to say of
//! how storing went.

use crate::database::models::DBUser;
use crate::utils::error::FplBotError;
use crate::utils::type_conversion::{first_number, first_option_number, ResolvedOption};
use vstd::prelude::*;

verus! {

/// What is said where no manager was given.
pub open spec fn no_manager_text() -> Seq<char> {
    "Failed to find users discord_id"@
}

/// What is said once the manager is stored.
pub open spec fn stored_text() -> Seq<char> {
    "Manager_id update succesful"@
}

/// What is said where the manager could not be stored.
pub open spec fn not_stored_text() -> Seq<char> {
    "Failed to update users manager_id"@
}

/// The record to store for user `discord_id`: the user with the manager
/// named in the first option. A command without one is refused as input.
pub fn record(discord_id: i64, options: &Vec<ResolvedOption>) -> (r: Result<DBUser, FplBotError>)
    ensures
        match first_option_number(options@) {
            Some(id) => r matches Ok(user) && user.discord_id == discord_id && user.manager_id
                == Some(id),
            None => r matches Err(FplBotError::Input(detail)) && detail@ == no_manager_text(),
        },
{
    match first_number(options, "Failed to find users discord_id") {
        Ok(id) => Ok(DBUser { discord_id, manager_id: Some(id) }),
        Err(error) => Err(error),
    }
}

/// What to say of how storing went: that it is done, or a store failure.
pub fn outcome(stored: bool) -> (r: Result<String, FplBotError>)
    ensures
        if stored {
            r matches Ok(content) && content@ == stored_text()
        } else {
            r matches Err(FplBotError::Store(detail)) && detail@ == not_stored_text()
        },
{
    if stored {
        Ok(String::from_str("Manager_id update succesful"))
    } else {
        Err(FplBotError::Store(String::from_str("Failed to update users manager_id")))
    }
}

} // verus!
