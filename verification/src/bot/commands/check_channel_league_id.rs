//! The answer to a user who asks which league a channel shows by default.

use crate::database::models::DBChannel;
use crate::decimal::{int_chars, int_text};
use crate::text::{push_all, push_str, string_of};
use vstd::prelude::*;

verus! {

/// What is told of a channel's default league.
pub open spec fn reply_text(default_league_id: Option<i32>) -> Seq<char> {
    match default_league_id {
        Some(id) => "Your current default league id is: "@ + int_text(id as int),
        None => "You do not currently have a set manager id"@,
    }
}

/// What is told of the default league of `channel`.
pub fn reply(channel: &DBChannel) -> (content: String)
    ensures
        content@ == reply_text(channel.default_league_id),
{
    match channel.default_league_id {
        Some(id) => {
            let mut out: Vec<char> = Vec::new();
            push_str(&mut out, "Your current default league id is: ");
            push_all(&mut out, &int_chars(id as i128));
            string_of(&out)
        },
        None => String::from_str("You do not currently have a set manager id"),
    }
}

} // verus!
