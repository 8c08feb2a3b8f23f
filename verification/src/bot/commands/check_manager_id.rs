//! The answer to a user who asks which manager they have linked.

use crate::database::models::DBUser;
use crate::decimal::{int_chars, int_text};
use crate::text::{push_all, push_str, string_of};
use vstd::prelude::*;

verus! {

/// What a user is told of the manager they have linked.
pub open spec fn reply_text(manager_id: Option<i32>) -> Seq<char> {
    match manager_id {
        Some(id) => "Your current manager id is: "@ + int_text(id as int),
        None => "You do not currently have a set manager id"@,
    }
}

/// What `user` is told of the manager they have linked.
pub fn reply(user: &DBUser) -> (content: String)
    ensures
        content@ == reply_text(user.manager_id),
{
    match user.manager_id {
        Some(id) => {
            let mut out: Vec<char> = Vec::new();
            push_str(&mut out, "Your current manager id is: ");
            push_all(&mut out, &int_chars(id as i128));
            string_of(&out)
        },
        None => String::from_str("You do not currently have a set manager id"),
    }
}

} // verus!
