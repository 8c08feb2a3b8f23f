//! What can go wrong, by what the requester is told.

use crate::text::{push_str, string_of};
use vstd::prelude::*;

verus! {

/// A failure, by its kind, with the words that describe it. None of them
/// is tried again by the bot; the requester asks again.
#[derive(Debug, Clone)]
pub enum FplBotError {
    /// A league or page was not given, or is not one. Told to the requester
    /// as it is.
    Input(String),
    /// The remote source could not be reached, took too long or refused.
    /// The view shown before stays as it is.
    RemoteUnavailable(String),
    /// A footer, a token or an answer of the remote source is not of the
    /// form it must have.
    Parse(String),
    /// The stored defaults could not be read or written. Standings are not
    /// touched by it.
    Store(String),
}

impl FplBotError {
    /// The words that describe the failure.
    pub open spec fn detail(self) -> Seq<char> {
        match self {
            FplBotError::Input(detail) => detail@,
            FplBotError::RemoteUnavailable(detail) => detail@,
            FplBotError::Parse(detail) => detail@,
            FplBotError::Store(detail) => detail@,
        }
    }
}

/// What the requester reads of a failure on the way to a view: that the
/// standings could not be fetched and why, for the remote source; for any
/// other failure `Error: ` and its words.
pub open spec fn notice_text(error: FplBotError) -> Seq<char> {
    match error {
        FplBotError::RemoteUnavailable(detail) => "Error fetching standings: "@ + detail@,
        _ => "Error: "@ + error.detail(),
    }
}

/// What the requester reads of a command that failed: `Error: ` and the
/// words of the failure, whatever its kind.
pub open spec fn command_notice_text(error: FplBotError) -> Seq<char> {
    "Error: "@ + error.detail()
}

/// What the requester reads of a command that failed.
pub fn command_notice_of(error: &FplBotError) -> (content: String)
    ensures
        content@ == command_notice_text(*error),
{
    let mut out: Vec<char> = Vec::new();
    push_str(&mut out, "Error: ");
    match error {
        FplBotError::RemoteUnavailable(detail) => push_str(&mut out, detail.as_str()),
        FplBotError::Input(detail) => push_str(&mut out, detail.as_str()),
        FplBotError::Parse(detail) => push_str(&mut out, detail.as_str()),
        FplBotError::Store(detail) => push_str(&mut out, detail.as_str()),
    }
    string_of(&out)
}

/// What the requester reads of a failure on the way to a view.
pub fn notice_of(error: &FplBotError) -> (content: String)
    ensures
        content@ == notice_text(*error),
{
    let mut out: Vec<char> = Vec::new();
    match error {
        FplBotError::RemoteUnavailable(detail) => {
            push_str(&mut out, "Error fetching standings: ");
            push_str(&mut out, detail.as_str());
        },
        FplBotError::Input(detail) => {
            push_str(&mut out, "Error: ");
            push_str(&mut out, detail.as_str());
        },
        FplBotError::Parse(detail) => {
            push_str(&mut out, "Error: ");
            push_str(&mut out, detail.as_str());
        },
        FplBotError::Store(detail) => {
            push_str(&mut out, "Error: ");
            push_str(&mut out, detail.as_str());
        },
    }
    assert(out@ =~= notice_text(*error));
    string_of(&out)
}

} // verus!
