//! What to ask the remote source for, as an address and a query.
//!
//! Asking is done elsewhere. Here stands what each question looks like:
//! the path below the base address, always closed by a slash, and the one
//! query parameter that two of the questions take.

use crate::decimal::{int_chars, int_text};
use crate::text::{push_all, push_str, string_of};
use crate::utils::error::FplBotError;
use vstd::prelude::*;

verus! {

/// What the remote source can be asked for.
#[derive(Clone, Copy, Debug, PartialEq, Eq, Structural)]
pub enum Endpoint {
    /// Players, clubs and gameweeks.
    General,
    /// The fixtures of a gameweek, or all of them.
    Fixtures(Option<i32>),
    /// A classic league with the first page of its standings.
    League(i32),
    /// A classic league with one page of its standings, pages counted
    /// from one; the first where none is named.
    LeagueStandings(i32, Option<i32>),
    /// A manager.
    ManagerSummary(i32),
    /// A manager's past gameweeks and seasons.
    ManagerHistory(i32),
    /// A manager's transfers.
    ManagerTransfers(i32),
    /// A manager's team of a gameweek: the manager, then the gameweek.
    ManagerTeam(i32, i32),
    /// A player's fixtures and past.
    PlayerSummary(i32),
    /// The live points of a gameweek.
    Gameweek(i32),
}

/// A question to the remote source.
#[derive(Debug, Clone)]
pub struct Request {
    /// The address to get.
    pub url: String,
    /// The query parameter to send along, as name and value.
    pub query: Option<(String, String)>,
}

/// The base address of the remote source.
pub open spec fn base_url_text() -> Seq<char> {
    "https://fantasy.premierleague.com/api"@
}

/// The base address of the remote source.
pub fn base_url() -> (url: &'static str)
    ensures
        url@ == base_url_text(),
{
    "https://fantasy.premierleague.com/api"
}

/// The path of a question, below the base address.
pub open spec fn path_text(endpoint: Endpoint) -> Seq<char> {
    match endpoint {
        Endpoint::General => "bootstrap-static"@,
        Endpoint::Fixtures(_) => "fixtures"@,
        Endpoint::League(league) => "leagues-classic/"@ + int_text(league as int) + "/standings"@,
        Endpoint::LeagueStandings(league, _) => "leagues-classic/"@ + int_text(league as int)
            + "/standings"@,
        Endpoint::ManagerSummary(manager) => "entry/"@ + int_text(manager as int),
        Endpoint::ManagerHistory(manager) => "entry/"@ + int_text(manager as int) + "/history"@,
        Endpoint::ManagerTransfers(manager) => "entry/"@ + int_text(manager as int)
            + "/transfers"@,
        Endpoint::ManagerTeam(manager, gameweek) => "entry/"@ + int_text(manager as int)
            + "/event/"@ + int_text(gameweek as int) + "/picks"@,
        Endpoint::PlayerSummary(player) => "element-summary/"@ + int_text(player as int),
        Endpoint::Gameweek(gameweek) => "event/"@ + int_text(gameweek as int) + "/live"@,
    }
}

/// The address of a question: base address, slash, path, slash.
pub open spec fn url_text(base: Seq<char>, endpoint: Endpoint) -> Seq<char> {
    base + "/"@ + path_text(endpoint) + "/"@
}

/// The query parameter of a question: `event` with the gameweek for
/// fixtures of one gameweek, `page_standings` with the page for a named
/// page of standings, and none for any other question.
pub open spec fn query_of(endpoint: Endpoint) -> Option<(Seq<char>, Seq<char>)> {
    match endpoint {
        Endpoint::Fixtures(Some(gameweek)) => Some(("event"@, int_text(gameweek as int))),
        Endpoint::LeagueStandings(_, Some(page)) => Some(
            ("page_standings"@, int_text(page as int)),
        ),
        _ => None,
    }
}

/// Whether `request` asks for `endpoint` at `base`.
pub open spec fn is_request_for(request: Request, base: Seq<char>, endpoint: Endpoint) -> bool {
    &&& request.url@ == url_text(base, endpoint)
    &&& match (request.query, query_of(endpoint)) {
        (Some((name, value)), Some((wanted_name, wanted_value))) => name@ == wanted_name
            && value@ == wanted_value,
        (None, None) => true,
        _ => false,
    }
}

/// Appends a number to `out`.
fn push_number(out: &mut Vec<char>, number: i32)
    ensures
        final(out)@ == old(out)@ + int_text(number as int),
{
    push_all(out, &int_chars(number as i128));
}

/// The path of a question.
fn path(endpoint: &Endpoint) -> (out: Vec<char>)
    ensures
        out@ == path_text(*endpoint),
{
    let mut out: Vec<char> = Vec::new();
    match endpoint {
        Endpoint::General => {
            push_str(&mut out, "bootstrap-static");
        },
        Endpoint::Fixtures(_) => {
            push_str(&mut out, "fixtures");
        },
        Endpoint::League(league) => {
            push_str(&mut out, "leagues-classic/");
            push_number(&mut out, *league);
            push_str(&mut out, "/standings");
        },
        Endpoint::LeagueStandings(league, _) => {
            push_str(&mut out, "leagues-classic/");
            push_number(&mut out, *league);
            push_str(&mut out, "/standings");
        },
        Endpoint::ManagerSummary(manager) => {
            push_str(&mut out, "entry/");
            push_number(&mut out, *manager);
        },
        Endpoint::ManagerHistory(manager) => {
            push_str(&mut out, "entry/");
            push_number(&mut out, *manager);
            push_str(&mut out, "/history");
        },
        Endpoint::ManagerTransfers(manager) => {
            push_str(&mut out, "entry/");
            push_number(&mut out, *manager);
            push_str(&mut out, "/transfers");
        },
        Endpoint::ManagerTeam(manager, gameweek) => {
            push_str(&mut out, "entry/");
            push_number(&mut out, *manager);
            push_str(&mut out, "/event/");
            push_number(&mut out, *gameweek);
            push_str(&mut out, "/picks");
        },
        Endpoint::PlayerSummary(player) => {
            push_str(&mut out, "element-summary/");
            push_number(&mut out, *player);
        },
        Endpoint::Gameweek(gameweek) => {
            push_str(&mut out, "event/");
            push_number(&mut out, *gameweek);
            push_str(&mut out, "/live");
        },
    }
    assert(out@ =~= path_text(*endpoint));
    out
}

/// The question for `endpoint`, asked at `base`.
pub fn request(base: &str, endpoint: &Endpoint) -> (request: Request)
    ensures
        is_request_for(request, base@, *endpoint),
{
    let mut url: Vec<char> = Vec::new();
    push_str(&mut url, base);
    push_str(&mut url, "/");
    push_all(&mut url, &path(endpoint));
    push_str(&mut url, "/");
    assert(url@ =~= url_text(base@, *endpoint));
    let query = match endpoint {
        Endpoint::Fixtures(Some(gameweek)) => Some(
            (String::from_str("event"), string_of(&int_chars(*gameweek as i128))),
        ),
        Endpoint::LeagueStandings(_, Some(page)) => Some(
            (String::from_str("page_standings"), string_of(&int_chars(*page as i128))),
        ),
        _ => None,
    };
    Request { url: string_of(&url), query }
}

/// What is said of a remote page beyond what the remote source counts.
pub open spec fn no_remote_page_text() -> Seq<char> {
    "No such page"@
}

/// The question for remote page `remote_page` of the standings of league
/// `league_id`. The remote source counts pages in 32 bits; a page beyond
/// that is refused as input.
pub fn standings_endpoint(league_id: i32, remote_page: u64) -> (r: Result<Endpoint, FplBotError>)
    ensures
        if remote_page <= i32::MAX {
            r == Ok::<Endpoint, FplBotError>(
                Endpoint::LeagueStandings(league_id, Some(remote_page as i32)),
            )
        } else {
            r matches Err(FplBotError::Input(detail)) && detail@ == no_remote_page_text()
        },
{
    if remote_page <= 2147483647 {
        Ok(Endpoint::LeagueStandings(league_id, Some(remote_page as i32)))
    } else {
        Err(FplBotError::Input(String::from_str("No such page")))
    }
}

} // verus!
