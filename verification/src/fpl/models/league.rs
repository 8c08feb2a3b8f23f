//! A classic league and one page of its standings.
//!
//! Points in time are seconds since the Unix epoch, in UTC.

use vstd::prelude::*;

verus! {

/// One answer of the remote source for a classic league: the league, one
/// page of its standings and one page of its newly joined managers.
#[derive(Debug, Clone)]
pub struct LeagueStandings {
    /// Managers who joined since the standings were last drawn up
    pub new_managers: NewManagers,
    /// When the data was last updated
    pub last_updated: i64,
    /// The league itself
    pub league_info: LeagueInfo,
    /// The page of standings
    pub standings: Standings,
}

/// One page of the managers who joined a league recently.
#[derive(Debug, Clone)]
pub struct NewManagers {
    /// Whether a further page follows
    pub has_next: bool,
    /// Number of this page, counted from one
    pub page: i32,
    /// The managers on this page
    pub managers: Vec<LeagueManager>,
}

/// A league: what it is called and how it is run. A value is made for each
/// answer of the remote source and never changed.
#[derive(Debug, Clone)]
pub struct LeagueInfo {
    /// Unique league ID
    pub id: i32,
    /// League name
    pub league_name: String,
    /// When the league was created
    pub created_date: i64,
    /// Whether the league is closed to new entries
    pub is_closed: bool,
    /// Maximum number of managers allowed (if set)
    pub max_managers: Option<i32>,
    /// Type of league (e.g., "s" for standard)
    pub scoring_type: String,
    /// Scoring method (e.g., "c" for classic)
    pub scoring_method: String,
    /// Manager ID of the league admin (if any)
    pub admin_manager_id: Option<i32>,
    /// Gameweek when league scoring started
    pub start_gameweek: i32,
    /// Privacy setting (e.g., "p" for public)
    pub privacy_setting: String,
    /// Whether the league has a cup competition
    pub has_cup_competition: bool,
    /// ID of associated cup league (if any)
    pub cup_league_id: Option<i32>,
    /// Overall rank of this league (if applicable)
    pub league_rank: Option<i32>,
}

/// One page of a league's standings: the rows in the order of the remote
/// source, by rank, and whether a further page follows.
#[derive(Debug, Clone)]
pub struct Standings {
    /// Whether a further page follows
    pub has_next: bool,
    /// Number of this page, counted from one
    pub page: i32,
    /// The rows of this page
    pub managers: Vec<StandingsManager>,
}

/// A manager as listed among a league's new entries.
#[derive(Debug, Clone)]
pub struct LeagueManager {
    /// Manager's entry ID
    pub id: i32,
    /// League name
    pub league_name: String,
    /// When the manager joined
    pub created_date: i64,
    /// Whether the league is closed
    pub is_closed: bool,
    /// League admin's manager ID
    pub admin_manager_id: i32,
    /// Gameweek when league started
    pub start_gameweek: i32,
    /// Whether this manager can leave the league
    pub can_leave: bool,
    /// Whether this manager can admin the league
    pub can_admin: bool,
    /// Whether this manager can invite others
    pub can_invite: bool,
    /// Total number of managers in the league
    pub total_managers: i32,
    /// Manager's percentile rank
    pub percentile_rank: i32,
    /// Manager's current rank
    pub current_rank: i32,
    /// Manager's previous rank
    pub previous_rank: i32,
}

/// One row of a league's standings.
#[derive(Debug, Clone)]
pub struct StandingsManager {
    /// Manager's unique ID
    pub id: i32,
    /// Points scored in the current gameweek
    pub gameweek_points: i32,
    /// Manager's display name
    pub manager_name: String,
    /// Current position in the league
    pub current_rank: i32,
    /// Previous position in the league
    pub previous_rank: i32,
    /// Rank used for sorting
    pub sort_rank: i32,
    /// Total points accumulated
    pub total_points: i32,
    /// Manager's entry/team ID
    pub manager_id: i32,
    /// Manager's team name
    pub team_name: String,
    /// Whether the manager has played this gameweek
    pub has_played: bool,
}

} // verus!
