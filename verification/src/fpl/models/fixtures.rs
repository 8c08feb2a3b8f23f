//! The fixtures of a gameweek.
//!
//! Points in time are seconds since the Unix epoch, in UTC.

use vstd::prelude::*;

verus! {

/// The fixtures of one gameweek.
#[derive(Debug, Clone)]
pub struct GameweekFixtures {
    /// The gameweek number these fixtures belong to
    pub gameweek: i32,
    /// List of all fixtures in this gameweek
    pub fixtures: Vec<Fixture>,
}

/// One fixture between a home and an away team.
#[derive(Debug, Clone)]
pub struct Fixture {
    /// Unique fixture ID
    pub id: u32,
    /// Fixture code
    pub code: u64,
    /// Gameweek the fixture is played in (if scheduled)
    pub event: Option<u8>,
    /// ID of the home team
    pub team_h: i32,
    /// ID of the away team
    pub team_a: i32,
    /// Goals of the home team (once known)
    pub team_h_score: Option<u8>,
    /// Goals of the away team (once known)
    pub team_a_score: Option<u8>,
    /// Whether the fixture is over and confirmed
    pub finished: bool,
    /// Whether the fixture is over, subject to confirmation
    pub finished_provisional: bool,
    /// Whether the fixture has kicked off
    pub started: bool,
    /// When the fixture kicks off
    pub kickoff_time: i64,
    /// Minutes played
    pub minutes: u16,
    /// How hard the fixture is for the home team
    pub team_h_difficulty: u8,
    /// How hard the fixture is for the away team
    pub team_a_difficulty: u8,
    /// What happened in the fixture, statistic by statistic
    pub stats: Vec<FixtureStat>,
    /// Whether the kickoff time may still change
    pub provisional_start_time: bool,
    /// The fixture's ID at the data provider
    pub pulse_id: u64,
}

/// One statistic of a fixture (goals, assists and the like), for either side.
#[derive(Debug, Clone)]
pub struct FixtureStat {
    /// Name of the statistic
    pub identifier: String,
    /// Entries of the away team
    pub a: Vec<StatEntry>,
    /// Entries of the home team
    pub h: Vec<StatEntry>,
}

/// What one player contributed to one statistic of a fixture.
#[derive(Debug, Clone)]
pub struct StatEntry {
    /// How often
    pub value: i32,
    /// The player
    pub element: i32,
}

} // verus!
