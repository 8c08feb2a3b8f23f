//! How a player's points of one gameweek came about.

use vstd::prelude::*;

verus! {

/// The points a player took from one fixture, statistic by statistic.
#[derive(Debug, Clone)]
pub struct PlayerPointsExplanation {
    /// The fixture the points come from
    pub fixture: i32,
    /// One entry for each statistic that gave or cost points
    pub stats: Vec<StatPointsBreakdown>,
}

/// The points that one statistic gave in one fixture.
#[derive(Debug, Clone)]
pub struct StatPointsBreakdown {
    /// Name of the statistic (e.g., "goals_scored")
    pub identifier: String,
    /// Points awarded for it
    pub points: i32,
    /// How often it occurred
    pub value: i32,
    /// Points added or taken away afterwards
    pub points_modification: i32,
}

} // verus!
