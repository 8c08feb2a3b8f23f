//! The clubs by their number at the remote source.

use vstd::prelude::*;

verus! {

/// A club's full name and its three-letter short name.
#[derive(Debug, Clone)]
pub struct TeamName {
    /// Full team name (e.g., "Arsenal")
    pub name: &'static str,
    /// Short team name/abbreviation (e.g., "ARS")
    pub short_name: &'static str,
}

/// The full name of club `id`; "Unknown" for a number that no club has.
pub open spec fn team_name_of(id: int) -> Seq<char> {
    if id == 1 {
        "Arsenal"@
    } else if id == 2 {
        "Aston Villa"@
    } else if id == 3 {
        "Burnley"@
    } else if id == 4 {
        "Bournemouth"@
    } else if id == 5 {
        "Brentford"@
    } else if id == 6 {
        "Brighton"@
    } else if id == 7 {
        "Chelsea"@
    } else if id == 8 {
        "Crystal Palace"@
    } else if id == 9 {
        "Everton"@
    } else if id == 10 {
        "Fulham"@
    } else if id == 11 {
        "Leeds"@
    } else if id == 12 {
        "Liverpool"@
    } else if id == 13 {
        "Man City"@
    } else if id == 14 {
        "Man Utd"@
    } else if id == 15 {
        "Newcastle"@
    } else if id == 16 {
        "Nott'm Forest"@
    } else if id == 17 {
        "Sunderland"@
    } else if id == 18 {
        "Spurs"@
    } else if id == 19 {
        "West Ham"@
    } else if id == 20 {
        "Wolves"@
    } else {
        "Unknown"@
    }
}

/// The short name of club `id`; "???" for a number that no club has.
pub open spec fn team_short_name_of(id: int) -> Seq<char> {
    if id == 1 {
        "ARS"@
    } else if id == 2 {
        "AVL"@
    } else if id == 3 {
        "BUR"@
    } else if id == 4 {
        "BOU"@
    } else if id == 5 {
        "BRE"@
    } else if id == 6 {
        "BHA"@
    } else if id == 7 {
        "CHE"@
    } else if id == 8 {
        "CRY"@
    } else if id == 9 {
        "EVE"@
    } else if id == 10 {
        "FUL"@
    } else if id == 11 {
        "LEE"@
    } else if id == 12 {
        "LIV"@
    } else if id == 13 {
        "MCI"@
    } else if id == 14 {
        "MUN"@
    } else if id == 15 {
        "NEW"@
    } else if id == 16 {
        "NFO"@
    } else if id == 17 {
        "SUN"@
    } else if id == 18 {
        "TOT"@
    } else if id == 19 {
        "WHU"@
    } else if id == 20 {
        "WOL"@
    } else {
        "???"@
    }
}

/// The names of club `id`.
pub fn get_team_name(id: i32) -> (team: TeamName)
    ensures
        team.name@ == team_name_of(id as int),
        team.short_name@ == team_short_name_of(id as int),
{
    match id {
        1 => TeamName { name: "Arsenal", short_name: "ARS" },
        2 => TeamName { name: "Aston Villa", short_name: "AVL" },
        3 => TeamName { name: "Burnley", short_name: "BUR" },
        4 => TeamName { name: "Bournemouth", short_name: "BOU" },
        5 => TeamName { name: "Brentford", short_name: "BRE" },
        6 => TeamName { name: "Brighton", short_name: "BHA" },
        7 => TeamName { name: "Chelsea", short_name: "CHE" },
        8 => TeamName { name: "Crystal Palace", short_name: "CRY" },
        9 => TeamName { name: "Everton", short_name: "EVE" },
        10 => TeamName { name: "Fulham", short_name: "FUL" },
        11 => TeamName { name: "Leeds", short_name: "LEE" },
        12 => TeamName { name: "Liverpool", short_name: "LIV" },
        13 => TeamName { name: "Man City", short_name: "MCI" },
        14 => TeamName { name: "Man Utd", short_name: "MUN" },
        15 => TeamName { name: "Newcastle", short_name: "NEW" },
        16 => TeamName { name: "Nott'm Forest", short_name: "NFO" },
        17 => TeamName { name: "Sunderland", short_name: "SUN" },
        18 => TeamName { name: "Spurs", short_name: "TOT" },
        19 => TeamName { name: "West Ham", short_name: "WHU" },
        20 => TeamName { name: "Wolves", short_name: "WOL" },
        _ => TeamName { name: "Unknown", short_name: "???" },
    }
}

} // verus!
