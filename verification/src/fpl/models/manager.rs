//! A manager and the classic leagues they play in.

use vstd::prelude::*;

verus! {

/// A classic league as it appears in a manager's own list of leagues.
#[derive(Debug, Clone)]
pub struct ManagerLeague {
    /// League ID
    pub id: i32,
    /// League name
    pub name: String,
}

/// A manager with their team and points.
#[derive(Debug)]
pub struct Manager {
    /// Unique manager ID
    pub id: i32,
    /// Team name chosen by the manager
    pub team_name: String,
    /// Manager's first name
    pub first_name: String,
    /// Manager's last name
    pub last_name: String,
    /// List of classic leagues the manager is in
    pub leagues: Vec<ManagerLeague>,
    /// Total points accumulated across all gameweeks
    pub total_points: i32,
    /// Points scored in the current gameweek
    pub gw_points: i32,
}

impl Manager {
    /// The manager `id`, with nothing else known of them yet: empty names,
    /// no leagues, no points.
    pub fn new(id: i32) -> (manager: Self)
        ensures
            manager.id == id,
            manager.team_name@.len() == 0,
            manager.first_name@.len() == 0,
            manager.last_name@.len() == 0,
            manager.leagues@.len() == 0,
            manager.total_points == 0,
            manager.gw_points == 0,
    {
        Self {
            id,
            team_name: String::new(),
            first_name: String::new(),
            last_name: String::new(),
            leagues: Vec::new(),
            total_points: 0,
            gw_points: 0,
        }
    }

    /// The manager's classic leagues as pairs of ID and name, in order.
    pub fn get_league_ids(&self) -> (ids: Vec<(i32, String)>)
        ensures
            ids@.len() == self.leagues@.len(),
            forall|i: int|
                0 <= i < ids@.len() ==> (#[trigger] ids@[i]).0 == self.leagues@[i].id
                    && ids@[i].1@ == self.leagues@[i].name@,
    {
        let mut ids: Vec<(i32, String)> = Vec::new();
        let mut i: usize = 0;
        while i < self.leagues.len()
            invariant
                i <= self.leagues.len(),
                ids@.len() == i,
                forall|k: int|
                    0 <= k < i ==> (#[trigger] ids@[k]).0 == self.leagues@[k].id && ids@[k].1@
                        == self.leagues@[k].name@,
            decreases self.leagues.len() - i,
        {
            let league = &self.leagues[i];
            ids.push((league.id, league.name.clone()));
            i += 1;
        }
        ids
    }
}

} // verus!
