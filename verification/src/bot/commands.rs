//! The commands, each as the computation behind its answer.

pub mod check_channel_league_id;
pub mod check_manager_id;
pub mod check_team;
pub mod fixtures;
pub mod standings;
pub mod update_channel_league_id;
pub mod update_manager_id;
