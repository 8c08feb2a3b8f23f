use fplbot::database::models::{DBChannel, DBUser};
use fplbot::fpl::client::{base_url, request, standings_endpoint, Endpoint};
use fplbot::fpl::models::gameweek::{PlayerPointsExplanation, StatPointsBreakdown};
use fplbot::fpl::models::manager::{Manager, ManagerLeague};
use fplbot::fpl::models::teams::get_team_name;
use fplbot::utils::error::FplBotError;
use fplbot::utils::type_conversion::{first_number, r_option_to_i32, ResolvedOption, ResolvedValue};

#[test]
fn team_names_by_number() {
    let arsenal = get_team_name(1);
    assert_eq!(arsenal.name, "Arsenal");
    assert_eq!(arsenal.short_name, "ARS");
    let expected = [
        ("Arsenal", "ARS"),
        ("Aston Villa", "AVL"),
        ("Burnley", "BUR"),
        ("Bournemouth", "BOU"),
        ("Brentford", "BRE"),
        ("Brighton", "BHA"),
        ("Chelsea", "CHE"),
        ("Crystal Palace", "CRY"),
        ("Everton", "EVE"),
        ("Fulham", "FUL"),
        ("Leeds", "LEE"),
        ("Liverpool", "LIV"),
        ("Man City", "MCI"),
        ("Man Utd", "MUN"),
        ("Newcastle", "NEW"),
        ("Nott'm Forest", "NFO"),
        ("Sunderland", "SUN"),
        ("Spurs", "TOT"),
        ("West Ham", "WHU"),
        ("Wolves", "WOL"),
    ];
    for (i, (name, short_name)) in expected.iter().enumerate() {
        let team = get_team_name(i as i32 + 1);
        assert_eq!(team.name, *name);
        assert_eq!(team.short_name, *short_name);
    }
}

#[test]
fn unknown_team_numbers() {
    for id in [0, -1, 21, i32::MAX, i32::MIN] {
        let team = get_team_name(id);
        assert_eq!(team.name, "Unknown");
        assert_eq!(team.short_name, "???");
    }
}

#[test]
fn a_new_manager_knows_only_its_id() {
    let manager = Manager::new(123456);
    assert_eq!(manager.id, 123456);
    assert_eq!(manager.team_name, "");
    assert_eq!(manager.first_name, "");
    assert_eq!(manager.last_name, "");
    assert_eq!(manager.total_points, 0);
    assert_eq!(manager.gw_points, 0);
    assert!(manager.get_league_ids().is_empty());
}

#[test]
fn league_ids_come_in_order() {
    let mut manager = Manager::new(1);
    manager.leagues = vec![
        ManagerLeague { id: 314, name: "Overall".to_string() },
        ManagerLeague { id: 7, name: "Friends".to_string() },
    ];
    assert_eq!(
        manager.get_league_ids(),
        vec![(314, "Overall".to_string()), (7, "Friends".to_string())]
    );
}

#[test]
fn records_hold_what_they_are_given() {
    let user = DBUser { discord_id: 42, manager_id: Some(7) };
    assert_eq!(user.discord_id, 42);
    assert_eq!(user.manager_id, Some(7));
    let channel = DBChannel { channel_id: 43, default_league_id: None };
    assert_eq!(channel.channel_id, 43);
    assert_eq!(channel.default_league_id, None);
    let explanation = PlayerPointsExplanation {
        fixture: 3,
        stats: vec![StatPointsBreakdown {
            identifier: "minutes".to_string(),
            points: 2,
            value: 90,
            points_modification: 0,
        }],
    };
    assert_eq!(explanation.stats[0].points, 2);
}

#[test]
fn the_base_address() {
    assert_eq!(base_url(), "https://fantasy.premierleague.com/api");
}

#[test]
fn requests_have_a_path_between_slashes() {
    let base = base_url();
    let cases = [
        (Endpoint::General, "bootstrap-static"),
        (Endpoint::Fixtures(None), "fixtures"),
        (Endpoint::Fixtures(Some(3)), "fixtures"),
        (Endpoint::League(314), "leagues-classic/314/standings"),
        (Endpoint::LeagueStandings(314, None), "leagues-classic/314/standings"),
        (Endpoint::LeagueStandings(-1, Some(2)), "leagues-classic/-1/standings"),
        (Endpoint::ManagerSummary(5), "entry/5"),
        (Endpoint::ManagerHistory(5), "entry/5/history"),
        (Endpoint::ManagerTransfers(5), "entry/5/transfers"),
        (Endpoint::ManagerTeam(5, 12), "entry/5/event/12/picks"),
        (Endpoint::PlayerSummary(400), "element-summary/400"),
        (Endpoint::Gameweek(38), "event/38/live"),
    ];
    for (endpoint, path) in cases {
        let asked = request(base, &endpoint);
        assert_eq!(asked.url, format!("https://fantasy.premierleague.com/api/{}/", path));
    }
    assert_eq!(request("http://localhost", &Endpoint::General).url, "http://localhost/bootstrap-static/");
}

#[test]
fn two_requests_take_a_query() {
    let base = base_url();
    assert_eq!(
        request(base, &Endpoint::Fixtures(Some(3))).query,
        Some(("event".to_string(), "3".to_string()))
    );
    assert_eq!(
        request(base, &Endpoint::LeagueStandings(314, Some(2))).query,
        Some(("page_standings".to_string(), "2".to_string()))
    );
    assert_eq!(request(base, &Endpoint::Fixtures(None)).query, None);
    assert_eq!(request(base, &Endpoint::LeagueStandings(314, None)).query, None);
    assert_eq!(request(base, &Endpoint::League(314)).query, None);
    assert_eq!(request(base, &Endpoint::ManagerTeam(1, 2)).query, None);
}

#[test]
fn standings_endpoint_for_a_remote_page() {
    assert!(matches!(
        standings_endpoint(314, 2),
        Ok(Endpoint::LeagueStandings(314, Some(2)))
    ));
    assert!(matches!(
        standings_endpoint(314, 2147483647),
        Ok(Endpoint::LeagueStandings(314, Some(i32::MAX)))
    ));
    match standings_endpoint(314, 2147483648) {
        Err(FplBotError::Input(detail)) => assert_eq!(detail, "No such page"),
        other => panic!("{:?}", other),
    }
}

#[test]
fn options_that_hold_a_number() {
    let option = ResolvedOption { name: "id".to_string(), value: ResolvedValue::Integer(77) };
    assert!(matches!(r_option_to_i32(&option), Ok(77)));
    let option =
        ResolvedOption { name: "id".to_string(), value: ResolvedValue::Integer(i32::MIN as i64) };
    assert!(matches!(r_option_to_i32(&option), Ok(i32::MIN)));
    for value in [
        ResolvedValue::Other,
        ResolvedValue::User(1, "u".to_string()),
        ResolvedValue::Integer(i32::MAX as i64 + 1),
        ResolvedValue::Integer(i64::MIN),
    ] {
        let option = ResolvedOption { name: "id".to_string(), value };
        match r_option_to_i32(&option) {
            Err(FplBotError::Input(detail)) => assert_eq!(detail, "Option is not an integer"),
            other => panic!("{:?}", other),
        }
    }
    match first_number(&Vec::new(), "nothing there") {
        Err(FplBotError::Input(detail)) => assert_eq!(detail, "nothing there"),
        other => panic!("{:?}", other),
    }
}
