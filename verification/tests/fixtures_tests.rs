use fplbot::bot::commands::fixtures::{
    build_fixtures_embed, extract_gameweek, fixtures_embed_with, FixturesEmbed,
};
use fplbot::fpl::models::fixtures::{Fixture, FixtureStat, GameweekFixtures, StatEntry};
use fplbot::utils::error::FplBotError;
use fplbot::utils::type_conversion::{ResolvedOption, ResolvedValue};

fn fixture(home: i32, away: i32, kickoff: i64) -> Fixture {
    Fixture {
        id: 1,
        code: 2,
        event: Some(4),
        team_h: home,
        team_a: away,
        team_h_score: None,
        team_a_score: None,
        finished: false,
        finished_provisional: false,
        started: false,
        kickoff_time: kickoff,
        minutes: 0,
        team_h_difficulty: 2,
        team_a_difficulty: 3,
        stats: vec![FixtureStat {
            identifier: "goals_scored".to_string(),
            a: vec![StatEntry { value: 1, element: 5 }],
            h: Vec::new(),
        }],
        provisional_start_time: false,
        pulse_id: 3,
    }
}

fn embed(result: Result<FixturesEmbed, FplBotError>) -> FixturesEmbed {
    match result {
        Ok(embed) => embed,
        Err(error) => panic!("{:?}", error),
    }
}

#[test]
fn fixtures_are_listed_with_their_kickoff() {
    let week = GameweekFixtures {
        gameweek: 4,
        fixtures: vec![fixture(1, 12, 1757801795), fixture(16, 8, 1722506400)],
    };
    let shown = embed(build_fixtures_embed(&week));
    assert_eq!(shown.title, "Gameweek 4");
    assert_eq!(shown.color, 0x37003c);
    let expected = format!(
        "```{:^38}\n{:>17} - {:<18}\n\n{:^38}\n{:>17} - {:<18}\n\n```",
        "13.09 22:16", "Arsenal", "Liverpool", "01.08 10:00", "Nott'm Forest", "Crystal Palace"
    );
    assert_eq!(shown.description, expected);
    assert_eq!(
        shown.description,
        "```             13.09 22:16              \n          Arsenal - Liverpool         \n\n             01.08 10:00              \n    Nott'm Forest - Crystal Palace    \n\n```"
    );
}

#[test]
fn kickoffs_are_written_by_the_calendar() {
    let moment = chrono::DateTime::from_timestamp(951782399, 0).unwrap();
    let label = moment.format("%d.%m %H:%M").to_string();
    assert_eq!(label, "28.02 23:59");
    let week = GameweekFixtures { gameweek: 1, fixtures: vec![fixture(99, 0, 951782399)] };
    let shown = embed(build_fixtures_embed(&week));
    assert_eq!(
        shown.description,
        format!("```{:^38}\n{:>17} - {:<18}\n\n```", label, "Unknown", "Unknown")
    );
    let week = GameweekFixtures { gameweek: 1, fixtures: vec![fixture(1, 2, 0)] };
    assert!(embed(build_fixtures_embed(&week)).description.contains("01.01 00:00"));
    let week = GameweekFixtures { gameweek: 1, fixtures: vec![fixture(1, 2, 253402300799)] };
    assert!(embed(build_fixtures_embed(&week)).description.contains("31.12 23:59"));
}

#[test]
fn a_gameweek_without_fixtures_is_an_empty_block() {
    let week = GameweekFixtures { gameweek: -3, fixtures: Vec::new() };
    let shown = embed(build_fixtures_embed(&week));
    assert_eq!(shown.title, "Gameweek -3");
    assert_eq!(shown.description, "``````");
}

#[test]
fn a_kickoff_beyond_the_calendar_is_a_parse_failure() {
    for kickoff in [i64::MAX, i64::MIN] {
        let week = GameweekFixtures {
            gameweek: 1,
            fixtures: vec![fixture(1, 2, 1757801795), fixture(1, 2, kickoff)],
        };
        match build_fixtures_embed(&week) {
            Err(FplBotError::Parse(detail)) => assert_eq!(detail, "Kickoff time out of range"),
            other => panic!("{:?}", other),
        }
    }
}

#[test]
fn fixtures_with_given_labels() {
    let week = GameweekFixtures { gameweek: 38, fixtures: vec![fixture(20, 19, 0)] };
    let labels = vec!["a very long label that is wider than the column".chars().collect()];
    let shown = fixtures_embed_with(&week, &labels);
    assert_eq!(shown.title, "Gameweek 38");
    assert_eq!(
        shown.description,
        "```a very long label that is wider than the column\n           Wolves - West Ham          \n\n```"
    );
    let labels = vec!["ab".chars().collect()];
    let shown = fixtures_embed_with(&week, &labels);
    assert_eq!(
        shown.description,
        format!("```{:^38}\n{:>17} - {:<18}\n\n```", "ab", "Wolves", "West Ham")
    );
}

#[test]
fn extract_gameweek_takes_the_first_option() {
    let options =
        vec![ResolvedOption { name: "gameweek".to_string(), value: ResolvedValue::Integer(10) }];
    assert!(matches!(extract_gameweek(&options), Ok(10)));
    match extract_gameweek(&Vec::new()) {
        Err(FplBotError::Input(detail)) => assert_eq!(detail, "Please provide a valid gameweek"),
        other => panic!("{:?}", other),
    }
    let options =
        vec![ResolvedOption { name: "gameweek".to_string(), value: ResolvedValue::Other }];
    assert!(matches!(extract_gameweek(&options), Err(FplBotError::Input(_))));
}
