use fplbot::bot::commands::standings::ButtonStyle;
use fplbot::bot::handlers::{
    command_failed, fetch_failed, handle_component_interaction, handle_standings_interaction,
    initial_request, navigate, present, ComponentDecision, FetchPlan,
};
use fplbot::bot::token::NavAction;
use fplbot::fpl::models::league::{
    LeagueInfo, LeagueStandings, NewManagers, Standings, StandingsManager,
};
use fplbot::paging::{NavState, PageSizes};
use fplbot::utils::error::{notice_of, FplBotError};

fn numbered(count: usize) -> Vec<StandingsManager> {
    (1..=count)
        .map(|i| StandingsManager {
            id: i as i32,
            gameweek_points: 10,
            manager_name: format!("Manager {}", i),
            current_rank: i as i32,
            previous_rank: i as i32,
            sort_rank: i as i32,
            total_points: 100,
            manager_id: i as i32,
            team_name: String::new(),
            has_played: true,
        })
        .collect()
}

fn standings(id: i32, rows: usize, has_next: bool) -> LeagueStandings {
    LeagueStandings {
        new_managers: NewManagers { has_next: false, page: 1, managers: Vec::new() },
        last_updated: 0,
        league_info: LeagueInfo {
            id,
            league_name: "Seventy-three".to_string(),
            created_date: 0,
            is_closed: false,
            max_managers: None,
            scoring_type: String::new(),
            scoring_method: String::new(),
            admin_manager_id: None,
            start_gameweek: 1,
            privacy_setting: String::new(),
            has_cup_competition: false,
            cup_league_id: None,
            league_rank: None,
        },
        standings: Standings { has_next, page: 1, managers: numbered(rows) },
    }
}

fn plan(result: Result<FetchPlan, FplBotError>) -> FetchPlan {
    match result {
        Ok(plan) => plan,
        Err(error) => panic!("{:?}", error),
    }
}

#[test]
fn initial_request_asks_for_the_first_remote_page() {
    assert_eq!(initial_request(314), FetchPlan { league_id: 314, ui_page: 0, remote_page: 1 });
}

#[test]
fn navigate_next_moves_on_and_finds_the_remote_page() {
    let sizes = PageSizes::standard();
    let footer = "League ID: 55555 \u{2022} Page 2 of ?";
    assert_eq!(
        plan(navigate(NavAction::Next, footer, &sizes)),
        FetchPlan { league_id: 55555, ui_page: 2, remote_page: 2 }
    );
    let footer = "League ID: 55555 \u{2022} Page 5 of ?";
    assert_eq!(
        plan(navigate(NavAction::Next, footer, &sizes)),
        FetchPlan { league_id: 55555, ui_page: 5, remote_page: 3 }
    );
}

#[test]
fn navigate_prev_stops_at_the_first_page() {
    let sizes = PageSizes::standard();
    assert_eq!(
        plan(navigate(NavAction::Prev, "League ID: 7 \u{2022} Page 3 of 3", &sizes)),
        FetchPlan { league_id: 7, ui_page: 1, remote_page: 1 }
    );
    assert_eq!(
        plan(navigate(NavAction::Prev, "League ID: 7 \u{2022} Page 1 of 3", &sizes)),
        FetchPlan { league_id: 7, ui_page: 0, remote_page: 1 }
    );
}

#[test]
fn navigate_refresh_stays_and_loads_again() {
    let sizes = PageSizes::standard();
    assert_eq!(
        plan(navigate(NavAction::Refresh, "League ID: 7 \u{2022} Page 3 of 3", &sizes)),
        FetchPlan { league_id: 7, ui_page: 2, remote_page: 2 }
    );
}

#[test]
fn navigate_works_with_other_page_sizes() {
    let sizes = PageSizes::new(10, 50).unwrap();
    assert_eq!(
        plan(navigate(NavAction::Next, "League ID: 7 \u{2022} Page 5 of ?", &sizes)),
        FetchPlan { league_id: 7, ui_page: 5, remote_page: 2 }
    );
    let sizes = PageSizes::new(60, 50).unwrap();
    assert_eq!(
        plan(navigate(NavAction::Next, "League ID: 7 \u{2022} Page 1 of ?", &sizes)),
        FetchPlan { league_id: 7, ui_page: 1, remote_page: 2 }
    );
}

#[test]
fn navigate_refuses_a_footer_that_is_none() {
    let sizes = PageSizes::standard();
    match navigate(NavAction::Next, "Manager: Jo \u{2022} ID: 5", &sizes) {
        Err(FplBotError::Parse(detail)) => assert_eq!(detail, "Could not determine league ID"),
        other => panic!("{:?}", other),
    }
}

#[test]
fn navigate_refuses_the_page_behind_the_last_that_can_be_counted() {
    let sizes = PageSizes::standard();
    let footer = "League ID: 5 \u{2022} Page 4294967296 of ?";
    match navigate(NavAction::Next, footer, &sizes) {
        Err(FplBotError::Input(detail)) => assert_eq!(detail, "No such page"),
        other => panic!("{:?}", other),
    }
    assert_eq!(
        plan(navigate(NavAction::Refresh, footer, &sizes)),
        FetchPlan { league_id: 5, ui_page: u32::MAX, remote_page: 2147483648 }
    );
}

#[test]
fn a_pressed_button_leads_to_a_plan() {
    let sizes = PageSizes::standard();
    let footer = "League ID: 55555 \u{2022} Page 2 of ?";
    assert_eq!(
        plan(handle_standings_interaction("standings_next_1", Some(footer), &sizes)),
        FetchPlan { league_id: 55555, ui_page: 2, remote_page: 2 }
    );
    assert_eq!(
        plan(handle_standings_interaction("standings_prev_1", Some(footer), &sizes)),
        FetchPlan { league_id: 55555, ui_page: 0, remote_page: 1 }
    );
    assert_eq!(
        plan(handle_standings_interaction("standings_refresh_9", Some(footer), &sizes)),
        FetchPlan { league_id: 55555, ui_page: 1, remote_page: 1 }
    );
}

#[test]
fn a_pressed_button_without_token_or_footer_fails() {
    let sizes = PageSizes::standard();
    let footer = "League ID: 55555 \u{2022} Page 2 of ?";
    match handle_standings_interaction("hello", Some(footer), &sizes) {
        Err(FplBotError::Input(detail)) => assert_eq!(detail, "Unknown button"),
        other => panic!("{:?}", other),
    }
    match handle_standings_interaction("standings_next_1", None, &sizes) {
        Err(FplBotError::Parse(detail)) => assert_eq!(detail, "Could not determine league ID"),
        other => panic!("{:?}", other),
    }
    match handle_standings_interaction("standings_next_1", Some("nothing"), &sizes) {
        Err(FplBotError::Parse(detail)) => assert_eq!(detail, "Could not determine league ID"),
        other => panic!("{:?}", other),
    }
}

#[test]
fn present_shows_the_page_that_was_asked_for() {
    let sizes = PageSizes::standard();
    let shown = present(0, &standings(314, 50, true), &sizes);
    assert_eq!(shown.ui_page, 0);
    assert_eq!(shown.actions, NavState { can_prev: false, can_next: true });
    assert_eq!(shown.view.footer, "League ID: 314 \u{2022} Page 1 of ?");
    assert_eq!(shown.view.title, "\u{1F3C6}  Seventy-three");
    assert_eq!(shown.view.body.lines().count(), 26);
    assert!(shown.buttons.prev.disabled);
    assert!(!shown.buttons.next.disabled);
    assert_eq!(shown.buttons.next.custom_id, "standings_next_0");
    assert_eq!(shown.buttons.refresh.style, ButtonStyle::Primary);
}

#[test]
fn present_of_the_last_page_of_seventy_three() {
    let sizes = PageSizes::standard();
    let shown = present(2, &standings(314, 23, false), &sizes);
    assert_eq!(shown.ui_page, 2);
    assert_eq!(shown.actions, NavState { can_prev: true, can_next: false });
    assert_eq!(shown.view.footer, "League ID: 314 \u{2022} Page 3 of 3");
    assert_eq!(shown.view.body.lines().count(), 24);
    assert!(shown.view.body.starts_with("```#1 (+0)| Manager 1"));
    assert_eq!(shown.buttons.prev.custom_id, "standings_prev_2");
}

#[test]
fn present_holds_a_page_back_that_lies_behind_the_rows() {
    let sizes = PageSizes::standard();
    let shown = present(3, &standings(314, 23, false), &sizes);
    assert_eq!(shown.ui_page, 2);
    assert_eq!(shown.view.footer, "League ID: 314 \u{2022} Page 3 of 3");
    assert_eq!(shown.actions, NavState { can_prev: true, can_next: false });
    let shown = present(5, &standings(314, 0, false), &sizes);
    assert_eq!(shown.ui_page, 3);
    assert_eq!(shown.view.body, "``````");
    assert_eq!(shown.view.footer, "League ID: 314 \u{2022} Page 4 of 4");
    let shown = present(0, &standings(314, 0, false), &sizes);
    assert_eq!(shown.ui_page, 0);
    assert_eq!(shown.view.footer, "League ID: 314 \u{2022} Page 1 of 0");
    assert_eq!(shown.actions, NavState { can_prev: false, can_next: false });
}

#[test]
fn present_keeps_next_open_while_the_remote_source_has_more() {
    let sizes = PageSizes::standard();
    let shown = present(1, &standings(314, 50, true), &sizes);
    assert_eq!(shown.ui_page, 1);
    assert!(shown.actions.can_next);
    assert!(shown.actions.can_prev);
    let shown = present(1, &standings(314, 50, false), &sizes);
    assert!(!shown.actions.can_next);
    assert_eq!(shown.view.footer, "League ID: 314 \u{2022} Page 2 of 2");
}

#[test]
fn a_view_that_was_shown_can_be_navigated_from() {
    let sizes = PageSizes::standard();
    let shown = present(0, &standings(55555, 50, true), &sizes);
    let next = plan(handle_standings_interaction(
        &shown.buttons.next.custom_id,
        Some(&shown.view.footer),
        &sizes,
    ));
    assert_eq!(next, FetchPlan { league_id: 55555, ui_page: 1, remote_page: 1 });
    let shown = present(next.ui_page, &standings(55555, 50, true), &sizes);
    let next = plan(handle_standings_interaction(
        &shown.buttons.next.custom_id,
        Some(&shown.view.footer),
        &sizes,
    ));
    assert_eq!(next, FetchPlan { league_id: 55555, ui_page: 2, remote_page: 2 });
}

#[test]
fn fetch_failed_is_a_passing_notice() {
    let notice = fetch_failed(&FplBotError::RemoteUnavailable("HTTP Error: 404".to_string()));
    assert_eq!(notice.content, "Error fetching standings: HTTP Error: 404");
    assert!(notice.ephemeral);
    assert!(!notice.replaces_view);
    let notice = fetch_failed(&FplBotError::Parse("Could not determine league ID".to_string()));
    assert_eq!(notice.content, "Error: Could not determine league ID");
    assert!(notice.ephemeral);
}

#[test]
fn command_failed_answers_for_all_to_see() {
    let notice = command_failed(&FplBotError::Input("Please provide a valid league ID".to_string()));
    assert_eq!(notice.content, "Error: Please provide a valid league ID");
    assert!(!notice.ephemeral);
    let notice = command_failed(&FplBotError::Store("Failed to update users manager_id".to_string()));
    assert_eq!(notice.content, "Error: Failed to update users manager_id");
    let notice = command_failed(&FplBotError::RemoteUnavailable("HTTP Error: 404".to_string()));
    assert_eq!(notice.content, "Error: HTTP Error: 404");
    let notice = command_failed(&FplBotError::Parse("no".to_string()));
    assert_eq!(notice.content, "Error: no");
    assert!(!notice.ephemeral);
}

#[test]
fn notice_of_every_kind() {
    assert_eq!(notice_of(&FplBotError::Input("a".to_string())), "Error: a");
    assert_eq!(notice_of(&FplBotError::Parse("b".to_string())), "Error: b");
    assert_eq!(notice_of(&FplBotError::Store("c".to_string())), "Error: c");
    assert_eq!(
        notice_of(&FplBotError::RemoteUnavailable("d".to_string())),
        "Error fetching standings: d"
    );
}

#[test]
fn a_token_that_carries_the_remote_page_leads_to_the_same_plan() {
    let sizes = PageSizes::standard();
    assert_eq!(
        plan(handle_standings_interaction(
            "standings_refresh_0_1",
            Some("League ID: 55555 \u{2022} Page 1 of ?"),
            &sizes
        )),
        FetchPlan { league_id: 55555, ui_page: 0, remote_page: 1 }
    );
    assert_eq!(
        plan(handle_standings_interaction(
            "standings_next_1_1",
            Some("League ID: 55555 \u{2022} Page 2 of ?"),
            &sizes
        )),
        FetchPlan { league_id: 55555, ui_page: 2, remote_page: 2 }
    );
    assert_eq!(
        plan(handle_standings_interaction(
            "standings_prev_0_1",
            Some("League ID: 314 \u{2022} Page 1 of ?"),
            &sizes
        )),
        FetchPlan { league_id: 314, ui_page: 0, remote_page: 1 }
    );
}

#[test]
fn next_behind_the_last_rows_is_held_back() {
    let sizes = PageSizes::standard();
    let next = plan(handle_standings_interaction(
        "standings_next_2_2",
        Some("League ID: 55555 \u{2022} Page 3 of ?"),
        &sizes,
    ));
    assert_eq!(next, FetchPlan { league_id: 55555, ui_page: 3, remote_page: 2 });
    let shown = present(next.ui_page, &standings(55555, 23, false), &sizes);
    assert_eq!(shown.ui_page, 2);
    assert_eq!(shown.view.footer, "League ID: 55555 \u{2022} Page 3 of 3");
    assert_eq!(shown.view.body.lines().count(), 24);
    assert!(!shown.actions.can_next);
}

#[test]
fn a_token_with_or_without_more_behind_the_page_gives_one_plan() {
    let sizes = PageSizes::standard();
    let footer = "League ID: 7 \u{2022} Page 4 of 9";
    for action in ["prev", "next", "refresh"] {
        let short = plan(handle_standings_interaction(
            &format!("standings_{}_3", action),
            Some(footer),
            &sizes,
        ));
        for more in ["_2", "_", "_x", "_2_1"] {
            let long = plan(handle_standings_interaction(
                &format!("standings_{}_3{}", action, more),
                Some(footer),
                &sizes,
            ));
            assert_eq!(short, long);
        }
    }
}

#[test]
fn a_foreign_button_is_told_so() {
    let sizes = PageSizes::standard();
    let footer = "League ID: 55555 \u{2022} Page 2 of ?";
    for token in ["hello", "", "standings", "fixtures_next_1", "Standings_next_1"] {
        match handle_component_interaction(token, Some(footer), &sizes) {
            ComponentDecision::Tell(notice) => {
                assert_eq!(notice.content, "Unknown button");
                assert!(notice.ephemeral);
                assert!(!notice.replaces_view);
            }
            other => panic!("{:?}", other),
        }
    }
}

#[test]
fn a_standings_token_without_page_field_is_not_answered() {
    let sizes = PageSizes::standard();
    let footer = "League ID: 55555 \u{2022} Page 2 of ?";
    for token in ["standings_", "standings_next", "standings_refresh", "standings_1"] {
        assert!(matches!(
            handle_component_interaction(token, Some(footer), &sizes),
            ComponentDecision::Ignore
        ));
        assert!(matches!(
            handle_component_interaction(token, None, &sizes),
            ComponentDecision::Ignore
        ));
    }
}

#[test]
fn a_standings_button_is_loaded_or_its_failure_told() {
    let sizes = PageSizes::standard();
    let footer = "League ID: 55555 \u{2022} Page 2 of ?";
    for token in ["standings_next_1", "standings_next_1_1", "standings_next_9_"] {
        match handle_component_interaction(token, Some(footer), &sizes) {
            ComponentDecision::Load(plan) => {
                assert_eq!(plan, FetchPlan { league_id: 55555, ui_page: 2, remote_page: 2 })
            }
            other => panic!("{:?}", other),
        }
    }
    let cases = [
        ("standings_up_1", Some(footer), "Error: Unknown button"),
        ("standings_next_x_1", Some(footer), "Error: Unknown button"),
        ("standings_next_", Some(footer), "Error: Unknown button"),
        ("standings_next_1", None, "Error: Could not determine league ID"),
        ("standings_next_1_1", Some("nothing"), "Error: Could not determine league ID"),
        (
            "standings_next_1",
            Some("League ID: 5 \u{2022} Page 4294967296 of ?"),
            "Error: No such page",
        ),
    ];
    for (token, footer, content) in cases {
        match handle_component_interaction(token, footer, &sizes) {
            ComponentDecision::Tell(notice) => {
                assert_eq!(notice.content, content);
                assert!(notice.ephemeral);
                assert!(!notice.replaces_view);
            }
            other => panic!("{:?}", other),
        }
    }
}
