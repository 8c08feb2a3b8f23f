use fplbot::bot::commands::standings::{
    build_navigation_buttons, build_standings_embed, buttons_for, column_widths,
    extract_league_id, format_name, number_len, push_row, rank_change, render, table_body,
    truncate_name, ButtonStyle, ColumnWidths, EMBED_COLOR,
};
use fplbot::bot::footer::PageTotal;
use fplbot::fpl::models::league::{
    LeagueInfo, LeagueStandings, NewManagers, Standings, StandingsManager,
};
use fplbot::paging::{NavState, PageSizes};
use fplbot::utils::error::FplBotError;
use fplbot::utils::type_conversion::{ResolvedOption, ResolvedValue};

fn manager(name: &str, rank: i32, last: i32, total: i32, gw: i32) -> StandingsManager {
    StandingsManager {
        id: rank,
        gameweek_points: gw,
        manager_name: name.to_string(),
        current_rank: rank,
        previous_rank: last,
        sort_rank: rank,
        total_points: total,
        manager_id: 1000 + rank,
        team_name: format!("Team {}", rank),
        has_played: true,
    }
}

fn league(id: i32, name: &str) -> LeagueInfo {
    LeagueInfo {
        id,
        league_name: name.to_string(),
        created_date: 1722506400,
        is_closed: false,
        max_managers: None,
        scoring_type: "s".to_string(),
        scoring_method: "c".to_string(),
        admin_manager_id: Some(987654),
        start_gameweek: 1,
        privacy_setting: "p".to_string(),
        has_cup_competition: false,
        cup_league_id: None,
        league_rank: None,
    }
}

fn standings(id: i32, name: &str, rows: Vec<StandingsManager>, has_next: bool) -> LeagueStandings {
    LeagueStandings {
        new_managers: NewManagers { has_next: false, page: 1, managers: Vec::new() },
        last_updated: 1757801795,
        league_info: league(id, name),
        standings: Standings { has_next, page: 1, managers: rows },
    }
}

fn numbered(count: usize) -> Vec<StandingsManager> {
    (1..=count).map(|i| manager(&format!("Manager {}", i), i as i32, i as i32, 100, 10)).collect()
}

fn two_rows() -> Vec<StandingsManager> {
    vec![manager("John Doe", 1, 2, 1250, 85), manager("Jane Smith", 2, 1, 1245, 72)]
}

#[test]
fn number_len_counts_digits_and_sign() {
    assert_eq!(number_len(0), 1);
    assert_eq!(number_len(5), 1);
    assert_eq!(number_len(-5), 2);
    assert_eq!(number_len(1250), 4);
    assert_eq!(number_len(i32::MAX), 10);
    assert_eq!(number_len(i32::MIN), 11);
}

#[test]
fn format_name_keeps_a_name_that_fits() {
    let m = manager("John Smith", 1, 1, 0, 0);
    assert_eq!(format_name(&m, 10), "John Smith");
    assert_eq!(format_name(&m, 40), "John Smith");
    assert_eq!(format_name(&manager("", 1, 1, 0, 0), 3), "");
}

#[test]
fn format_name_falls_back_to_first_name_and_initial() {
    let m = manager("John Smith", 1, 1, 0, 0);
    assert_eq!(format_name(&m, 9), "John S.");
    assert_eq!(format_name(&m, 7), "John S.");
    assert_eq!(format_name(&manager(" Lead", 1, 1, 0, 0), 3), " L.");
    assert_eq!(format_name(&manager("Jos\u{00E9} Mar\u{00ED}a", 1, 1, 0, 0), 8), "Jos\u{00E9} M.");
}

#[test]
fn format_name_cuts_the_first_name_last() {
    let m = manager("John Smith", 1, 1, 0, 0);
    assert_eq!(format_name(&m, 6), "John.");
    assert_eq!(format_name(&m, 4), "Joh.");
    assert_eq!(format_name(&m, 1), ".");
    assert_eq!(format_name(&manager("Bartholomew", 1, 1, 0, 0), 5), "Bart.");
    assert_eq!(format_name(&manager("Jo ", 1, 1, 0, 0), 2), "J.");
    assert_eq!(format_name(&manager("A B", 1, 1, 0, 0), 2), "A.");
}

#[test]
fn format_name_counts_code_points_not_bytes() {
    let name = "\u{65E5}\u{672C}\u{8A9E}\u{306E}\u{306A}\u{307E}\u{3048}";
    assert_eq!(format_name(&manager(name, 1, 1, 0, 0), 7), name);
    assert_eq!(
        format_name(&manager(name, 1, 1, 0, 0), 5),
        "\u{65E5}\u{672C}\u{8A9E}\u{306E}."
    );
    assert_eq!(
        format_name(&manager("\u{65E5}\u{672C} \u{8A9E}", 1, 1, 0, 0), 3),
        "\u{65E5}\u{672C}."
    );
}

#[test]
fn format_name_never_exceeds_a_width_of_one_or_more() {
    let names = [
        "",
        "A",
        "Bartholomew",
        "John Smith",
        "John  Smith",
        " leading",
        "trailing ",
        "a b c d e f g",
        "\u{00C5}sa \u{00D8}rn \u{00DC}ber",
        "\u{1F3C6}\u{1F3C6}\u{1F3C6}\u{1F3C6}\u{1F3C6}\u{1F3C6}",
    ];
    for name in names {
        for width in 1..16usize {
            let out = format_name(&manager(name, 1, 1, 0, 0), width);
            assert!(out.chars().count() <= width);
            if name.chars().count() <= width {
                assert_eq!(out, name);
            }
        }
    }
}

#[test]
fn a_width_of_zero_still_gives_the_full_stop() {
    assert_eq!(format_name(&manager("A", 1, 1, 0, 0), 0), ".");
    let cut: String = truncate_name(&"John".chars().collect(), 0).into_iter().collect();
    assert_eq!(cut, ".");
}

#[test]
fn rank_change_is_positive_for_a_rise() {
    assert_eq!(rank_change(&manager("x", 2, 5, 0, 0)), 3);
    assert_eq!(rank_change(&manager("x", 5, 2, 0, 0)), -3);
    assert_eq!(rank_change(&manager("x", i32::MIN, i32::MAX, 0, 0)), 4294967295);
    assert_eq!(rank_change(&manager("x", i32::MAX, i32::MIN, 0, 0)), -4294967295);
}

#[test]
fn column_widths_follow_the_widest_entries() {
    assert_eq!(
        column_widths(&two_rows()),
        ColumnWidths { rank: 2, change: 5, points: 4, gameweek: 4, name: 18 }
    );
    let rows = vec![
        manager("a", 1000, 5, -12, -4),
        manager("b", 7, 10007, 2000, 120),
        manager("c", 12, 12, 0, 0),
    ];
    assert_eq!(
        column_widths(&rows),
        ColumnWidths { rank: 4, change: 8, points: 4, gameweek: 5, name: 12 }
    );
}

#[test]
fn column_widths_without_rows() {
    assert_eq!(
        column_widths(&Vec::new()),
        ColumnWidths { rank: 2, change: 7, points: 4, gameweek: 6, name: 14 }
    );
}

#[test]
fn the_rank_column_is_at_least_two_wide() {
    let rows = vec![manager("a", 1, 1, 5, 5)];
    let widths = column_widths(&rows);
    assert_eq!(widths.rank, 2);
    assert_eq!(widths.change, 4);
    assert_eq!(widths.points, 1);
    assert_eq!(widths.gameweek, 3);
    assert_eq!(widths.name, 23);
}

#[test]
fn the_name_column_is_at_least_five_wide() {
    let rows = vec![manager("a", i32::MIN, i32::MAX, i32::MIN, i32::MIN)];
    let widths = column_widths(&rows);
    assert_eq!(widths.rank, 11);
    assert_eq!(widths.change, 13);
    assert_eq!(widths.points, 11);
    assert_eq!(widths.gameweek, 13);
    assert_eq!(widths.name, 5);
}

#[test]
fn rows_are_laid_out_in_columns() {
    let rows = two_rows();
    let widths = column_widths(&rows);
    let mut out = Vec::new();
    push_row(&mut out, &rows[0], &widths);
    push_row(&mut out, &rows[1], &widths);
    let text: String = out.into_iter().collect();
    assert_eq!(
        text,
        "#1 (+1) | John Doe           | 1250 (85)pts\n#2 (-1) | Jane Smith         | 1245 (72)pts\n"
    );
}

#[test]
fn rows_with_long_names_and_negative_numbers() {
    let rows = vec![
        manager("Bartholomew Fitzgerald-Montgomery", 1000, 5, -12, -4),
        manager("Zo\u{00EB} \u{00C5}kesson-\u{00D8}resund the Third", 7, 10007, 2000, 120),
        manager("Li", 12, 12, 0, 0),
        manager("Maximilianus", 13, 14, 5, 1),
    ];
    let widths = column_widths(&rows);
    let body: String = table_body(&rows, 0, 4, &widths).into_iter().collect();
    let expected = "```\
#1000(-995)  | Bartholomew. | -12  (-4) pts\n\
#7   (+10000)| Zo\u{00EB} \u{00C5}.       | 2000 (120)pts\n\
#12  (+0)    | Li           | 0    (0)  pts\n\
#13  (+1)    | Maximilianus | 5    (1)  pts\n\
```";
    assert_eq!(body, expected);
    for line in body.trim_matches('`').lines() {
        assert_eq!(line.chars().count(), 43);
    }
}

#[test]
fn a_line_is_forty_characters_and_pts() {
    let rows = two_rows();
    let widths = column_widths(&rows);
    let mut out = Vec::new();
    push_row(&mut out, &rows[0], &widths);
    assert_eq!(out.len(), 40 + 4);
}

#[test]
fn table_body_shows_the_window_only() {
    let rows = numbered(30);
    let widths = column_widths(&rows);
    let body: String = table_body(&rows, 25, 5, &widths).into_iter().collect();
    assert!(body.starts_with("```#26(+0)| Manager 26           | 100 (10)pts\n#27(+0)"));
    assert!(body.ends_with("pts\n```"));
    assert_eq!(body.lines().count(), 6);
    let empty: String = table_body(&rows, 30, 0, &widths).into_iter().collect();
    assert_eq!(empty, "``````");
}

#[test]
fn render_gives_title_body_and_footer() {
    let rows = two_rows();
    let sizes = PageSizes::standard();
    let view = render(&rows, &league(123456, "Test League"), 0, PageTotal::Known(1), &sizes);
    assert_eq!(view.title, "\u{1F3C6}  Test League");
    assert_eq!(
        view.body,
        "```#1 (+1) | John Doe           | 1250 (85)pts\n#2 (-1) | Jane Smith         | 1245 (72)pts\n```"
    );
    assert_eq!(view.footer, "League ID: 123456 \u{2022} Page 1 of 1");
}

#[test]
fn render_is_the_same_every_time() {
    let rows = numbered(50);
    let sizes = PageSizes::standard();
    let info = league(55555, "Again");
    let first = render(&rows, &info, 1, PageTotal::Unknown, &sizes);
    for _ in 0..5 {
        let next = render(&rows, &info, 1, PageTotal::Unknown, &sizes);
        assert_eq!(first.title.as_bytes(), next.title.as_bytes());
        assert_eq!(first.body.as_bytes(), next.body.as_bytes());
        assert_eq!(first.footer.as_bytes(), next.footer.as_bytes());
    }
}

#[test]
fn render_keeps_the_columns_of_all_rows() {
    let mut rows = numbered(50);
    rows[49].total_points = 1234567;
    let sizes = PageSizes::standard();
    let view = render(&rows, &league(1, "L"), 0, PageTotal::Unknown, &sizes);
    let first = view.body.lines().next().unwrap();
    assert_eq!(first, "```#1 (+0)| Manager 1        | 100     (10)pts");
}

#[test]
fn render_of_a_page_behind_the_rows_is_empty() {
    let rows = numbered(20);
    let sizes = PageSizes::standard();
    let view = render(&rows, &league(9, "Short"), 1, PageTotal::Known(1), &sizes);
    assert_eq!(view.body, "``````");
    assert_eq!(view.footer, "League ID: 9 \u{2022} Page 2 of 1");
}

#[test]
fn embed_of_the_third_page_of_seventy_three() {
    let page = standings(314, "Seventy-three", numbered(23), false);
    let embed = build_standings_embed(&page, 2);
    assert_eq!(embed.color, EMBED_COLOR);
    assert_eq!(embed.color, 0x37003c);
    assert_eq!(embed.title, "\u{1F3C6}  Seventy-three");
    assert_eq!(embed.footer, "League ID: 314 \u{2022} Page 3 of 3");
    assert_eq!(embed.description.lines().count(), 24);
}

#[test]
fn embed_shows_a_question_mark_while_more_follows() {
    let page = standings(55555, "Big", numbered(50), true);
    let embed = build_standings_embed(&page, 4);
    assert_eq!(embed.footer, "League ID: 55555 \u{2022} Page 5 of ?");
    let embed = build_standings_embed(&page, 1);
    assert_eq!(embed.footer, "League ID: 55555 \u{2022} Page 2 of ?");
    assert_eq!(embed.description.lines().count(), 26);
    assert!(embed.description.starts_with("```#26"));
}

#[test]
fn buttons_carry_tokens_labels_and_state() {
    let buttons = buttons_for(3, NavState { can_prev: true, can_next: false });
    assert_eq!(buttons.prev.custom_id, "standings_prev_3");
    assert_eq!(buttons.next.custom_id, "standings_next_3");
    assert_eq!(buttons.refresh.custom_id, "standings_refresh_3");
    assert_eq!(buttons.prev.label, "\u{2B05}\u{FE0F} Previous");
    assert_eq!(buttons.next.label, "Next \u{27A1}\u{FE0F}");
    assert_eq!(buttons.refresh.label, "\u{1F504} Refresh");
    assert_eq!(buttons.prev.style, ButtonStyle::Secondary);
    assert_eq!(buttons.next.style, ButtonStyle::Secondary);
    assert_eq!(buttons.refresh.style, ButtonStyle::Primary);
    assert!(!buttons.prev.disabled);
    assert!(buttons.next.disabled);
    assert!(!buttons.refresh.disabled);
}

#[test]
fn navigation_buttons_of_first_and_last_page() {
    let first = standings(1, "L", numbered(50), true);
    let buttons = build_navigation_buttons(0, &first);
    assert!(buttons.prev.disabled);
    assert!(!buttons.next.disabled);
    let last = standings(1, "L", numbered(23), false);
    let buttons = build_navigation_buttons(2, &last);
    assert!(!buttons.prev.disabled);
    assert!(buttons.next.disabled);
    let buttons = build_navigation_buttons(1, &standings(1, "L", numbered(50), false));
    assert!(buttons.next.disabled);
    let buttons = build_navigation_buttons(0, &standings(1, "L", numbered(50), false));
    assert!(!buttons.next.disabled);
    let small = standings(1, "L", numbered(2), false);
    let buttons = build_navigation_buttons(0, &small);
    assert!(buttons.prev.disabled);
    assert!(buttons.next.disabled);
    assert!(!buttons.refresh.disabled);
}

fn option(name: &str, value: ResolvedValue) -> ResolvedOption {
    ResolvedOption { name: name.to_string(), value }
}

#[test]
fn extract_league_id_takes_the_first_option() {
    let options = vec![option("league_id", ResolvedValue::Integer(123456))];
    assert!(matches!(extract_league_id(&options), Ok(123456)));
    let options = vec![option("league_id", ResolvedValue::Integer(-1))];
    assert!(matches!(extract_league_id(&options), Ok(-1)));
}

#[test]
fn extract_league_id_refuses_what_is_no_league() {
    let cases = vec![
        Vec::new(),
        vec![option("league_id", ResolvedValue::Other)],
        vec![option("league_id", ResolvedValue::User(5, "u".to_string()))],
        vec![option("league_id", ResolvedValue::Integer(2147483648))],
        vec![option("league_id", ResolvedValue::Integer(-2147483649))],
        vec![option("x", ResolvedValue::Other), option("league_id", ResolvedValue::Integer(5))],
    ];
    for options in cases {
        match extract_league_id(&options) {
            Err(FplBotError::Input(detail)) => {
                assert_eq!(detail, "Please provide a valid league ID")
            }
            _ => panic!("expected an input error"),
        }
    }
}
