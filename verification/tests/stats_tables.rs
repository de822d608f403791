use nhl_tui::stats_tables::{
    GoalieDecision, GoalieRow, GoalieStatsTableWidget, SkaterRow, SkaterStatsTableWidget,
};
use nhl_tui::panels::{BoxscorePanel, SectionKind, SectionTable};
use nhl_tui::table::{Segment, TableWidget};

/// Place each segment's text at its column.
fn compose(line: &[Segment]) -> Vec<char> {
    let mut chars: Vec<char> = Vec::new();
    for seg in line {
        for (i, c) in seg.text.chars().enumerate() {
            let x = seg.x + i;
            while chars.len() <= x {
                chars.push(' ');
            }
            chars[x] = c;
        }
    }
    chars
}

/// The lines drawing the table writes into an area of `width` by `height`
/// cells, each trimmed at its end.
fn render_lines(table: &TableWidget, width: usize, height: usize) -> Vec<String> {
    let mut lines: Vec<String> = table
        .layout_lines("▶", "─")
        .iter()
        .take(height)
        .map(|l| {
            let s: String = compose(l).into_iter().take(width).collect();
            s.trim_end().to_string()
        })
        .collect();
    while lines.len() < height {
        lines.push(String::new());
    }
    lines
}

fn assert_lines(actual: &[String], expected: &[&str]) {
    assert_eq!(actual.len(), expected.len(), "line count");
    for (i, (a, e)) in actual.iter().zip(expected.iter()).enumerate() {
        assert_eq!(a, e, "line {}", i);
    }
}

fn create_test_skater(id: i64, name: &str, pos: &str, g: i32, a: i32) -> SkaterRow {
    let faceoff_winning_pctg: f64 = 0.55;
    SkaterRow {
        player_id: id,
        name: name.to_string(),
        position: pos.to_string(),
        goals: g,
        assists: a,
        points: g + a,
        plus_minus: 2,
        pim: 4,
        hits: 5,
        sog: 8,
        faceoff_pct: Some(format!("{:.1}", faceoff_winning_pctg * 100.0)),
        toi: "18:30".to_string(),
        blocked_shots: 2,
        shifts: 22,
        giveaways: 1,
        takeaways: 3,
    }
}

fn create_test_goalie(
    id: i64,
    name: &str,
    decision: Option<GoalieDecision>,
    sa: i32,
    saves: i32,
) -> GoalieRow {
    GoalieRow {
        player_id: id,
        name: name.to_string(),
        decision,
        shots_against: sa,
        saves,
        goals_against: sa - saves,
        save_pct: Some(format!("{:.3}", saves as f64 / sa as f64)),
        toi: "60:00".to_string(),
        even_strength_shots_against: "15".to_string(),
        power_play_shots_against: "5".to_string(),
        shorthanded_shots_against: "2".to_string(),
    }
}

fn cell_text(table: &nhl_tui::table::TableWidget, row: usize, col: usize) -> String {
    table.get_cell_value(row, col).unwrap().display_text().to_string()
}

#[test]
fn skater_stats_table_test_player_link_column_is_first() {
    let skaters = vec![create_test_skater(8479318, "Auston Matthews", "C", 2, 1)];

    let table = SkaterStatsTableWidget::from_game_stats(skaters);

    // Player column should be the first link column (index 0)
    assert_eq!(table.find_first_link_column(), Some(0));
}

#[test]
fn test_table_shows_player_names() {
    let skaters = vec![create_test_skater(8479318, "Auston Matthews", "C", 2, 1)];

    let table = SkaterStatsTableWidget::from_game_stats(skaters)
        .with_header("Test")
        .with_margin(0);
    let inner = table.table();

    // "Auston Matthews  C  2  1  3  +2  8  5  2  4  55.0  18:30 ..."
    let expected = [
        "Auston Matthews", "C", "2", "1", "3", "+2", "8", "5", "2", "4", "55.0", "18:30", "22",
        "1", "3",
    ];
    for (col, text) in expected.iter().enumerate() {
        assert_eq!(cell_text(inner, 0, col), *text);
    }
    assert_eq!(inner.column_count(), 15);
    assert!(inner.has_header());
}

#[test]
fn skater_table_negative_plus_minus_and_no_faceoffs() {
    let mut skater = create_test_skater(1, "Defender", "D", 0, 0);
    skater.plus_minus = -3;
    skater.faceoff_pct = None;
    let table = SkaterStatsTableWidget::from_game_stats(vec![skater]);
    assert_eq!(cell_text(table.table(), 0, 5), "-3");
    assert_eq!(cell_text(table.table(), 0, 10), "-");
}

#[test]
fn skater_table_keeps_selection_and_focus() {
    let table = SkaterStatsTableWidget::from_game_stats(vec![])
        .with_header("No Skaters")
        .with_selection(0, 0)
        .with_selection_opt(None, Some(2))
        .with_focused(true);
    assert_eq!(table.table().row_count(), 0);
    assert_eq!(table.find_next_link_column(0), None);
    assert_eq!(table.find_previous_link_column(3), None);
}

#[test]
fn goalie_stats_table_test_player_link_column_is_first() {
    let goalies = vec![create_test_goalie(
        8471679,
        "Carey Price",
        Some(GoalieDecision::Win),
        30,
        28,
    )];

    let table = GoalieStatsTableWidget::from_game_stats(goalies);

    // Player column should be the first link column (index 0)
    assert_eq!(table.find_first_link_column(), Some(0));
}

#[test]
fn test_decision_formatting() {
    let win_goalie = create_test_goalie(8471679, "Winner", Some(GoalieDecision::Win), 30, 28);
    let loss_goalie = create_test_goalie(8477424, "Loser", Some(GoalieDecision::Loss), 25, 20);
    let ot_goalie = create_test_goalie(
        8475883,
        "OT Loss",
        Some(GoalieDecision::OvertimeLoss),
        28,
        25,
    );
    let no_decision = create_test_goalie(8478024, "Relief", None, 10, 9);

    let goalies = vec![win_goalie, loss_goalie, ot_goalie, no_decision];

    let table = GoalieStatsTableWidget::from_game_stats(goalies);

    assert_eq!(cell_text(table.table(), 0, 1), "W");
    assert_eq!(cell_text(table.table(), 1, 1), "L");
    assert_eq!(cell_text(table.table(), 2, 1), "OT");
    assert_eq!(cell_text(table.table(), 3, 1), "-");
}

#[test]
fn test_save_percentage_formatting() {
    let perfect_goalie = create_test_goalie(8471679, "Perfect", Some(GoalieDecision::Win), 30, 30);
    let good_goalie = create_test_goalie(8477424, "Good", Some(GoalieDecision::Win), 30, 27);

    let table = GoalieStatsTableWidget::from_game_stats(vec![perfect_goalie, good_goalie]);

    assert_eq!(cell_text(table.table(), 0, 5), "1.000");
    assert_eq!(cell_text(table.table(), 1, 5), "0.900");
}

#[test]
fn test_no_decision() {
    let goalie = create_test_goalie(8471679, "No Decision", None, 30, 28);
    let table = GoalieStatsTableWidget::from_game_stats(vec![goalie]);

    // no decision shows as "-"
    assert_eq!(cell_text(table.table(), 0, 1), "-");
}

#[test]
fn test_null_save_percentage() {
    let mut goalie = create_test_goalie(8471679, "No SV%", Some(GoalieDecision::Win), 0, 0);
    goalie.save_pct = None;

    let table = GoalieStatsTableWidget::from_game_stats(vec![goalie]);

    // null SV% shows as "-"
    assert_eq!(cell_text(table.table(), 0, 5), "-");
}

#[test]
fn test_with_focused_row() {
    let goalies = vec![create_test_goalie(8471679, "Test", Some(GoalieDecision::Win), 30, 28)];

    let table = GoalieStatsTableWidget::from_game_stats(goalies).with_focused_row(Some(0));

    assert_eq!(table.table().row_count(), 1);
}

#[test]
fn goalie_stats_table_test_find_next_link_column() {
    let goalies = vec![create_test_goalie(8471679, "Test", Some(GoalieDecision::Win), 30, 28)];
    let table = GoalieStatsTableWidget::from_game_stats(goalies);

    // Player is column 0 (only link column), so there's no next link
    assert_eq!(table.find_next_link_column(0), None);
}

#[test]
fn test_find_previous_link_column() {
    let goalies = vec![create_test_goalie(8471679, "Test", Some(GoalieDecision::Win), 30, 28)];
    let table = GoalieStatsTableWidget::from_game_stats(goalies);

    // Column 0 is the first link, so no previous link
    assert_eq!(table.find_previous_link_column(0), None);
}

#[test]
fn test_clone_box() {
    let goalies = vec![create_test_goalie(8471679, "Test", Some(GoalieDecision::Win), 30, 28)];
    let table = GoalieStatsTableWidget::from_game_stats(goalies);

    let _cloned: Box<GoalieStatsTableWidget> = table.clone_box();
    // If we get here, clone_box() worked
}

#[test]
fn test_preferred_height() {
    let goalies = vec![create_test_goalie(8471679, "Test", Some(GoalieDecision::Win), 30, 28)];
    let table = GoalieStatsTableWidget::from_game_stats(goalies);

    // column headers, separator, one row
    assert_eq!(table.preferred_height(), Some(3));
}

#[test]
fn test_preferred_width() {
    let goalies = vec![create_test_goalie(8471679, "Test", Some(GoalieDecision::Win), 30, 28)];
    let table = GoalieStatsTableWidget::from_game_stats(goalies);

    // 20 + 3 + 3 + 5 + 2 + 5 + 5 + 5 + 5 + 5 columns and 9 gaps of 2
    assert_eq!(table.preferred_width(), Some(58 + 18));
}

#[test]
fn skater_stats_table_test_game_stats_table_renders() {
    let skaters = vec![
        create_test_skater(8479318, "Auston Matthews", "C", 2, 1),
        create_test_skater(8478402, "Connor McDavid", "C", 1, 3),
    ];

    let table = SkaterStatsTableWidget::from_game_stats(skaters)
        .with_header("Forwards")
        .with_selection(0, 0)
        .with_focused(true);

    let lines = render_lines(table.table(), 80, 10);
    assert_eq!(lines.len(), 10);
    assert_eq!(lines[0], "  Forwards");
    assert!(lines[5].contains("Auston Matthews"));
    assert!(lines[6].contains("Connor McDavid"));
}

#[test]
fn skater_stats_table_test_table_with_no_data() {
    let table = SkaterStatsTableWidget::from_game_stats(vec![])
        .with_header("No Skaters")
        .with_focused(false);

    let lines = render_lines(table.table(), 80, 10);
    assert_eq!(lines.len(), 10);
    assert_eq!(lines[0], "  No Skaters");
    assert_eq!(lines[5], "");
}

#[test]
fn test_table_shows_all_stat_columns() {
    let skater = create_test_skater(8479318, "A. Matthews", "C", 2, 1);

    let table = SkaterStatsTableWidget::from_game_stats(vec![skater])
        .with_header("Stats")
        .with_margin(0);

    let lines = render_lines(table.table(), 100, 10);
    assert_lines(&lines, &[
        "  Stats",
        "  ═════",
        "",
        "  Player                Pos  G   A   PTS  +/-  SOG  H...  Blk  PIM  FO%    TOI    S...  G...  T...",
        "  ────────────────────────────────────────────────────────────────────────────────────────────────",
        "  A. Matthews            C    2   1    3   +2    8     5    2    4   55.0  18...    22     1     3",
        "",
        "",
        "",
        "",
    ]);
}

#[test]
fn skater_table_renders_like_the_buffer_of_the_player_names_test() {
    let skaters = vec![create_test_skater(8479318, "Auston Matthews", "C", 2, 1)];

    let table = SkaterStatsTableWidget::from_game_stats(skaters)
        .with_header("Test")
        .with_margin(0);

    let lines = render_lines(table.table(), 80, 10);
    assert_lines(&lines, &[
        "  Test",
        "  ════",
        "",
        "  Player                Pos  G   A   PTS  +/-  SOG  H...  Blk  PIM  FO%    TOI",
        "  ──────────────────────────────────────────────────────────────────────────────",
        "  Auston Matthews        C    2   1    3   +2    8     5    2    4   55.0  18...",
        "",
        "",
        "",
        "",
    ]);
}

#[test]
fn goalie_stats_table_test_game_stats_table_renders() {
    let goalies = vec![
        create_test_goalie(8471679, "Carey Price", Some(GoalieDecision::Win), 30, 28),
        create_test_goalie(8477424, "Andrei Vasilevskiy", Some(GoalieDecision::Loss), 25, 22),
    ];

    let table = GoalieStatsTableWidget::from_game_stats(goalies).with_focused_row(Some(0));

    let lines = render_lines(table.table(), 80, 10);
    assert_eq!(lines.len(), 10);
    assert!(lines[2].starts_with("▶ Carey Price"));
    assert!(lines[3].starts_with("  Andrei Vasilevskiy"));
}

#[test]
fn goalie_stats_table_test_table_with_no_data() {
    let table = GoalieStatsTableWidget::from_game_stats(vec![]);

    let lines = render_lines(table.table(), 80, 10);
    assert_eq!(lines.len(), 10);
    assert_eq!(lines[2], "");
}

#[test]
fn test_table_shows_goalie_names() {
    let goalies = vec![create_test_goalie(8471679, "Carey Price", Some(GoalieDecision::Win), 30, 28)];

    let table = GoalieStatsTableWidget::from_game_stats(goalies);

    let lines = render_lines(table.table(), 80, 10);
    assert_lines(&lines, &[
        "  Player                Dec  SA   Sa...  GA  SV%    TOI    EV...  PP...  SH...",
        "  ────────────────────────────────────────────────────────────────────────────",
        "  Carey Price            W    30     28   2  0....  60...     15      5      2",
        "",
        "",
        "",
        "",
        "",
        "",
        "",
    ]);
}

#[test]
fn boxscore_team_sections_hold_titled_tables() {
    let forwards: Vec<SkaterRow> =
        (0..11).map(|i| create_test_skater(i, &format!("F{}", i), "C", 1, 0)).collect();
    let defense: Vec<SkaterRow> =
        (0..6).map(|i| create_test_skater(100 + i, &format!("D{}", i), "D", 0, 1)).collect();
    let goalies = vec![create_test_goalie(200, "Saros", Some(GoalieDecision::Win), 30, 28)];
    let (layout, tables) =
        BoxscorePanel::team_stats_sections(forwards, defense, goalies, "NSH", "Away", 12, 7, 2);
    assert_eq!(layout.constraints, vec![17, 1, 12, 1, 7]);
    assert_eq!(tables.len(), 3);
    let kinds: Vec<SectionKind> = layout.sections.iter().map(|s| s.kind).collect();
    assert_eq!(kinds, vec![SectionKind::Forwards, SectionKind::Defense, SectionKind::Goalies]);
    let title = |t: &SectionTable| match t {
        SectionTable::Skaters(w) => compose(&w.table().layout_lines("▶", "─")[0]).into_iter().collect::<String>(),
        SectionTable::Goalies(w) => compose(&w.table().layout_lines("▶", "─")[0]).into_iter().collect::<String>(),
    };
    assert_eq!(title(&tables[0]).trim(), "NSH Away - Forwards");
    assert_eq!(title(&tables[1]).trim(), "NSH Away - Defense");
    assert_eq!(title(&tables[2]).trim(), "NSH Away - Goalies");
    match &tables[1] {
        SectionTable::Skaters(w) => {
            assert_eq!(w.table().row_count(), 6);
            assert_eq!(cell_text(w.table(), 0, 0), "D0");
        }
        _ => panic!("Expected the defense's skater table"),
    }
    match &tables[2] {
        SectionTable::Goalies(w) => assert_eq!(cell_text(w.table(), 0, 0), "Saros"),
        _ => panic!("Expected the goalie table"),
    }
    // No goalies of its own: no goalie table, though the area stays.
    let (layout, tables) = BoxscorePanel::team_stats_sections(vec![], vec![], vec![], "PIT", "Home", 12, 7, 2);
    assert_eq!(layout.constraints, vec![17, 1, 12, 1, 7]);
    assert!(tables.is_empty());
}

#[test]
fn goalie_table_takes_a_header() {
    let t = GoalieStatsTableWidget::from_game_stats(vec![create_test_goalie(1, "A", None, 10, 9)])
        .with_header("PIT Home - Goalies");
    let first: String = compose(&t.table().layout_lines("▶", "─")[0]).into_iter().collect();
    assert_eq!(first.trim(), "PIT Home - Goalies");
}
