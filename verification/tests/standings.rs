use nhl_tui::document::{Document, FocusContext};
use nhl_tui::elements::DocumentElement;
use nhl_tui::standings::{
    create_standings_table, create_standings_table_with_selection, standings_columns,
    ConferenceStandingsDocument, DivisionStandingsDocument, LeagueStandingsDocument, StandingRow,
    WildcardStandingsDocument,
};
use nhl_tui::table::{Segment, TableWidget};

fn team(name: &str, abbrev: &str, division: &str, w: i32, l: i32, ot: i32, pts: i32) -> StandingRow {
    let conference = if division == "Atlantic" || division == "Metropolitan" {
        "Eastern"
    } else {
        "Western"
    };
    StandingRow {
        team_common_name: name.to_string(),
        team_abbrev: abbrev.to_string(),
        division_name: division.to_string(),
        conference_name: Some(conference.to_string()),
        wins: w,
        losses: l,
        ot_losses: ot,
        points: pts,
    }
}

fn create_test_standings() -> Vec<StandingRow> {
    vec![
        team("Panthers", "FLA", "Atlantic", 14, 3, 2, 30),
        team("Bruins", "BOS", "Atlantic", 13, 4, 1, 27),
        team("Maple Leafs", "TOR", "Atlantic", 12, 5, 2, 26),
        team("Lightning", "TBL", "Atlantic", 11, 6, 1, 23),
        team("Canadiens", "MTL", "Atlantic", 10, 5, 3, 23),
        team("Senators", "OTT", "Atlantic", 9, 7, 2, 20),
        team("Red Wings", "DET", "Atlantic", 8, 8, 2, 18),
        team("Sabres", "BUF", "Atlantic", 6, 10, 2, 14),
        team("Devils", "NJD", "Metropolitan", 15, 2, 1, 31),
        team("Hurricanes", "CAR", "Metropolitan", 14, 3, 2, 30),
        team("Rangers", "NYR", "Metropolitan", 12, 5, 1, 25),
        team("Penguins", "PIT", "Metropolitan", 11, 6, 2, 24),
        team("Capitals", "WSH", "Metropolitan", 10, 7, 1, 21),
        team("Islanders", "NYI", "Metropolitan", 9, 7, 2, 20),
        team("Flyers", "PHI", "Metropolitan", 8, 9, 1, 17),
        team("Blue Jackets", "CBJ", "Metropolitan", 5, 11, 2, 12),
        team("Avalanche", "COL", "Central", 16, 2, 1, 33),
        team("Stars", "DAL", "Central", 14, 4, 2, 30),
        team("Jets", "WPG", "Central", 13, 5, 1, 27),
        team("Wild", "MIN", "Central", 11, 6, 2, 24),
        team("Predators", "NSH", "Central", 10, 7, 2, 22),
        team("Blues", "STL", "Central", 8, 8, 3, 19),
        team("Blackhawks", "CHI", "Central", 7, 10, 1, 15),
        team("Coyotes", "ARI", "Central", 4, 13, 1, 9),
        team("Golden Knights", "VGK", "Pacific", 15, 3, 1, 31),
        team("Oilers", "EDM", "Pacific", 14, 4, 2, 30),
        team("Kings", "LAK", "Pacific", 12, 6, 1, 25),
        team("Kraken", "SEA", "Pacific", 11, 6, 2, 24),
        team("Canucks", "VAN", "Pacific", 10, 7, 2, 22),
        team("Flames", "CGY", "Pacific", 9, 8, 2, 20),
        team("Ducks", "ANA", "Pacific", 7, 10, 2, 16),
        team("Sharks", "SJS", "Pacific", 5, 12, 1, 11),
    ]
}

/// Place each segment's text at its column and trim the line's end.
fn compose(line: &[Segment]) -> String {
    let mut chars: Vec<char> = Vec::new();
    for seg in line {
        for (i, c) in seg.text.chars().enumerate() {
            let x = seg.x + i;
            while chars.len() <= x {
                chars.push(' ');
            }
            chars[x] = c;
        }
    }
    let s: String = chars.into_iter().collect();
    s.trim_end().to_string()
}

fn table_lines(table: &TableWidget) -> Vec<String> {
    table.layout_lines("▶", "─").iter().map(|l| compose(l)).collect()
}

fn assert_lines(actual: &[String], expected: &[&str]) {
    assert_eq!(actual.len(), expected.len(), "line count");
    for (i, (a, e)) in actual.iter().zip(expected.iter()).enumerate() {
        assert_eq!(a, e, "line {}", i);
    }
}

// === Standings table ===

#[test]
fn test_standings_columns_initialized() {
    let columns = standings_columns();
    assert_eq!(columns.len(), 6);
    assert_eq!(columns[0].header, "Team");
    assert_eq!(columns[1].header, "GP");
    assert_eq!(columns[2].header, "W");
    assert_eq!(columns[3].header, "L");
    assert_eq!(columns[4].header, "OT");
    assert_eq!(columns[5].header, "PTS");
}

#[test]
fn test_create_standings_table() {
    let standings = create_test_standings();
    let table = create_standings_table(standings.clone());
    assert_eq!(table.row_count(), standings.len());
}

#[test]
fn test_create_standings_table_renders_correctly() {
    let standings: Vec<_> = create_test_standings().into_iter().take(4).collect();
    let table = create_standings_table(standings);
    let height = table.preferred_height().unwrap();
    assert_eq!(height, 6);
    assert_lines(
        &table_lines(&table),
        &[
            "  Team                        GP    W     L    OT   PTS",
            "  ───────────────────────────────────────────────────────",
            "  Panthers                      19    14    3    2     30",
            "  Bruins                        18    13    4    1     27",
            "  Maple Leafs                   19    12    5    2     26",
            "  Lightning                     18    11    6    1     23",
        ],
    );
}

#[test]
fn test_create_standings_table_with_selection() {
    let standings: Vec<_> = create_test_standings().into_iter().take(3).collect();
    let table = create_standings_table_with_selection(standings, Some(1));
    assert_lines(
        &table_lines(&table),
        &[
            "  Team                        GP    W     L    OT   PTS",
            "  ───────────────────────────────────────────────────────",
            "  Panthers                      19    14    3    2     30",
            "▶ Bruins                        18    13    4    1     27",
            "  Maple Leafs                   19    12    5    2     26",
        ],
    );
}

// === League standings ===

#[test]
fn test_league_standings_document_renders() {
    let doc = LeagueStandingsDocument::new(create_test_standings());
    let elements = doc.build(&FocusContext::default());
    assert_eq!(elements.len(), 1);
    match &elements[0] {
        DocumentElement::Table { widget, focusable } => {
            assert_eq!(widget.row_count(), 32);
            assert_eq!(focusable.len(), 32);
        }
        _ => panic!("Expected Table element"),
    }
}

#[test]
fn test_league_standings_document_full_render() {
    let doc = LeagueStandingsDocument::new(create_test_standings());
    let height = doc.calculate_height().unwrap();
    assert_eq!(height, 34);
    let elements = doc.build(&FocusContext::default());
    let table = match &elements[0] {
        DocumentElement::Table { widget, .. } => widget,
        _ => panic!("Expected Table element"),
    };
    assert_lines(
        &table_lines(table),
        &[
            "  Team                        GP    W     L    OT   PTS",
            "  ───────────────────────────────────────────────────────",
            "  Panthers                      19    14    3    2     30",
            "  Bruins                        18    13    4    1     27",
            "  Maple Leafs                   19    12    5    2     26",
            "  Lightning                     18    11    6    1     23",
            "  Canadiens                     18    10    5    3     23",
            "  Senators                      18     9    7    2     20",
            "  Red Wings                     18     8    8    2     18",
            "  Sabres                        18     6   10    2     14",
            "  Devils                        18    15    2    1     31",
            "  Hurricanes                    19    14    3    2     30",
            "  Rangers                       18    12    5    1     25",
            "  Penguins                      19    11    6    2     24",
            "  Capitals                      18    10    7    1     21",
            "  Islanders                     18     9    7    2     20",
            "  Flyers                        18     8    9    1     17",
            "  Blue Jackets                  18     5   11    2     12",
            "  Avalanche                     19    16    2    1     33",
            "  Stars                         20    14    4    2     30",
            "  Jets                          19    13    5    1     27",
            "  Wild                          19    11    6    2     24",
            "  Predators                     19    10    7    2     22",
            "  Blues                         19     8    8    3     19",
            "  Blackhawks                    18     7   10    1     15",
            "  Coyotes                       18     4   13    1      9",
            "  Golden Knights                19    15    3    1     31",
            "  Oilers                        20    14    4    2     30",
            "  Kings                         19    12    6    1     25",
            "  Kraken                        19    11    6    2     24",
            "  Canucks                       19    10    7    2     22",
            "  Flames                        19     9    8    2     20",
            "  Ducks                         19     7   10    2     16",
            "  Sharks                        18     5   12    1     11",
        ],
    );
}

#[test]
fn test_league_standings_document_with_focus() {
    let doc = LeagueStandingsDocument::new(create_test_standings());
    let focus = FocusContext::with_table_cell("league_standings", 2, 0);
    let elements = doc.build(&focus);
    match &elements[0] {
        DocumentElement::Table { widget, .. } => {
            assert_eq!(widget.row_count(), 32);
        }
        _ => panic!("Expected Table element"),
    }
}

#[test]
fn test_league_standings_document_metadata() {
    let doc = LeagueStandingsDocument::new(create_test_standings());
    assert_eq!(doc.title(), "League Standings");
    assert_eq!(doc.id(), "league_standings");
}

#[test]
fn test_league_standings_focusable_positions() {
    let doc = LeagueStandingsDocument::new(create_test_standings());
    let positions = doc.focusable_positions().unwrap();
    assert_eq!(positions.len(), 32);
    assert_eq!(positions[0], 2);
    for i in 1..positions.len() {
        assert_eq!(positions[i], positions[i - 1] + 1);
    }
}

// === Conference standings ===

#[test]
fn test_conference_standings_document_renders() {
    let doc = ConferenceStandingsDocument::new(create_test_standings(), false);
    let elements = doc.build(&FocusContext::default());
    assert_eq!(elements.len(), 1);
    match &elements[0] {
        DocumentElement::Row { children, .. } => {
            assert_eq!(children.len(), 2);
            for child in children {
                match child {
                    DocumentElement::Table { widget, .. } => {
                        assert_eq!(widget.row_count(), 16);
                    }
                    _ => panic!("Expected Table element in Row"),
                }
            }
        }
        _ => panic!("Expected Row element"),
    }
}

#[test]
fn test_conference_standings_document_metadata() {
    let doc = ConferenceStandingsDocument::new(create_test_standings(), false);
    assert_eq!(doc.title(), "Conference Standings");
    assert_eq!(doc.id(), "conference_standings");
}

#[test]
fn test_conference_standings_focusable_positions() {
    let doc = ConferenceStandingsDocument::new(create_test_standings(), false);
    let positions = doc.focusable_positions().unwrap();
    assert_eq!(positions.len(), 32);
    for i in 0..16 {
        assert_eq!(positions[i], 5 + i as u16, "Left column position {} should be {}", i, 5 + i);
    }
    for i in 0..16 {
        assert_eq!(positions[16 + i], 5 + i as u16, "Right column position {} should be {}", i, 5 + i);
    }
}

#[test]
fn test_conference_standings_row_positions() {
    let doc = ConferenceStandingsDocument::new(create_test_standings(), false);
    let row_positions = doc.focusable_row_positions().unwrap();
    assert_eq!(row_positions.len(), 32);
    assert!(row_positions.iter().all(|rp| rp.is_some()));
    let column_0_count = row_positions
        .iter()
        .filter(|rp| rp.as_ref().map_or(false, |p| p.child_idx == 0))
        .count();
    let column_1_count = row_positions
        .iter()
        .filter(|rp| rp.as_ref().map_or(false, |p| p.child_idx == 1))
        .count();
    assert_eq!(column_0_count, 16);
    assert_eq!(column_1_count, 16);
}

#[test]
fn test_conference_standings_respects_western_first_config() {
    for western_first in [false, true] {
        let doc = ConferenceStandingsDocument::new(create_test_standings(), western_first);
        let elements = doc.build(&FocusContext::default());
        match &elements[0] {
            DocumentElement::Row { children, .. } => {
                assert_eq!(children.len(), 2);
                assert!(matches!(children[0], DocumentElement::Table { .. }));
                assert!(matches!(children[1], DocumentElement::Table { .. }));
            }
            _ => panic!("Expected Row element"),
        }
    }
}

// === Division standings ===

#[test]
fn test_division_standings_document_renders() {
    let doc = DivisionStandingsDocument::new(create_test_standings(), false);
    let elements = doc.build(&FocusContext::default());
    assert_eq!(elements.len(), 1);
    match &elements[0] {
        DocumentElement::Row { children, .. } => {
            assert_eq!(children.len(), 2);
            for child in children {
                match child {
                    DocumentElement::Group { children: group_children, .. } => {
                        assert_eq!(group_children.len(), 3);
                        assert!(matches!(group_children[0], DocumentElement::Table { .. }));
                        assert!(matches!(group_children[1], DocumentElement::Spacer { .. }));
                        assert!(matches!(group_children[2], DocumentElement::Table { .. }));
                    }
                    _ => panic!("Expected Group element in Row"),
                }
            }
        }
        _ => panic!("Expected Row element"),
    }
}

#[test]
fn test_division_standings_document_metadata() {
    let doc = DivisionStandingsDocument::new(create_test_standings(), false);
    assert_eq!(doc.title(), "Division Standings");
    assert_eq!(doc.id(), "division_standings");
}

#[test]
fn test_division_standings_focusable_positions() {
    let doc = DivisionStandingsDocument::new(create_test_standings(), false);
    let positions = doc.focusable_positions().unwrap();
    assert_eq!(positions.len(), 32);
}

#[test]
fn test_division_standings_row_positions() {
    let doc = DivisionStandingsDocument::new(create_test_standings(), false);
    let row_positions = doc.focusable_row_positions().unwrap();
    assert_eq!(row_positions.len(), 32);
    assert!(row_positions.iter().all(|rp| rp.is_some()));
    let column_0_count = row_positions
        .iter()
        .filter(|rp| rp.as_ref().map_or(false, |p| p.child_idx == 0))
        .count();
    let column_1_count = row_positions
        .iter()
        .filter(|rp| rp.as_ref().map_or(false, |p| p.child_idx == 1))
        .count();
    assert_eq!(column_0_count, 16);
    assert_eq!(column_1_count, 16);
}

#[test]
fn test_division_standings_respects_western_first_config() {
    for western_first in [false, true] {
        let doc = DivisionStandingsDocument::new(create_test_standings(), western_first);
        let elements = doc.build(&FocusContext::default());
        match &elements[0] {
            DocumentElement::Row { children, .. } => {
                assert_eq!(children.len(), 2);
                assert!(matches!(children[0], DocumentElement::Group { .. }));
                assert!(matches!(children[1], DocumentElement::Group { .. }));
            }
            _ => panic!("Expected Row element"),
        }
    }
}

// === Further cases ===

fn table_header(e: &DocumentElement) -> Option<String> {
    match e {
        DocumentElement::Table { widget, .. } => {
            let lines = widget.layout_lines("▶", "─");
            Some(lines[0][0].text.trim().to_string())
        }
        _ => None,
    }
}

#[test]
fn conference_tables_are_ordered_by_points_and_headed() {
    let doc = ConferenceStandingsDocument::new(create_test_standings(), true);
    let elements = doc.build(&FocusContext::default());
    let DocumentElement::Row { children, .. } = &elements[0] else { panic!("Expected Row") };
    assert_eq!(table_header(&children[0]).as_deref(), Some("Western"));
    assert_eq!(table_header(&children[1]).as_deref(), Some("Eastern"));
    let DocumentElement::Table { widget, .. } = &children[0] else { panic!("Expected Table") };
    // Western leader by points: Avalanche (33), then Golden Knights (31).
    assert_eq!(widget.get_cell_value(0, 0).unwrap().display_text(), "Avalanche");
    assert_eq!(widget.get_cell_value(1, 0).unwrap().display_text(), "Golden Knights");
    // Stars and Oilers both have 30: the first listed stays first.
    assert_eq!(widget.get_cell_value(2, 0).unwrap().display_text(), "Stars");
    assert_eq!(widget.get_cell_value(3, 0).unwrap().display_text(), "Oilers");
}

#[test]
fn wildcard_columns_hold_leaders_and_race() {
    let doc = WildcardStandingsDocument::new(create_test_standings(), false);
    assert_eq!(doc.title(), "Wildcard Standings");
    assert_eq!(doc.id(), "wildcard_standings");
    let elements = doc.build(&FocusContext::default());
    let DocumentElement::Row { children, .. } = &elements[0] else { panic!("Expected Row") };
    let DocumentElement::Group { children: left, .. } = &children[0] else { panic!("Expected Group") };
    // Atlantic leaders, spacer, Metropolitan leaders, spacer, wildcard race.
    assert_eq!(left.len(), 5);
    assert_eq!(table_header(&left[0]).as_deref(), Some("Atlantic"));
    assert!(matches!(left[1], DocumentElement::Spacer { height: 1 }));
    assert_eq!(table_header(&left[2]).as_deref(), Some("Metropolitan"));
    assert_eq!(table_header(&left[4]).as_deref(), Some("Wildcard"));
    let DocumentElement::Table { widget, .. } = &left[0] else { panic!("Expected Table") };
    assert_eq!(widget.row_count(), 3);
    let DocumentElement::Table { widget, .. } = &left[4] else { panic!("Expected Table") };
    assert_eq!(widget.row_count(), 10);
    // Best of the rest: Penguins (24), then Lightning and Canadiens (23).
    assert_eq!(widget.get_cell_value(0, 0).unwrap().display_text(), "Penguins");
    assert_eq!(widget.get_cell_value(1, 0).unwrap().display_text(), "Lightning");
    assert_eq!(widget.get_cell_value(2, 0).unwrap().display_text(), "Canadiens");
    let positions = doc.focusable_positions().unwrap();
    assert_eq!(positions.len(), 32);
}

#[test]
fn wildcard_with_small_divisions_has_no_race() {
    let standings = vec![
        team("Panthers", "FLA", "Atlantic", 14, 3, 2, 30),
        team("Bruins", "BOS", "Atlantic", 13, 4, 1, 27),
    ];
    let doc = WildcardStandingsDocument::new(standings, true);
    let elements = doc.build(&FocusContext::default());
    let DocumentElement::Row { children, .. } = &elements[0] else { panic!("Expected Row") };
    let DocumentElement::Group { children: left, .. } = &children[0] else { panic!("Expected Group") };
    assert!(left.is_empty());
    let DocumentElement::Group { children: right, .. } = &children[1] else { panic!("Expected Group") };
    assert_eq!(right.len(), 2);
    assert_eq!(table_header(&right[0]).as_deref(), Some("Atlantic"));
}
