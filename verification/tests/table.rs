use nhl_tui::table::{Alignment, CellValue, ColumnDef, Segment, TableWidget};

type Col = ColumnDef<TestRow, fn(&TestRow) -> CellValue>;

#[derive(Clone)]
struct TestRow {
    name: String,
    id: i64,
    value: i32,
}

fn create_test_rows() -> Vec<TestRow> {
    vec![
        TestRow {
            name: "Auston Matthews".to_string(),
            id: 8479318,
            value: 42,
        },
        TestRow {
            name: "Mitchell Marner".to_string(),
            id: 8478483,
            value: 18,
        },
        TestRow {
            name: "William Nylander".to_string(),
            id: 8477939,
            value: 28,
        },
    ]
}

fn create_test_columns() -> Vec<Col> {
    vec![
        ColumnDef::new("Player", 20, Alignment::Left, |r: &TestRow| {
            CellValue::PlayerLink {
                display: r.name.clone(),
                player_id: r.id,
            }
        }),
        ColumnDef::new("G", 4, Alignment::Right, |r: &TestRow| {
            CellValue::Text(r.value.to_string())
        }),
    ]
}

#[test]
fn test_table_preferred_dimensions() {
    let rows = create_test_rows();
    let columns = create_test_columns();

    let widget = TableWidget::from_data(&columns, rows).with_header("Stats");

    // Height: header(1) + underline(1) + blank(1) + col_header(1) + separator(1) + 3 rows = 8
    assert_eq!(widget.preferred_height(), Some(8));

    // Width: margin(0) + col1(20) + spacing(2) + col2(4) = 26
    assert_eq!(widget.preferred_width(), Some(26));
}

#[test]
fn table_test_find_next_link_column() {
    let rows = vec![create_test_rows()[0].clone()];

    let columns: Vec<Col> = vec![
        ColumnDef::new("Text1", 10, Alignment::Left, |_: &TestRow| {
            CellValue::Text("A".to_string())
        }),
        ColumnDef::new("Link1", 10, Alignment::Left, |r: &TestRow| {
            CellValue::PlayerLink {
                display: r.name.clone(),
                player_id: r.id,
            }
        }),
        ColumnDef::new("Text2", 10, Alignment::Left, |_: &TestRow| {
            CellValue::Text("B".to_string())
        }),
        ColumnDef::new("Link2", 10, Alignment::Left, |_: &TestRow| {
            CellValue::TeamLink {
                display: "Team".to_string(),
                team_abbrev: "TOR".to_string(),
            }
        }),
    ];

    let widget = TableWidget::from_data(&columns, rows);

    // From column 0 (Text1), next link is column 1 (Link1)
    assert_eq!(widget.find_next_link_column(0), Some(1));

    // From column 1 (Link1), next link is column 3 (Link2)
    assert_eq!(widget.find_next_link_column(1), Some(3));

    // From column 2 (Text2), next link is column 3 (Link2)
    assert_eq!(widget.find_next_link_column(2), Some(3));

    // From column 3 (Link2), no next link
    assert_eq!(widget.find_next_link_column(3), None);
}

#[test]
fn test_find_prev_link_column() {
    let rows = vec![create_test_rows()[0].clone()];

    let columns: Vec<Col> = vec![
        ColumnDef::new("Link1", 10, Alignment::Left, |r: &TestRow| {
            CellValue::PlayerLink {
                display: r.name.clone(),
                player_id: r.id,
            }
        }),
        ColumnDef::new("Text1", 10, Alignment::Left, |_: &TestRow| {
            CellValue::Text("A".to_string())
        }),
        ColumnDef::new("Link2", 10, Alignment::Left, |_: &TestRow| {
            CellValue::TeamLink {
                display: "Team".to_string(),
                team_abbrev: "TOR".to_string(),
            }
        }),
    ];

    let widget = TableWidget::from_data(&columns, rows);

    // From column 0 (Link1), no previous link
    assert_eq!(widget.find_prev_link_column(0), None);

    // From column 1 (Text1), previous link is column 0 (Link1)
    assert_eq!(widget.find_prev_link_column(1), Some(0));

    // From column 2 (Link2), previous link is column 0 (Link1)
    assert_eq!(widget.find_prev_link_column(2), Some(0));
}

#[test]
fn test_find_first_link_column() {
    let rows = vec![create_test_rows()[0].clone()];

    // Table with link in middle
    let columns: Vec<Col> = vec![
        ColumnDef::new("Text1", 10, Alignment::Left, |_: &TestRow| {
            CellValue::Text("A".to_string())
        }),
        ColumnDef::new("Link", 10, Alignment::Left, |r: &TestRow| {
            CellValue::PlayerLink {
                display: r.name.clone(),
                player_id: r.id,
            }
        }),
        ColumnDef::new("Text2", 10, Alignment::Left, |_: &TestRow| {
            CellValue::Text("B".to_string())
        }),
    ];

    let widget = TableWidget::from_data(&columns, rows);
    assert_eq!(widget.find_first_link_column(), Some(1));
}

#[test]
fn test_find_first_link_column_no_links() {
    let rows = vec![create_test_rows()[0].clone()];

    // Table with all text columns
    let columns: Vec<Col> = vec![
        ColumnDef::new("Text1", 10, Alignment::Left, |_: &TestRow| {
            CellValue::Text("A".to_string())
        }),
        ColumnDef::new("Text2", 10, Alignment::Left, |_: &TestRow| {
            CellValue::Text("B".to_string())
        }),
    ];

    let widget = TableWidget::from_data(&columns, rows);
    assert_eq!(widget.find_first_link_column(), None);
}

#[test]
fn test_get_cell_value() {
    let rows = create_test_rows();

    let columns: Vec<Col> = vec![
        ColumnDef::new("Player", 20, Alignment::Left, |r: &TestRow| {
            CellValue::PlayerLink {
                display: r.name.clone(),
                player_id: r.id,
            }
        }),
        ColumnDef::new("Value", 10, Alignment::Right, |r: &TestRow| {
            CellValue::Text(r.value.to_string())
        }),
    ];

    let widget = TableWidget::from_data(&columns, rows);

    // Get player link cell
    let cell = widget.get_cell_value(0, 0);
    assert!(cell.is_some());
    assert!(cell.unwrap().is_link());

    // Get text cell
    let cell = widget.get_cell_value(0, 1);
    assert!(cell.is_some());
    assert!(!cell.unwrap().is_link());

    // Out of bounds
    assert!(widget.get_cell_value(100, 0).is_none());
    assert!(widget.get_cell_value(0, 100).is_none());
}

#[test]
fn test_row_and_column_count() {
    let rows = create_test_rows();
    let columns = create_test_columns();

    let widget = TableWidget::from_data(&columns, rows);

    assert_eq!(widget.row_count(), 3);
    assert_eq!(widget.column_count(), 2);
}

#[test]
fn test_link_activation_player() {
    let rows = vec![create_test_rows()[0].clone()];

    let columns: Vec<Col> = vec![ColumnDef::new(
        "Player",
        20,
        Alignment::Left,
        |r: &TestRow| CellValue::PlayerLink {
            display: r.name.clone(),
            player_id: r.id,
        },
    )];

    let widget = TableWidget::from_data(&columns, rows);

    // Get the player link cell
    let cell = widget.get_cell_value(0, 0).unwrap();
    assert!(cell.is_link());

    // Check link info for logging
    let link_info = cell.link_info();
    assert!(link_info.contains("PlayerLink"));
    assert!(link_info.contains("8479318")); // player_id
    assert!(link_info.contains("Auston Matthews"));
}

#[test]
fn test_link_activation_team() {
    let rows = vec![create_test_rows()[0].clone()];

    let columns: Vec<Col> = vec![ColumnDef::new(
        "Team",
        15,
        Alignment::Left,
        |_: &TestRow| CellValue::TeamLink {
            display: "Toronto Maple Leafs".to_string(),
            team_abbrev: "TOR".to_string(),
        },
    )];

    let widget = TableWidget::from_data(&columns, rows);

    // Get the team link cell
    let cell = widget.get_cell_value(0, 0).unwrap();
    assert!(cell.is_link());

    // Check link info for logging
    let link_info = cell.link_info();
    assert!(link_info.contains("TeamLink"));
    assert!(link_info.contains("TOR"));
    assert!(link_info.contains("Toronto Maple Leafs"));
}

#[test]
fn test_navigation_skips_text_columns() {
    let rows = vec![create_test_rows()[0].clone()];

    // Pattern: Link, Text, Text, Link, Text, Link
    let columns: Vec<Col> = vec![
        ColumnDef::new("Col0", 10, Alignment::Left, |r: &TestRow| {
            CellValue::PlayerLink {
                display: r.name.clone(),
                player_id: r.id,
            }
        }),
        ColumnDef::new("Col1", 10, Alignment::Left, |_: &TestRow| {
            CellValue::Text("T1".to_string())
        }),
        ColumnDef::new("Col2", 10, Alignment::Left, |_: &TestRow| {
            CellValue::Text("T2".to_string())
        }),
        ColumnDef::new("Col3", 10, Alignment::Left, |_: &TestRow| {
            CellValue::TeamLink {
                display: "Team1".to_string(),
                team_abbrev: "T1".to_string(),
            }
        }),
        ColumnDef::new("Col4", 10, Alignment::Left, |_: &TestRow| {
            CellValue::Text("T3".to_string())
        }),
        ColumnDef::new("Col5", 10, Alignment::Left, |_: &TestRow| {
            CellValue::TeamLink {
                display: "Team2".to_string(),
                team_abbrev: "T2".to_string(),
            }
        }),
    ];

    let widget = TableWidget::from_data(&columns, rows);

    // Navigate right from col 0 (Link) should jump to col 3 (Link), skipping cols 1-2 (Text)
    assert_eq!(widget.find_next_link_column(0), Some(3));

    // Navigate right from col 3 (Link) should jump to col 5 (Link), skipping col 4 (Text)
    assert_eq!(widget.find_next_link_column(3), Some(5));

    // Navigate left from col 5 (Link) should jump to col 3 (Link), skipping col 4 (Text)
    assert_eq!(widget.find_prev_link_column(5), Some(3));

    // Navigate left from col 3 (Link) should jump to col 0 (Link), skipping cols 1-2 (Text)
    assert_eq!(widget.find_prev_link_column(3), Some(0));
}

// === Drawing ===

/// Place each segment's text at its column and trim the line's end.
fn compose(line: &[Segment]) -> String {
    let mut chars: Vec<char> = Vec::new();
    for seg in line {
        for (i, c) in seg.text.chars().enumerate() {
            let x = seg.x + i;
            while chars.len() <= x {
                chars.push(' ');
            }
            chars[x] = c;
        }
    }
    let s: String = chars.into_iter().collect();
    s.trim_end().to_string()
}

/// The first `height` lines that drawing the table writes, as text.
fn render_lines(widget: &TableWidget, height: u16) -> Vec<String> {
    let mut lines: Vec<String> = widget
        .layout_lines("▶", "─")
        .iter()
        .take(height as usize)
        .map(|l| compose(l))
        .collect();
    while lines.len() < height as usize {
        lines.push(String::new());
    }
    lines
}

fn assert_lines(actual: &[String], expected: &[&str]) {
    assert_eq!(actual.len(), expected.len(), "line count");
    for (i, (a, e)) in actual.iter().zip(expected.iter()).enumerate() {
        assert_eq!(a, e, "line {}", i);
    }
}

#[test]
fn test_empty_table() {
    let columns: Vec<Col> = vec![];
    let rows: Vec<TestRow> = vec![];

    let widget = TableWidget::from_data(&columns, rows);
    let lines = render_lines(&widget, 1);

    // Empty table renders nothing (no selector space without content)
    assert_lines(&lines, &[""]);
}

#[test]
fn test_table_with_text_cells() {
    let rows = vec![
        TestRow {
            name: "Row1".to_string(),
            id: 1,
            value: 10,
        },
        TestRow {
            name: "Row2".to_string(),
            id: 2,
            value: 20,
        },
    ];

    let columns: Vec<Col> = vec![
        ColumnDef::new("Name", 10, Alignment::Left, |r: &TestRow| {
            CellValue::Text(r.name.clone())
        }),
        ColumnDef::new("Val", 5, Alignment::Right, |r: &TestRow| {
            CellValue::Text(r.value.to_string())
        }),
    ];

    let widget = TableWidget::from_data(&columns, rows);
    let height = widget.preferred_height().unwrap();
    let lines = render_lines(&widget, height);

    assert_lines(
        &lines,
        &[
            "  Name        Val",
            "  ─────────────────",
            "  Row1           10",
            "  Row2           20",
        ],
    );
}

#[test]
fn test_table_with_header() {
    let rows = vec![TestRow {
        name: "Test".to_string(),
        id: 1,
        value: 5,
    }];

    let columns: Vec<Col> = vec![ColumnDef::new(
        "Name",
        10,
        Alignment::Left,
        |r: &TestRow| CellValue::Text(r.name.clone()),
    )];

    let widget = TableWidget::from_data(&columns, rows).with_header("Test Table");
    let height = widget.preferred_height().unwrap();
    let lines = render_lines(&widget, height);

    assert_lines(
        &lines,
        &[
            "  Test Table",
            "  ══════════",
            "",
            "  Name",
            "  ──────────",
            "  Test",
        ],
    );
}

#[test]
fn test_table_with_margin() {
    let rows = vec![TestRow {
        name: "Test".to_string(),
        id: 1,
        value: 5,
    }];

    let columns: Vec<Col> = vec![ColumnDef::new(
        "Name",
        10,
        Alignment::Left,
        |r: &TestRow| CellValue::Text(r.name.clone()),
    )];

    let widget = TableWidget::from_data(&columns, rows).with_margin(2);
    let height = widget.preferred_height().unwrap();
    let lines = render_lines(&widget, height);

    assert_lines(&lines, &["    Name", "    ──────────", "    Test"]);
}

#[test]
fn test_table_alignment() {
    let rows = vec![TestRow {
        name: "X".to_string(),
        id: 1,
        value: 5,
    }];

    let columns: Vec<Col> = vec![
        ColumnDef::new("Left", 10, Alignment::Left, |_: &TestRow| {
            CellValue::Text("L".to_string())
        }),
        ColumnDef::new("Right", 10, Alignment::Right, |_: &TestRow| {
            CellValue::Text("R".to_string())
        }),
        ColumnDef::new("Center", 10, Alignment::Center, |_: &TestRow| {
            CellValue::Text("C".to_string())
        }),
    ];

    let widget = TableWidget::from_data(&columns, rows);
    let height = widget.preferred_height().unwrap();
    let lines = render_lines(&widget, height);

    assert_lines(
        &lines,
        &[
            "  Left        Right       Center",
            "  ──────────────────────────────────",
            "  L                    R      C",
        ],
    );
}

#[test]
fn test_table_truncation() {
    let rows = vec![TestRow {
        name: "Very Long Name That Exceeds Width".to_string(),
        id: 1,
        value: 5,
    }];

    let columns: Vec<Col> = vec![ColumnDef::new(
        "Name",
        10,
        Alignment::Left,
        |r: &TestRow| CellValue::Text(r.name.clone()),
    )];

    let widget = TableWidget::from_data(&columns, rows);
    let height = widget.preferred_height().unwrap();
    let lines = render_lines(&widget, height);

    assert_lines(&lines, &["  Name", "  ──────────", "  Very Lo..."]);
}

#[test]
fn test_table_with_selection_focused() {
    let rows = vec![
        TestRow {
            name: "Row1".to_string(),
            id: 1,
            value: 10,
        },
        TestRow {
            name: "Row2".to_string(),
            id: 2,
            value: 20,
        },
    ];

    let columns: Vec<Col> = vec![ColumnDef::new(
        "Name",
        10,
        Alignment::Left,
        |r: &TestRow| CellValue::Text(r.name.clone()),
    )];

    let widget = TableWidget::from_data(&columns, rows).with_focused_row(Some(1));
    let height = widget.preferred_height().unwrap();
    let lines = render_lines(&widget, height);

    assert_lines(&lines, &["  Name", "  ──────────", "  Row1", "▶ Row2"]);
}

#[test]
fn test_table_with_mixed_cell_types() {
    let rows = create_test_rows();

    let columns: Vec<Col> = vec![
        ColumnDef::new("Player", 20, Alignment::Left, |r: &TestRow| {
            CellValue::PlayerLink {
                display: r.name.clone(),
                player_id: r.id,
            }
        }),
        ColumnDef::new("Team", 15, Alignment::Left, |_: &TestRow| {
            CellValue::TeamLink {
                display: "Toronto".to_string(),
                team_abbrev: "TOR".to_string(),
            }
        }),
        ColumnDef::new("G", 4, Alignment::Right, |r: &TestRow| {
            CellValue::Text(r.value.to_string())
        }),
    ];

    let widget = TableWidget::from_data(&columns, rows).with_header("Player Stats");
    let height = widget.preferred_height().unwrap();
    let lines = render_lines(&widget, height);

    assert_eq!(lines.len(), 8);
    assert_eq!(height, 8); // header(3) + col_header(1) + separator(1) + 3 rows
}
