use nhl_tui::elements::{
    link_prefix, row_uses_preferred_widths, underline, DocumentElement, ScoreBox, ScoreBoxStatus,
};
use nhl_tui::focus::FocusableId;
use nhl_tui::link::{DocumentLink, LinkTarget};
use nhl_tui::table::{Alignment, CellValue, ColumnDef, TableWidget};
use ratatui::style::{Color, Style};

#[test]
fn mod_test_text_element_height() {
    let elem = DocumentElement::text("Hello");
    assert_eq!(elem.height(), 1);

    let elem = DocumentElement::text("Line 1\nLine 2\nLine 3");
    assert_eq!(elem.height(), 3);

    let elem = DocumentElement::text("");
    assert_eq!(elem.height(), 1);
}

#[test]
fn mod_test_heading_element_height() {
    let elem = DocumentElement::heading(1, "Title");
    assert_eq!(elem.height(), 2); // Heading + underline

    let elem = DocumentElement::heading(2, "Subtitle");
    assert_eq!(elem.height(), 1);

    let elem = DocumentElement::heading(3, "Section");
    assert_eq!(elem.height(), 1);
}

#[test]
fn mod_test_link_element_height() {
    let elem = DocumentElement::link(
        "link1",
        "Click me",
        LinkTarget::Action("test".to_string()),
    );
    assert_eq!(elem.height(), 1);
}

#[test]
fn mod_test_separator_element_height() {
    let elem = DocumentElement::separator();
    assert_eq!(elem.height(), 1);
}

#[test]
fn mod_test_spacer_element_height() {
    let elem = DocumentElement::spacer(5);
    assert_eq!(elem.height(), 5);
}

#[test]
fn mod_test_group_element_height() {
    let elem = DocumentElement::group(vec![
        DocumentElement::text("Line 1"),
        DocumentElement::spacer(2),
        DocumentElement::text("Line 2"),
    ]);
    assert_eq!(elem.height(), 4); // 1 + 2 + 1
}

#[test]
fn mod_test_collect_focusable_link() {
    let elem = DocumentElement::link(
        "my_link",
        "Click here",
        LinkTarget::Document(DocumentLink::team("BOS")),
    );

    let mut focusable = Vec::new();
    elem.collect_focusable(&mut focusable, 10);

    assert_eq!(focusable.len(), 1);
    assert_eq!(focusable[0].id, FocusableId::link("my_link"));
    assert_eq!(focusable[0].y, 10);
    assert_eq!(focusable[0].rect.width, 10); // "Click here" = 10 chars
}

#[test]
fn mod_test_collect_focusable_group() {
    let elem = DocumentElement::group(vec![
        DocumentElement::text("Not focusable"),
        DocumentElement::link("link1", "First", LinkTarget::Action("a".to_string())),
        DocumentElement::spacer(2),
        DocumentElement::link("link2", "Second", LinkTarget::Action("b".to_string())),
    ]);

    let mut focusable = Vec::new();
    elem.collect_focusable(&mut focusable, 0);

    assert_eq!(focusable.len(), 2);
    assert_eq!(focusable[0].id, FocusableId::link("link1"));
    assert_eq!(focusable[0].y, 1); // After "Not focusable"
    assert_eq!(focusable[1].id, FocusableId::link("link2"));
    assert_eq!(focusable[1].y, 4); // 1 (text) + 1 (link) + 2 (spacer)
}

#[test]
fn mod_test_collect_focusable_nested_groups() {
    let elem = DocumentElement::group(vec![
        DocumentElement::group(vec![
            DocumentElement::link("inner1", "Inner", LinkTarget::Action("x".to_string())),
        ]),
        DocumentElement::link("outer1", "Outer", LinkTarget::Action("y".to_string())),
    ]);

    let mut focusable = Vec::new();
    elem.collect_focusable(&mut focusable, 5);

    assert_eq!(focusable.len(), 2);
    assert_eq!(focusable[0].id, FocusableId::link("inner1"));
    assert_eq!(focusable[0].y, 5);
    assert_eq!(focusable[1].id, FocusableId::link("outer1"));
    assert_eq!(focusable[1].y, 6);
}

#[test]
fn mod_test_heading_level_clamping() {
    let elem = DocumentElement::heading(0, "Zero");
    match elem {
        DocumentElement::Heading { level, .. } => assert_eq!(level, 1),
        _ => panic!("Expected Heading"),
    }

    let elem = DocumentElement::heading(10, "Ten");
    match elem {
        DocumentElement::Heading { level, .. } => assert_eq!(level, 6),
        _ => panic!("Expected Heading"),
    }
}

#[test]
fn mod_test_styled_group() {
    let style = Style::default().bg(Color::Blue);
    let elem = DocumentElement::styled_group(
        vec![DocumentElement::text("Content")],
        style,
    );

    match elem {
        DocumentElement::Group { style: s, .. } => assert_eq!(s, Some(style)),
        _ => panic!("Expected Group"),
    }
}

#[test]
fn mod_test_document_element_debug() {
    let elem = DocumentElement::text("Hello");
    let debug_str = format!("{:?}", elem);
    assert!(debug_str.contains("Text"));
    assert!(debug_str.contains("Hello"));

    let elem = DocumentElement::separator();
    let debug_str = format!("{:?}", elem);
    assert!(debug_str.contains("Separator"));
}

#[test]
fn elements_test_text_element_height() {
    let elem = DocumentElement::text("Hello");
    assert_eq!(elem.height(), 1);

    let elem = DocumentElement::text("Line 1\nLine 2\nLine 3");
    assert_eq!(elem.height(), 3);

    let elem = DocumentElement::text("");
    assert_eq!(elem.height(), 1);
}

#[test]
fn elements_test_heading_element_height() {
    let elem = DocumentElement::heading(1, "Title");
    assert_eq!(elem.height(), 2); // Heading + underline

    let elem = DocumentElement::heading(2, "Subtitle");
    assert_eq!(elem.height(), 1);

    let elem = DocumentElement::heading(3, "Section");
    assert_eq!(elem.height(), 1);
}

#[test]
fn elements_test_link_element_height() {
    let elem = DocumentElement::link(
        "link1",
        "Click me",
        LinkTarget::Action("test".to_string()),
    );
    assert_eq!(elem.height(), 1);
}

#[test]
fn elements_test_separator_element_height() {
    let elem = DocumentElement::separator();
    assert_eq!(elem.height(), 1);
}

#[test]
fn elements_test_spacer_element_height() {
    let elem = DocumentElement::spacer(5);
    assert_eq!(elem.height(), 5);
}

#[test]
fn elements_test_group_element_height() {
    let elem = DocumentElement::group(vec![
        DocumentElement::text("Line 1"),
        DocumentElement::spacer(2),
        DocumentElement::text("Line 2"),
    ]);
    assert_eq!(elem.height(), 4); // 1 + 2 + 1
}

#[test]
fn elements_test_collect_focusable_link() {
    let elem = DocumentElement::link(
        "my_link",
        "Click here",
        LinkTarget::Document(DocumentLink::team("BOS")),
    );

    let mut focusable = Vec::new();
    elem.collect_focusable(&mut focusable, 10);

    assert_eq!(focusable.len(), 1);
    assert_eq!(focusable[0].id, FocusableId::link("my_link"));
    assert_eq!(focusable[0].y, 10);
    assert_eq!(focusable[0].rect.width, 10); // "Click here" = 10 chars
}

#[test]
fn elements_test_collect_focusable_group() {
    let elem = DocumentElement::group(vec![
        DocumentElement::text("Not focusable"),
        DocumentElement::link("link1", "First", LinkTarget::Action("a".to_string())),
        DocumentElement::spacer(2),
        DocumentElement::link("link2", "Second", LinkTarget::Action("b".to_string())),
    ]);

    let mut focusable = Vec::new();
    elem.collect_focusable(&mut focusable, 0);

    assert_eq!(focusable.len(), 2);
    assert_eq!(focusable[0].id, FocusableId::link("link1"));
    assert_eq!(focusable[0].y, 1); // After "Not focusable"
    assert_eq!(focusable[1].id, FocusableId::link("link2"));
    assert_eq!(focusable[1].y, 4); // 1 (text) + 1 (link) + 2 (spacer)
}

#[test]
fn elements_test_collect_focusable_nested_groups() {
    let elem = DocumentElement::group(vec![
        DocumentElement::group(vec![
            DocumentElement::link("inner1", "Inner", LinkTarget::Action("x".to_string())),
        ]),
        DocumentElement::link("outer1", "Outer", LinkTarget::Action("y".to_string())),
    ]);

    let mut focusable = Vec::new();
    elem.collect_focusable(&mut focusable, 5);

    assert_eq!(focusable.len(), 2);
    assert_eq!(focusable[0].id, FocusableId::link("inner1"));
    assert_eq!(focusable[0].y, 5);
    assert_eq!(focusable[1].id, FocusableId::link("outer1"));
    assert_eq!(focusable[1].y, 6);
}

#[test]
fn elements_test_heading_level_clamping() {
    let elem = DocumentElement::heading(0, "Zero");
    match elem {
        DocumentElement::Heading { level, .. } => assert_eq!(level, 1),
        _ => panic!("Expected Heading"),
    }

    let elem = DocumentElement::heading(10, "Ten");
    match elem {
        DocumentElement::Heading { level, .. } => assert_eq!(level, 6),
        _ => panic!("Expected Heading"),
    }
}

#[test]
fn elements_test_styled_group() {
    let style = Style::default().bg(Color::Blue);
    let elem = DocumentElement::styled_group(
        vec![DocumentElement::text("Content")],
        style,
    );

    match elem {
        DocumentElement::Group { style: s, .. } => assert_eq!(s, Some(style)),
        _ => panic!("Expected Group"),
    }
}

#[test]
fn elements_test_document_element_debug() {
    let elem = DocumentElement::text("Hello");
    let debug_str = format!("{:?}", elem);
    assert!(debug_str.contains("Text"));
    assert!(debug_str.contains("Hello"));

    let elem = DocumentElement::separator();
    let debug_str = format!("{:?}", elem);
    assert!(debug_str.contains("Separator"));
}

#[test]
fn test_table_element_height() {

    // Create a simple table with 3 rows
    let columns: Vec<ColumnDef<&str, fn(&&str) -> CellValue>> = vec![
        ColumnDef::new("Name", 10, Alignment::Left, |row: &&str| {
            CellValue::Text(row.to_string())
        }),
    ];
    let data = vec!["Alice", "Bob", "Charlie"];
    let table = TableWidget::from_data(&columns, data);
    let elem = DocumentElement::table("test_table", table);

    // TableWidget height = col headers (1) + separator (1) + 3 data rows = 5
    assert_eq!(elem.height(), 5);
}

#[test]
fn test_table_element_focusable_extraction() {

    // Create a table with link cells
    let columns: Vec<ColumnDef<(&str, &str), fn(&(&str, &str)) -> CellValue>> = vec![
        ColumnDef::new("Team", 15, Alignment::Left, |row: &(&str, &str)| {
            CellValue::TeamLink {
                display: row.0.to_string(),
                team_abbrev: row.1.to_string(),
            }
        }),
    ];
    let data = vec![("Bruins", "BOS"), ("Maple Leafs", "TOR")];
    let table = TableWidget::from_data(&columns, data);
    let elem = DocumentElement::table("teams", table);

    // Collect focusable elements
    let mut focusable = Vec::new();
    elem.collect_focusable(&mut focusable, 0);

    // Should have 2 focusable elements (one per row) with TableCell IDs
    // TableCell IDs enable row highlighting via focused_table_row()
    assert_eq!(focusable.len(), 2);
    assert_eq!(focusable[0].id, FocusableId::table_cell("teams", 0, 0));
    assert_eq!(focusable[1].id, FocusableId::table_cell("teams", 1, 0));

    // Check link targets (contain team info for activation)
    match &focusable[0].link_target {
        Some(LinkTarget::Action(action)) => assert_eq!(action, "team:BOS"),
        _ => panic!("Expected team action"),
    }
    match &focusable[1].link_target {
        Some(LinkTarget::Action(action)) => assert_eq!(action, "team:TOR"),
        _ => panic!("Expected team action"),
    }
}

#[test]
fn test_table_element_focusable_y_positions() {

    // Create a table with links
    let columns: Vec<ColumnDef<&str, fn(&&str) -> CellValue>> = vec![
        ColumnDef::new("Player", 15, Alignment::Left, |row: &&str| {
            CellValue::PlayerLink {
                display: row.to_string(),
                player_id: 12345,
            }
        }),
    ];
    let data = vec!["Player1", "Player2"];
    let table = TableWidget::from_data(&columns, data);
    let elem = DocumentElement::table("players", table);

    // Collect focusable at y_offset of 10
    let mut focusable = Vec::new();
    elem.collect_focusable(&mut focusable, 10);

    // Y positions should be adjusted by offset
    // Data starts at y=2 (col headers + separator), then +10 offset = 12
    assert_eq!(focusable[0].y, 12);
    assert_eq!(focusable[1].y, 13);
}

#[test]
fn test_table_element_no_focusable_text_only() {

    // Create a table with only text cells (no links)
    let columns: Vec<ColumnDef<i32, fn(&i32) -> CellValue>> = vec![
        ColumnDef::new("Value", 5, Alignment::Right, |row: &i32| {
            CellValue::Text(row.to_string())
        }),
    ];
    let data = vec![1, 2, 3];
    let table = TableWidget::from_data(&columns, data);
    let elem = DocumentElement::table("values", table);

    // Collect focusable elements
    let mut focusable = Vec::new();
    elem.collect_focusable(&mut focusable, 0);

    // Should have no focusable elements (text cells aren't focusable)
    assert_eq!(focusable.len(), 0);
}

#[test]
fn debug_summary_of_tables_and_rows() {
    let columns: Vec<ColumnDef<(&str, &str), fn(&(&str, &str)) -> CellValue>> = vec![
        ColumnDef::new("Team", 15, Alignment::Left, |row: &(&str, &str)| CellValue::TeamLink {
            display: row.0.to_string(),
            team_abbrev: row.1.to_string(),
        }),
        ColumnDef::new("Abbr", 4, Alignment::Left, |row: &(&str, &str)| {
            CellValue::Text(row.1.to_string())
        }),
    ];
    let table = TableWidget::from_data(&columns, vec![("Bruins", "BOS"), ("Maple Leafs", "TOR"), ("Sabres", "BUF")]);
    let elem = DocumentElement::table("teams", table);
    assert_eq!(
        elem.debug_summary().as_deref(),
        Some("Table { rows: 3, columns: 2, focusable_count: 3 }")
    );
    let row = DocumentElement::row(vec![DocumentElement::text("a"), DocumentElement::text("b")]);
    assert_eq!(row.debug_summary().as_deref(), Some("Row { children: 2, gap: 2 }"));
    assert!(DocumentElement::text("a").debug_summary().is_none());
}

#[test]
fn link_prefix_underline_and_row_widths() {
    assert_eq!(link_prefix(true, "▶"), "▶ ");
    assert_eq!(link_prefix(false, "▶"), "  ");
    assert_eq!(underline("Héllo"), "═════");
    assert_eq!(underline(""), "");
    let score_box = || ScoreBox::new(
        "TOR".to_string(),
        "BOS".to_string(),
        None,
        None,
        ScoreBoxStatus::Scheduled { start_time: "7PM".to_string() },
    );
    let boxes = vec![
        DocumentElement::score_box_element(1, score_box(), false),
        DocumentElement::score_box_element(2, score_box(), true),
    ];
    assert!(row_uses_preferred_widths(&boxes));
    let mixed = vec![DocumentElement::score_box_element(1, score_box(), false), DocumentElement::text("x")];
    assert!(!row_uses_preferred_widths(&mixed));
}

#[test]
fn table_column_width_can_be_set() {
    let columns: Vec<ColumnDef<&str, fn(&&str) -> CellValue>> = vec![
        ColumnDef::new("Name", 10, Alignment::Left, |row: &&str| CellValue::Text(row.to_string())),
    ];
    let table = TableWidget::from_data(&columns, vec!["Alice"]).with_column_width(0, 4);
    assert_eq!(table.preferred_width(), TableWidget::from_data(&columns, vec!["Alice"]).preferred_width().map(|w| w - 6));
}
