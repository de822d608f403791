use nhl_tui::tabbed_panel::{
    SeparatorPiece, TabBarWidget, TabItem, TabLabel, TabLinePiece, TabbedPanel, TabbedPanelProps,
};

fn label(title: &str, key: &str, active: bool) -> TabLabel {
    TabLabel { title: title.to_string(), key: key.to_string(), active }
}

#[test]
fn test_tabbed_panel_renders_container() {
    let panel = TabbedPanel;
    let props = TabbedPanelProps {
        active_key: "tab1".into(),
        tabs: vec![TabItem::new("tab1", "Tab 1", ()), TabItem::new("tab2", "Tab 2", ())],
        focused: true,
    };

    let view = panel.view(props);

    // Tab bar + content
    assert_eq!(view.tab_bar.labels.len(), 2);
    assert!(view.content.is_some());
}

#[test]
fn test_tabbed_panel_shows_active_content() {
    let panel = TabbedPanel;
    let props = TabbedPanelProps {
        active_key: "tab2".into(),
        tabs: vec![TabItem::new("tab1", "Tab 1", 1), TabItem::new("tab2", "Tab 2", 2)],
        focused: true,
    };

    let view = panel.view(props);

    assert_eq!(view.content, Some(2));
    assert!(!view.tab_bar.labels[0].active);
    assert!(view.tab_bar.labels[1].active);
}

#[test]
fn test_tab_item_builder() {
    let tab = TabItem::new("key", "Title", ());
    assert_eq!(tab.key, "key");
    assert_eq!(tab.title, "Title");
}

#[test]
fn test_empty_tabs_shows_nothing() {
    let panel = TabbedPanel;
    let props: TabbedPanelProps<()> = TabbedPanelProps {
        active_key: "none".into(),
        tabs: vec![],
        focused: true,
    };

    let view = panel.view(props);

    assert!(view.tab_bar.labels.is_empty());
    assert!(view.content.is_none());
}

#[test]
fn test_nonexistent_active_key_shows_none() {
    let panel = TabbedPanel;
    let props = TabbedPanelProps {
        active_key: "nonexistent".into(),
        tabs: vec![TabItem::new("tab1", "Tab 1", ())],
        focused: true,
    };

    let view = panel.view(props);

    assert!(view.content.is_none());
}

#[test]
fn test_tab_bar_widget_connector_alignment() {
    let widget = TabBarWidget {
        labels: vec![
            label("Scores", "scores", true),
            label("Standings", "standings", false),
            label("Stats", "stats", false),
        ],
        focused: true,
    };

    // "Scores │ Standings │ Stats": the separators sit at columns 7 and 19
    let line = widget.separator_line(80).unwrap();
    assert_eq!(
        line,
        vec![
            SeparatorPiece::Line(6),
            SeparatorPiece::Line(1),
            SeparatorPiece::Connector,
            SeparatorPiece::Line(1),
            SeparatorPiece::Line(9),
            SeparatorPiece::Line(1),
            SeparatorPiece::Connector,
            SeparatorPiece::Line(1),
            SeparatorPiece::Line(5),
            SeparatorPiece::Line(80 - 26),
        ]
    );
}

#[test]
fn test_tab_bar_widget_single_tab() {
    let widget = TabBarWidget { labels: vec![label("Scores", "scores", true)], focused: true };
    let pieces = widget.tab_line();
    assert_eq!(pieces.len(), 1);
    match &pieces[0] {
        TabLinePiece::Label { title, active } => {
            assert_eq!(title, "Scores");
            assert!(*active);
        }
        _ => panic!("Expected a label"),
    }
    assert_eq!(
        widget.separator_line(20).unwrap(),
        vec![SeparatorPiece::Line(6), SeparatorPiece::Line(14)]
    );
}

#[test]
fn test_tab_bar_widget_empty() {
    let widget = TabBarWidget { labels: vec![], focused: true };
    assert!(widget.tab_line().is_empty());
    assert_eq!(widget.separator_line(10).unwrap(), vec![SeparatorPiece::Line(10)]);
}

#[test]
fn tab_line_alternates_labels_and_separators() {
    let widget = TabBarWidget {
        labels: vec![label("A", "a", false), label("B", "b", true)],
        focused: false,
    };
    let pieces = widget.tab_line();
    assert_eq!(pieces.len(), 3);
    assert!(matches!(pieces[1], TabLinePiece::Separator));
    assert!(matches!(&pieces[2], TabLinePiece::Label { active: true, .. }));
}

#[test]
fn separator_line_uses_display_width_of_wide_titles() {
    let widget = TabBarWidget { labels: vec![label("日本", "jp", true)], focused: true };
    assert_eq!(
        widget.separator_line(6).unwrap(),
        vec![SeparatorPiece::Line(4), SeparatorPiece::Line(2)]
    );
}

#[test]
fn separator_line_without_room_left_adds_no_fill() {
    let widget = TabBarWidget {
        labels: vec![label("Scores", "scores", true), label("Demo", "demo", false)],
        focused: true,
    };
    assert_eq!(widget.separator_line(5).unwrap().len(), 5);
}

#[test]
fn tab_bar_preferred_height_is_two() {
    let widget = TabBarWidget { labels: vec![], focused: true };
    assert_eq!(widget.preferred_height(), Some(2));
}

/// The two lines the tab bar draws, with the given separator, horizontal
/// and connector characters, clipped to `width` columns and trimmed.
fn draw_tab_bar(
    widget: &TabBarWidget,
    width: usize,
    bar: &str,
    horizontal: &str,
    connector: &str,
) -> Vec<String> {
    let mut top = String::new();
    for piece in widget.tab_line() {
        match piece {
            TabLinePiece::Label { title, .. } => top.push_str(&title),
            TabLinePiece::Separator => {
                top.push(' ');
                top.push_str(bar);
                top.push(' ');
            }
        }
    }
    let mut bottom = String::new();
    for piece in widget.separator_line(width).unwrap() {
        match piece {
            SeparatorPiece::Line(n) => bottom.push_str(&horizontal.repeat(n)),
            SeparatorPiece::Connector => bottom.push_str(connector),
        }
    }
    [top, bottom]
        .iter()
        .map(|l| l.chars().take(width).collect::<String>().trim_end().to_string())
        .collect()
}

#[test]
fn test_tab_bar_widget_basic_rendering() {
    let widget = TabBarWidget {
        labels: vec![
            label("Home", "home", true),
            label("Profile", "profile", false),
            label("Settings", "settings", false),
        ],
        focused: true,
    };

    let lines = draw_tab_bar(&widget, 80, "│", "─", "┴");

    assert_eq!(
        lines,
        vec![
            "Home │ Profile │ Settings".to_string(),
            "─────┴─────────┴────────────────────────────────────────────────────────────────"
                .to_string(),
        ]
    );
}

#[test]
fn test_tab_bar_widget_ascii_mode() {
    let widget = TabBarWidget {
        labels: vec![label("Tab A", "a", true), label("Tab B", "b", false)],
        focused: true,
    };

    let lines = draw_tab_bar(&widget, 80, "|", "-", "-");

    assert_eq!(
        lines,
        vec![
            "Tab A | Tab B".to_string(),
            "--------------------------------------------------------------------------------"
                .to_string(),
        ]
    );
}
