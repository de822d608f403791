use nhl_tui::breadcrumb::{BreadcrumbWidget, NavigationCommand, SearchableItem};
use nhl_tui::link::{GameDay, GroupBy};
use nhl_tui::nav::{DocumentStackEntry, StackedDocument, Tab};

#[test]
fn test_breadcrumb_no_documents() {
    let widget = BreadcrumbWidget::new(Tab::Scores, Vec::new());

    // With no documents, should just show the tab name
    assert_eq!(widget.text(), "Scores");
}

#[test]
fn test_breadcrumb_with_team_detail() {
    let document_stack = vec![DocumentStackEntry::with_selection(
        StackedDocument::TeamDetail {
            abbrev: "TOR".to_string(),
        },
        None,
    )];

    let widget = BreadcrumbWidget::new(Tab::Standings, document_stack);

    assert_eq!(widget.text(), "Standings > Team: TOR");
}

#[test]
fn test_breadcrumb_with_boxscore() {
    let document_stack = vec![DocumentStackEntry::with_selection(
        StackedDocument::Boxscore {
            game_id: 2024020001,
        },
        None,
    )];

    let widget = BreadcrumbWidget::new(Tab::Scores, document_stack);

    assert_eq!(widget.text(), "Scores > Boxscore: Game 2024020001");
}

#[test]
fn test_breadcrumb_with_nested_documents() {
    let document_stack = vec![
        DocumentStackEntry::with_selection(
            StackedDocument::Boxscore {
                game_id: 2024020001,
            },
            None,
        ),
        DocumentStackEntry::with_selection(
            StackedDocument::PlayerDetail { player_id: 8471675 },
            None,
        ),
    ];

    let widget = BreadcrumbWidget::new(Tab::Scores, document_stack);

    assert_eq!(
        widget.text(),
        "Scores > Boxscore: Game 2024020001 > Player: 8471675"
    );
}

#[test]
fn test_breadcrumb_standings_tab() {
    let widget = BreadcrumbWidget::new(Tab::Standings, Vec::new());
    assert_eq!(widget.text(), "Standings");
}

#[test]
fn test_breadcrumb_settings_tab() {
    let widget = BreadcrumbWidget::new(Tab::Settings, Vec::new());
    assert_eq!(widget.text(), "Settings");
}

#[test]
fn test_breadcrumb_browser_tab() {
    let widget = BreadcrumbWidget::new(Tab::Demo, Vec::new());
    assert_eq!(widget.text(), "Demo");
}

#[test]
fn test_breadcrumb_clone_box() {
    let widget = BreadcrumbWidget::new(Tab::Scores, Vec::new());
    let _cloned: Box<BreadcrumbWidget> = widget.clone_box();
    // If we get here, clone_box() worked
}

#[test]
fn test_breadcrumb_preferred_height_with_empty_stack() {
    let widget = BreadcrumbWidget::new(Tab::Scores, Vec::new());
    assert_eq!(widget.preferred_height(), Some(0));
}

#[test]
fn test_breadcrumb_preferred_height_with_documents() {
    let document_stack = vec![DocumentStackEntry::with_selection(
        StackedDocument::TeamDetail {
            abbrev: "TOR".to_string(),
        },
        None,
    )];

    let widget = BreadcrumbWidget::new(Tab::Standings, document_stack);
    assert_eq!(widget.preferred_height(), Some(1));
}

#[test]
fn test_breadcrumb_with_player_detail() {
    let document_stack = vec![DocumentStackEntry::with_selection(
        StackedDocument::PlayerDetail { player_id: 8478402 },
        None,
    )];

    let widget = BreadcrumbWidget::new(Tab::Scores, document_stack);

    assert_eq!(widget.text(), "Scores > Player: 8478402");
}

#[test]
fn breadcrumb_pieces_mark_the_tab_name_first() {
    let document_stack = vec![DocumentStackEntry::new(StackedDocument::TeamDetail {
        abbrev: "BOS".to_string(),
    })];
    let widget = BreadcrumbWidget::new(Tab::Standings, document_stack);
    assert_eq!(widget.pieces(), vec!["Standings", " > ", "Team: BOS"]);
}

// === Navigation commands and searchable items ===

#[test]
fn test_navigation_command_variants() {
    let cmd1 = NavigationCommand::GoToTab(Tab::Scores);
    let cmd2 = NavigationCommand::GoToTeam("TOR".to_string());
    let cmd3 = NavigationCommand::GoToPlayer(12345);

    match cmd1 {
        NavigationCommand::GoToTab(_) => assert!(true),
        _ => panic!("Wrong variant"),
    }

    match cmd2 {
        NavigationCommand::GoToTeam(ref team) => assert_eq!(team, "TOR"),
        _ => panic!("Wrong variant"),
    }

    match cmd3 {
        NavigationCommand::GoToPlayer(id) => assert_eq!(id, 12345),
        _ => panic!("Wrong variant"),
    }
}

#[test]
fn test_navigation_command_all_variants() {
    let date = GameDay { year: 2024, month: 1, day: 15 };
    let commands = vec![
        NavigationCommand::GoToTab(Tab::Standings),
        NavigationCommand::GoToTeam("MTL".to_string()),
        NavigationCommand::GoToPlayer(8478402),
        NavigationCommand::GoToGame(2024020001),
        NavigationCommand::GoToDate(date),
        NavigationCommand::GoToStandingsView(GroupBy::Division),
        NavigationCommand::GoToSettings("display".to_string()),
    ];

    assert_eq!(commands.len(), 7);
}

#[test]
fn test_searchable_item_creation() {
    let item = SearchableItem {
        label: "Toronto Maple Leafs".to_string(),
        category: "Team".to_string(),
        keywords: vec!["leafs".to_string(), "toronto".to_string(), "tor".to_string()],
        navigation_command: NavigationCommand::GoToTeam("TOR".to_string()),
    };

    assert_eq!(item.label, "Toronto Maple Leafs");
    assert_eq!(item.category, "Team");
    assert_eq!(item.keywords.len(), 3);
}

#[test]
fn test_searchable_item_with_multiple_keywords() {
    let item = SearchableItem {
        label: "Montreal Canadiens".to_string(),
        category: "Team".to_string(),
        keywords: vec![
            "montreal".to_string(),
            "canadiens".to_string(),
            "habs".to_string(),
            "mtl".to_string(),
        ],
        navigation_command: NavigationCommand::GoToTeam("MTL".to_string()),
    };

    assert_eq!(item.keywords.len(), 4);
    assert!(item.keywords.contains(&"habs".to_string()));
}
