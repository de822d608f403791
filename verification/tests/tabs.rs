use std::collections::HashMap;

use nhl_tui::action::{Action, Effect};
use nhl_tui::app::{App, AppState, NavigationState, TabContent};
use nhl_tui::focus::FocusableId;
use nhl_tui::handlers::{
    BoxscoreDocumentHandler, BoxscorePlayers, TeamDetailDocumentHandler, TeamPlayers,
};
use nhl_tui::link::GameDay;
use nhl_tui::team_detail::{ClubGoalieRow, ClubSkaterRow, ClubStatsRows};
use nhl_tui::nav::{DocumentStackEntry, StackedDocument, Tab};
use nhl_tui::scores_tab::{ScoresTab, ScoresTabState};
use nhl_tui::status_bar::{RefreshState, SystemStatus};
use nhl_tui::text::parse_i64;

fn day(year: i32, month: u32, day: u32) -> GameDay {
    GameDay { year, month, day }
}

fn app_state(tab: Tab, stack: Vec<DocumentStackEntry>, content_focused: bool) -> AppState {
    AppState {
        navigation: NavigationState { current_tab: tab, document_stack: stack, content_focused },
        system: SystemStatus {
            refresh: RefreshState::NotLoaded,
            refresh_interval: 60,
            status_message: None,
            status_is_error: false,
        },
    }
}

#[test]
fn test_app_renders_with_default_state() {
    let app = App;
    let view = app.build_with_component_states(&app_state(Tab::Scores, vec![], false));
    // The tab bar over the scores tab, and the status bar
    assert_eq!(view.tabs.tab_bar.labels.len(), 4);
    assert!(view.tabs.tab_bar.labels[0].active);
    assert!(view.tabs.tab_bar.focused);
    assert!(matches!(view.tabs.content, Some(TabContent::Scores)));
    assert_eq!(view.status_bar.preferred_height(), Some(2));
}

#[test]
fn app_shows_document_in_current_tab() {
    let stack = vec![
        DocumentStackEntry::new(StackedDocument::TeamDetail { abbrev: "TOR".to_string() }),
        DocumentStackEntry::new(StackedDocument::PlayerDetail { player_id: 8479318 }),
    ];
    let view = App.build_with_component_states(&app_state(Tab::Standings, stack, false));
    assert!(!view.tabs.tab_bar.focused);
    assert!(view.tabs.tab_bar.labels[1].active);
    match view.tabs.content {
        Some(TabContent::Document { breadcrumb, document }) => {
            assert_eq!(breadcrumb.text(), "Standings > Team: TOR > Player: 8479318");
            assert!(matches!(document, StackedDocument::PlayerDetail { player_id: 8479318 }));
        }
        _ => panic!("Expected the document"),
    }
}

#[test]
fn app_tab_bar_unfocused_when_content_focused() {
    let view = App.build_with_component_states(&app_state(Tab::Demo, vec![], true));
    assert!(!view.tabs.tab_bar.focused);
    assert!(matches!(view.tabs.content, Some(TabContent::Demo)));
    assert_eq!(view.tabs.tab_bar.labels[3].title, "Demo");
}

#[test]
fn test_scores_tab_renders_with_no_schedule() {
    let state = ScoresTabState::new(day(2024, 11, 15));
    let tabs = ScoresTab.date_tabs(&state, true);
    let keys: Vec<&str> = tabs.tabs.iter().map(|t| t.key.as_str()).collect();
    assert_eq!(keys, vec!["2024-11-13", "2024-11-14", "2024-11-15", "2024-11-16", "2024-11-17"]);
    assert_eq!(tabs.tabs[0].title, "11/13");
    assert_eq!(tabs.active_key, "2024-11-15");
    assert!(tabs.focused);
}

#[test]
fn scores_date_window_crosses_month_and_year() {
    let mut state = ScoresTabState::new(day(2024, 12, 31));
    let mut tab = ScoresTab;
    let effect = tab.navigate_right(&mut state);
    assert_eq!(state.game_date, day(2025, 1, 1));
    assert_eq!(state.selected_date_index, 3);
    assert!(matches!(effect, Effect::Action(Action::RefreshSchedule(d)) if d == day(2025, 1, 1)));
    tab.navigate_left(&mut state);
    tab.navigate_left(&mut state);
    assert_eq!(state.game_date, day(2024, 12, 30));
    assert_eq!(state.selected_date_index, 1);
}

#[test]
fn scores_window_edges_move_the_window() {
    let mut state = ScoresTabState::new(day(2024, 3, 1));
    let mut tab = ScoresTab;
    for _ in 0..3 {
        tab.navigate_left(&mut state);
    }
    // index stops at 0 while the day keeps moving (2024 is a leap year)
    assert_eq!(state.selected_date_index, 0);
    assert_eq!(state.game_date, day(2024, 2, 27));
    for _ in 0..6 {
        tab.navigate_right(&mut state);
    }
    assert_eq!(state.selected_date_index, 4);
    assert_eq!(state.game_date, day(2024, 3, 4));
}

#[test]
fn scores_activate_game_opens_boxscore() {
    let mut state = ScoresTabState::new(day(2024, 11, 15));
    state.doc_nav.focusable_ids =
        vec![FocusableId::link("game_2024020001"), FocusableId::link("game_x")];
    state.doc_nav.focus_index = Some(0);
    match ScoresTab.activate_game(&state) {
        Effect::Action(Action::PushDocument(StackedDocument::Boxscore { game_id })) => {
            assert_eq!(game_id, 2024020001)
        }
        _ => panic!("Expected a boxscore"),
    }
    state.doc_nav.focus_index = Some(1);
    assert!(matches!(ScoresTab.activate_game(&state), Effect::Pass));
    state.doc_nav.focus_index = None;
    assert!(matches!(ScoresTab.activate_game(&state), Effect::Pass));
}

#[test]
fn parse_i64_follows_from_str() {
    for s in ["0", "42", "-7", "+13", "9223372036854775807", "-9223372036854775808", "", "-",
        "+", "1a", " 1", "9223372036854775808", "-9223372036854775809", "007"]
    {
        assert_eq!(parse_i64(s), s.parse::<i64>().ok(), "input {:?}", s);
    }
}

fn players() -> BoxscorePlayers {
    BoxscorePlayers {
        away: TeamPlayers { forwards: vec![1, 2], defense: vec![3], goalies: vec![4] },
        home: TeamPlayers { forwards: vec![5], defense: vec![6, 7], goalies: vec![8] },
    }
}

#[test]
fn boxscore_focus_index_walks_both_teams() {
    let handler = BoxscoreDocumentHandler { game_id: 2024020001 };
    let mut boxscores = HashMap::new();
    boxscores.insert(2024020001, players());
    let found: Vec<Option<i64>> =
        (0..9).map(|i| handler.get_player_id_at_index(i, &boxscores)).collect();
    assert_eq!(
        found,
        vec![Some(1), Some(2), Some(3), Some(4), Some(5), Some(6), Some(7), Some(8), None]
    );
    assert!(matches!(
        handler.activate(Some(4), &boxscores),
        Some(StackedDocument::PlayerDetail { player_id: 5 })
    ));
    assert!(handler.activate(None, &boxscores).is_none());
}

#[test]
fn boxscore_without_loaded_data_has_no_players() {
    let handler = BoxscoreDocumentHandler { game_id: 2024020002 };
    let mut boxscores = HashMap::new();
    boxscores.insert(2024020001, players());
    assert_eq!(handler.get_player_id_at_index(0, &boxscores), None);
    assert!(handler.activate(Some(0), &boxscores).is_none());
}

#[test]
fn team_roster_index_goes_from_skaters_to_goalies() {
    let handler = TeamDetailDocumentHandler { abbrev: "TOR".to_string() };
    let skater = |id: i64, points: i32| ClubSkaterRow {
        player_id: id,
        first_name: "A".to_string(),
        last_name: "B".to_string(),
        position: "C".to_string(),
        games_played: 10,
        goals: 0,
        assists: points,
        points,
        plus_minus: 0,
        penalty_minutes: 0,
    };
    let goalie = |id: i64, gp: i32| ClubGoalieRow {
        player_id: id,
        first_name: "G".to_string(),
        last_name: "K".to_string(),
        games_played: gp,
        wins: 0,
        losses: 0,
        overtime_losses: 0,
        goals_against_average: "2.50".to_string(),
        save_percentage: "0.915".to_string(),
        shutouts: 0,
    };
    let roster = ClubStatsRows {
        skaters: vec![skater(10, 5), skater(11, 20)],
        goalies: vec![goalie(30, 3), goalie(31, 40)],
    };
    // Skaters by points: 11 then 10; goalies by games: 31 then 30.
    assert!(matches!(
        handler.activate(Some(0), Some(&roster)),
        Some(StackedDocument::PlayerDetail { player_id: 11 })
    ));
    assert!(matches!(
        handler.activate(Some(2), Some(&roster)),
        Some(StackedDocument::PlayerDetail { player_id: 31 })
    ));
    assert!(matches!(
        handler.activate(Some(3), Some(&roster)),
        Some(StackedDocument::PlayerDetail { player_id: 30 })
    ));
    assert!(handler.activate(Some(4), Some(&roster)).is_none());
    assert!(handler.activate(None, Some(&roster)).is_none());
    assert!(handler.activate(Some(0), None).is_none());
}
