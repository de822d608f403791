use nhl_tui::action::{Action, Effect};
use nhl_tui::focus::FocusableId;
use nhl_tui::link::GameDay;
use nhl_tui::nav::StackedDocument;
use nhl_tui::breadcrumb::BreadcrumbProvider;
use nhl_tui::scores_grid::{format_start_time, start_time_label};
use nhl_tui::scores_tab::{ScoresBreadcrumbProvider, ScoresKey, ScoresTab, ScoresTabMsg, ScoresTabState};

fn day(year: i32, month: u32, day: u32) -> GameDay {
    GameDay { year, month, day }
}

fn refreshed(e: &Effect) -> Option<GameDay> {
    match e {
        Effect::Action(Action::RefreshSchedule(d)) => Some(*d),
        _ => None,
    }
}

fn with_games(mut state: ScoresTabState, ids: &[&str]) -> ScoresTabState {
    for (i, id) in ids.iter().enumerate() {
        state.doc_nav.focusable_positions.push(i as u16);
        state.doc_nav.focusable_heights.push(1);
        state.doc_nav.focusable_ids.push(FocusableId::Link(id.to_string()));
        state.doc_nav.focusable_row_positions.push(None);
        state.doc_nav.link_targets.push(None);
    }
    state
}

#[test]
fn scores_tab_starts_in_the_middle_of_the_window() {
    let state = ScoresTabState::new(day(2024, 11, 8));
    assert_eq!(state.selected_date_index, 2);
    assert_eq!(state.game_date, day(2024, 11, 8));
    assert_eq!(state.doc_nav.focus_index, None);
}

#[test]
fn navigate_left_moves_within_the_window_and_across_a_year() {
    let mut tab = ScoresTab;
    let mut state = ScoresTabState::new(day(2024, 1, 1));
    let e = tab.update(ScoresTabMsg::NavigateLeft, &mut state);
    assert_eq!(state.selected_date_index, 1);
    assert_eq!(state.game_date, day(2023, 12, 31));
    assert_eq!(refreshed(&e), Some(day(2023, 12, 31)));
}

#[test]
fn navigate_left_at_the_edge_moves_the_window() {
    let mut tab = ScoresTab;
    let mut state = ScoresTabState::new(day(2024, 3, 1));
    state.selected_date_index = 0;
    let e = tab.update(ScoresTabMsg::NavigateLeft, &mut state);
    assert_eq!(state.selected_date_index, 0);
    assert_eq!(state.game_date, day(2024, 2, 29));
    assert_eq!(refreshed(&e), Some(day(2024, 2, 29)));
}

#[test]
fn navigate_right_at_the_edge_moves_the_window() {
    let mut tab = ScoresTab;
    let mut state = ScoresTabState::new(day(2023, 2, 28));
    state.selected_date_index = 4;
    let e = tab.update(ScoresTabMsg::NavigateRight, &mut state);
    assert_eq!(state.selected_date_index, 4);
    assert_eq!(state.game_date, day(2023, 3, 1));
    assert_eq!(refreshed(&e), Some(day(2023, 3, 1)));
}

#[test]
fn left_then_right_comes_back_to_the_same_day() {
    let mut tab = ScoresTab;
    let mut state = ScoresTabState::new(day(2024, 11, 8));
    tab.handle_key(ScoresKey::Left, &mut state);
    tab.handle_key(ScoresKey::Right, &mut state);
    assert_eq!(state.game_date, day(2024, 11, 8));
    assert_eq!(state.selected_date_index, 2);
}

#[test]
fn date_tabs_show_the_window_around_the_selected_day() {
    let tab = ScoresTab;
    let mut state = ScoresTabState::new(day(2024, 12, 31));
    state.selected_date_index = 1;
    let props = tab.date_tabs(&state, true);
    let keys: Vec<&str> = props.tabs.iter().map(|t| t.key.as_str()).collect();
    let titles: Vec<&str> = props.tabs.iter().map(|t| t.title.as_str()).collect();
    assert_eq!(keys, vec!["2024-12-30", "2024-12-31", "2025-01-01", "2025-01-02", "2025-01-03"]);
    assert_eq!(titles, vec!["12/30", "12/31", "01/01", "01/02", "01/03"]);
    assert_eq!(props.active_key, "2024-12-31");
    assert!(props.focused);
}

#[test]
fn date_tabs_lose_the_focus_while_browsing_games() {
    let tab = ScoresTab;
    let mut state = with_games(ScoresTabState::new(day(2024, 11, 8)), &["game_1"]);
    state.doc_nav.focus_index = Some(0);
    let props = tab.date_tabs(&state, true);
    assert!(!props.focused);
}

#[test]
fn down_starts_browsing_the_games() {
    let mut tab = ScoresTab;
    let mut state = with_games(ScoresTabState::new(day(2024, 11, 8)), &["game_1", "game_2"]);
    let e = tab.handle_key(ScoresKey::Down, &mut state);
    assert!(matches!(e, Effect::Pass));
    assert_eq!(state.doc_nav.focus_index, Some(0));
}

#[test]
fn enter_on_a_focused_game_opens_its_boxscore() {
    let mut tab = ScoresTab;
    let mut state = with_games(ScoresTabState::new(day(2024, 11, 8)), &["game_1", "game_2024020005"]);
    state.doc_nav.focus_index = Some(1);
    let e = tab.handle_key(ScoresKey::Enter, &mut state);
    assert!(matches!(
        e,
        Effect::Action(Action::PushDocument(StackedDocument::Boxscore { game_id: 2024020005 }))
    ));
}

#[test]
fn enter_on_a_link_that_is_no_game_does_nothing() {
    let mut tab = ScoresTab;
    let mut state = with_games(ScoresTabState::new(day(2024, 11, 8)), &["team_TOR", "game_x"]);
    state.doc_nav.focus_index = Some(0);
    assert!(matches!(tab.update(ScoresTabMsg::ActivateGame, &mut state), Effect::Pass));
    state.doc_nav.focus_index = Some(1);
    assert!(matches!(tab.update(ScoresTabMsg::ActivateGame, &mut state), Effect::Pass));
}

#[test]
fn navigate_up_leaves_browse_mode_first() {
    let mut tab = ScoresTab;
    let mut state = with_games(ScoresTabState::new(day(2024, 11, 8)), &["game_1"]);
    state.doc_nav.focus_index = Some(0);
    state.doc_nav.scroll_offset = 3;
    assert!(matches!(tab.update(ScoresTabMsg::NavigateUp, &mut state), Effect::Handled));
    assert_eq!(state.doc_nav.focus_index, None);
    assert_eq!(state.doc_nav.scroll_offset, 0);
    assert!(matches!(tab.update(ScoresTabMsg::NavigateUp, &mut state), Effect::Pass));
}

#[test]
fn viewport_height_is_recorded() {
    let mut tab = ScoresTab;
    let mut state = ScoresTabState::new(day(2024, 11, 8));
    assert!(matches!(tab.update(ScoresTabMsg::UpdateViewportHeight(17), &mut state), Effect::Pass));
    assert_eq!(state.doc_nav.viewport_height, 17);
}

#[test]
fn up_and_down_move_among_the_games_while_browsing() {
    let mut tab = ScoresTab;
    let mut state = with_games(ScoresTabState::new(day(2024, 11, 8)), &["game_1", "game_2", "game_3"]);
    state.doc_nav.focus_index = Some(0);
    assert!(matches!(tab.handle_key(ScoresKey::Down, &mut state), Effect::Pass));
    assert_eq!(state.doc_nav.focus_index, Some(1));
    tab.handle_key(ScoresKey::Up, &mut state);
    tab.handle_key(ScoresKey::Up, &mut state);
    assert_eq!(state.doc_nav.focus_index, Some(2));
    assert_eq!(state.game_date, day(2024, 11, 8));
}

#[test]
fn scores_breadcrumb_names_every_month_and_far_years() {
    let label = |year: i32, month: u32, day: u32| {
        ScoresBreadcrumbProvider::new(true, GameDay { year, month, day }).get_breadcrumb_items()[1].clone()
    };
    assert_eq!(label(2025, 1, 31), "Jan 31, 2025");
    assert_eq!(label(2025, 5, 1), "May 01, 2025");
    assert_eq!(label(2025, 12, 25), "Dec 25, 2025");
    assert_eq!(label(12345, 3, 9), "Mar 09, +12345");
    assert_eq!(label(-5, 6, 9), "Jun 09, -0005");
    assert_eq!(label(7, 9, 9), "Sep 09, 0007");
}

#[test]
fn score_box_start_time_is_hour_and_half_of_day() {
    assert_eq!(format_start_time("2024-01-15T00:00:00Z", Some((true, 7))), "7PM");
    assert_eq!(format_start_time("2024-01-15T00:00:00Z", Some((false, 12))), "12AM");
    assert_eq!(format_start_time("TBD", None), "TBD");
    assert_eq!(start_time_label("TBD"), "TBD");
    let label = start_time_label("2024-01-15T19:00:00Z");
    assert!(label.ends_with("AM") || label.ends_with("PM"));
    let hour: u32 = label[..label.len() - 2].parse().unwrap();
    assert!((1..=12).contains(&hour));
}
