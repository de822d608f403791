use nhl_tui::nav::DocumentNavMsg;
use nhl_tui::action::{Action, Effect, SettingsAction};
use nhl_tui::document::{Document, FocusContext};
use nhl_tui::elements::DocumentElement;
use nhl_tui::focus::FocusableId;
use nhl_tui::link::LinkTarget;
use nhl_tui::settings_tab::{
    get_focusable_ids_for_category, ModalMsg, ModalOption, ModalState, SettingsCategory,
    SettingsKey, SettingsTab, SettingsTabMsg, SettingsTabProps, SettingsTabState,
};

/// A settings document listing the settings of a category, one link per
/// line with a blank line between.
struct CategoryDocument(SettingsCategory);

impl Document for CategoryDocument {
    fn build(&self, _focus: &FocusContext) -> Vec<DocumentElement> {
        let mut elements = Vec::new();
        for id in get_focusable_ids_for_category(self.0) {
            if let FocusableId::Link(name) = id {
                elements.push(DocumentElement::link(
                    &name,
                    &name,
                    LinkTarget::Action(name.clone()),
                ));
                elements.push(DocumentElement::spacer(1));
            }
        }
        elements
    }

    fn title(&self) -> String {
        "Settings".to_string()
    }

    fn id(&self) -> String {
        "settings".to_string()
    }
}

fn options() -> Vec<ModalOption> {
    vec![
        ModalOption { id: "debug".to_string(), display_name: "Debug".to_string() },
        ModalOption { id: "info".to_string(), display_name: "Info".to_string() },
        ModalOption { id: "warn".to_string(), display_name: "Warn".to_string() },
    ]
}

fn state_with_modal(selected_index: usize) -> SettingsTabState {
    let mut state = SettingsTabState::default();
    state.modal = Some(ModalState {
        options: options(),
        selected_index,
        setting_key: "log_level".to_string(),
        position_x: 10,
        position_y: 0,
    });
    state
}

#[test]
fn test_settings_tab_init() {
    let props = SettingsTabProps {
        selected_category: SettingsCategory::Logging,
        focused: false,
    };
    let state = SettingsTab::init(&props, &CategoryDocument(props.selected_category));

    assert_eq!(state.doc_nav.focus_index, None);
    assert_eq!(state.doc_nav.scroll_offset, 0);
}

#[test]
fn test_category_to_key() {
    let settings_tab = SettingsTab;

    assert_eq!(
        settings_tab.category_to_key(SettingsCategory::Logging),
        "logging"
    );
    assert_eq!(
        settings_tab.category_to_key(SettingsCategory::Display),
        "display"
    );
    assert_eq!(settings_tab.category_to_key(SettingsCategory::Data), "data");
}

#[test]
fn test_set_category_resets_state() {
    let mut component = SettingsTab;
    let mut state = SettingsTabState::default();

    // Set some state
    state.doc_nav.focus_index = Some(2);
    state.doc_nav.scroll_offset = 10;

    let effect = component.update(SettingsTabMsg::SetCategory(SettingsCategory::Display), &mut state);

    // State should be reset
    assert_eq!(state.doc_nav.focus_index, None);
    assert_eq!(state.doc_nav.scroll_offset, 0);
    assert!(matches!(effect, Effect::Pass));
}

#[test]
fn test_get_focusable_ids_logging() {
    let ids = get_focusable_ids_for_category(SettingsCategory::Logging);
    assert_eq!(ids.len(), 2);
    assert!(matches!(ids[0], FocusableId::Link(_)));
}

#[test]
fn test_get_focusable_ids_display() {
    let ids = get_focusable_ids_for_category(SettingsCategory::Display);
    assert_eq!(ids.len(), 2);
}

#[test]
fn test_get_focusable_ids_data() {
    let ids = get_focusable_ids_for_category(SettingsCategory::Data);
    assert_eq!(ids.len(), 3);
}

#[test]
fn settings_init_takes_the_document_metadata() {
    let props = SettingsTabProps {
        selected_category: SettingsCategory::Data,
        focused: true,
    };
    let state = SettingsTab::init(&props, &CategoryDocument(SettingsCategory::Data));
    assert_eq!(state.doc_nav.focusable_positions, vec![0, 2, 4]);
    assert_eq!(
        state.doc_nav.focusable_ids,
        get_focusable_ids_for_category(SettingsCategory::Data)
    );
    assert!(state.modal.is_none());
}

#[test]
fn modal_down_stops_at_last_option() {
    let mut tab = SettingsTab;
    let mut state = state_with_modal(1);
    tab.update(SettingsTabMsg::Modal(ModalMsg::Down), &mut state);
    assert_eq!(state.modal.as_ref().unwrap().selected_index, 2);
    tab.update(SettingsTabMsg::Modal(ModalMsg::Down), &mut state);
    assert_eq!(state.modal.as_ref().unwrap().selected_index, 2);
}

#[test]
fn modal_up_stops_at_first_option() {
    let mut tab = SettingsTab;
    let mut state = state_with_modal(1);
    tab.update(SettingsTabMsg::Modal(ModalMsg::Up), &mut state);
    assert_eq!(state.modal.as_ref().unwrap().selected_index, 0);
    tab.update(SettingsTabMsg::Modal(ModalMsg::Up), &mut state);
    assert_eq!(state.modal.as_ref().unwrap().selected_index, 0);
}

#[test]
fn modal_confirm_stores_selected_option_id() {
    let mut tab = SettingsTab;
    let mut state = state_with_modal(1);
    let effect = tab.update(SettingsTabMsg::Modal(ModalMsg::Confirm), &mut state);
    assert!(state.modal.is_none());
    match effect {
        Effect::Action(Action::SettingsAction(SettingsAction::UpdateSetting { key, value })) => {
            assert_eq!(key, "log_level");
            assert_eq!(value, "info");
        }
        _ => panic!("Expected UpdateSetting"),
    }
}

#[test]
fn modal_confirm_past_the_options_stores_empty_value() {
    let mut tab = SettingsTab;
    let mut state = state_with_modal(7);
    match tab.update(SettingsTabMsg::Modal(ModalMsg::Confirm), &mut state) {
        Effect::Action(Action::SettingsAction(SettingsAction::UpdateSetting { value, .. })) => {
            assert_eq!(value, "");
        }
        _ => panic!("Expected UpdateSetting"),
    }
}

#[test]
fn modal_cancel_closes_without_action() {
    let mut tab = SettingsTab;
    let mut state = state_with_modal(0);
    let effect = tab.update(SettingsTabMsg::Modal(ModalMsg::Cancel), &mut state);
    assert!(state.modal.is_none());
    assert!(matches!(effect, Effect::Pass));
}

#[test]
fn navigate_up_closes_modal_then_leaves_browse_mode() {
    let mut tab = SettingsTab;
    let mut state = state_with_modal(0);
    state.doc_nav.focus_index = Some(1);
    assert!(matches!(tab.update(SettingsTabMsg::NavigateUp, &mut state), Effect::Handled));
    assert!(state.modal.is_none());
    assert_eq!(state.doc_nav.focus_index, Some(1));
    assert!(matches!(tab.update(SettingsTabMsg::NavigateUp, &mut state), Effect::Handled));
    assert_eq!(state.doc_nav.focus_index, None);
    assert!(matches!(tab.update(SettingsTabMsg::NavigateUp, &mut state), Effect::Pass));
}

#[test]
fn activate_list_setting_opens_modal_at_its_line() {
    let mut tab = SettingsTab;
    let mut state = SettingsTabState::default();
    state.doc_nav.focusable_ids = get_focusable_ids_for_category(SettingsCategory::Logging);
    state.doc_nav.focusable_positions = vec![3, 5];
    state.doc_nav.focus_index = Some(0);
    let effect = tab.update(SettingsTabMsg::ActivateSetting { options: options(), initial_index: 2 }, &mut state);
    assert!(matches!(effect, Effect::Pass));
    let modal = state.modal.as_ref().unwrap();
    assert_eq!(modal.setting_key, "log_level");
    assert_eq!(modal.selected_index, 2);
    assert_eq!(modal.position_x, 10);
    assert_eq!(modal.position_y, 3);
}

#[test]
fn activate_boolean_setting_toggles_it() {
    let mut tab = SettingsTab;
    let mut state = SettingsTabState::default();
    state.doc_nav.focusable_ids = get_focusable_ids_for_category(SettingsCategory::Display);
    state.doc_nav.focus_index = Some(1);
    match tab.update(SettingsTabMsg::ActivateSetting { options: options(), initial_index: 0 }, &mut state) {
        Effect::Action(Action::SettingsAction(SettingsAction::ToggleBoolean(key))) => {
            assert_eq!(key, "use_unicode")
        }
        _ => panic!("Expected ToggleBoolean"),
    }
    assert!(state.modal.is_none());
}

#[test]
fn activate_other_setting_does_nothing() {
    let mut tab = SettingsTab;
    let mut state = SettingsTabState::default();
    state.doc_nav.focusable_ids = get_focusable_ids_for_category(SettingsCategory::Logging);
    state.doc_nav.focus_index = Some(1);
    assert!(matches!(tab.update(SettingsTabMsg::ActivateSetting { options: options(), initial_index: 0 }, &mut state), Effect::Pass));
    assert!(state.modal.is_none());
}

#[test]
fn keys_in_category_mode() {
    let mut tab = SettingsTab;
    let mut state = SettingsTabState::default();
    assert!(matches!(
        tab.handle_key(SettingsKey::Left, &mut state),
        Effect::Action(Action::SettingsAction(SettingsAction::NavigateCategoryLeft))
    ));
    assert!(matches!(
        tab.handle_key(SettingsKey::Right, &mut state),
        Effect::Action(Action::SettingsAction(SettingsAction::NavigateCategoryRight))
    ));
    // no settings loaded: Down does not start browsing
    tab.handle_key(SettingsKey::Down, &mut state);
    assert_eq!(state.doc_nav.focus_index, None);
    state.doc_nav.focusable_positions = vec![0, 2];
    tab.handle_key(SettingsKey::Enter, &mut state);
    assert_eq!(state.doc_nav.focus_index, Some(0));
}

#[test]
fn keys_with_modal_open() {
    let mut tab = SettingsTab;
    let mut state = state_with_modal(0);
    tab.handle_key(SettingsKey::Down, &mut state);
    assert_eq!(state.modal.as_ref().unwrap().selected_index, 1);
    tab.handle_key(SettingsKey::Esc, &mut state);
    assert!(state.modal.is_none());
}

#[test]
fn test_update_viewport_height() {
    let mut component = SettingsTab;
    let mut state = SettingsTabState::default();

    let effect = component.update(SettingsTabMsg::UpdateViewportHeight(50), &mut state);

    assert_eq!(state.doc_nav.viewport_height, 50);
    assert!(matches!(effect, Effect::Pass));
}

#[test]
fn settings_keys_drive_the_open_list() {
    let mut tab = SettingsTab;
    let mut state = SettingsTabState::default();
    state.modal = Some(ModalState {
        options: options(),
        selected_index: 0,
        setting_key: "theme".to_string(),
        position_x: 10,
        position_y: 2,
    });
    tab.update(SettingsTabMsg::Key(SettingsKey::Down), &mut state);
    assert_eq!(state.modal.as_ref().unwrap().selected_index, 1);
    match tab.update(SettingsTabMsg::Key(SettingsKey::Enter), &mut state) {
        Effect::Action(Action::SettingsAction(SettingsAction::UpdateSetting { key, value })) => {
            assert_eq!(key, "theme");
            assert_eq!(value, options()[1].id);
        }
        _ => panic!("Expected an update of the setting"),
    }
    assert!(state.modal.is_none());
}

#[test]
fn test_doc_nav_message_handling() {

    let mut component = SettingsTab;
    let mut state = SettingsTabState::default();

    // Set up some focusable elements
    state.doc_nav.focusable_positions = vec![0, 2, 4];
    state.doc_nav.focus_index = Some(0);

    let effect = component.update(SettingsTabMsg::DocNav(DocumentNavMsg::FocusNext), &mut state);

    assert_eq!(state.doc_nav.focus_index, Some(1));
    assert!(matches!(effect, Effect::Pass));
}

#[test]
fn doc_nav_wraps_around_the_settings() {

    let mut component = SettingsTab;
    let mut state = SettingsTabState::default();
    state.doc_nav.focusable_positions = vec![0, 2, 4];
    state.doc_nav.focus_index = Some(2);
    component.update(SettingsTabMsg::DocNav(DocumentNavMsg::FocusNext), &mut state);
    assert_eq!(state.doc_nav.focus_index, Some(0));
    component.update(SettingsTabMsg::DocNav(DocumentNavMsg::FocusPrev), &mut state);
    assert_eq!(state.doc_nav.focus_index, Some(2));
}

#[test]
fn settings_up_and_down_move_among_settings_while_browsing() {
    let mut tab = SettingsTab;
    let mut state = SettingsTabState::default();
    state.doc_nav.focusable_positions = vec![0, 2];
    state.doc_nav.focus_index = Some(0);
    assert!(matches!(tab.handle_key(SettingsKey::Down, &mut state), Effect::Pass));
    assert_eq!(state.doc_nav.focus_index, Some(1));
    tab.handle_key(SettingsKey::Up, &mut state);
    assert_eq!(state.doc_nav.focus_index, Some(0));
}
