//! The settings tab: categories of settings shown as documents, with a
//! modal list for settings chosen from a list of options.

use vstd::prelude::*;

use crate::action::{Action, Effect, SettingsAction};
use crate::document::{Document, layout_ids, layout_positions, layout_row_positions, unfocused};
use crate::elements::{DocumentElement, group_ok, keys};
use crate::focus::{FocusKey, FocusableId};
use crate::nav::{DocumentNavMsg, DocumentNavState, nav_moved};
use crate::text::str_eq;

verus! {

/// The categories of settings.
#[derive(Clone, Copy, Debug, PartialEq, Eq, Structural)]
pub enum SettingsCategory {
    Logging,
    Display,
    Data,
}

/// The properties of the settings tab.
#[derive(Debug)]
pub struct SettingsTabProps {
    pub selected_category: SettingsCategory,
    pub focused: bool,
}

/// Messages of the option list.
#[derive(Clone, Copy, Debug, PartialEq, Eq, Structural)]
pub enum ModalMsg {
    Up,
    Down,
    Confirm,
    Cancel,
}

/// An option of the list: the value stored and the name shown.
#[derive(Debug)]
pub struct ModalOption {
    pub id: String,
    pub display_name: String,
}

/// The open option list of a setting.
#[derive(Debug)]
pub struct ModalState {
    pub options: Vec<ModalOption>,
    pub selected_index: usize,
    pub setting_key: String,
    pub position_x: u16,
    pub position_y: u16,
}

/// The state of the settings tab.
#[derive(Debug)]
pub struct SettingsTabState {
    /// Navigation in the current category's document.
    pub doc_nav: DocumentNavState,
    /// The open option list, if any.
    pub modal: Option<ModalState>,
}

impl Default for SettingsTabState {
    fn default() -> (s: Self)
        ensures
            s.doc_nav.is_fresh(),
            s.modal is None,
    {
        SettingsTabState { doc_nav: DocumentNavState::default(), modal: None }
    }
}

/// The keys the settings tab reacts to.
#[derive(Clone, Copy, Debug, PartialEq, Eq, Structural)]
pub enum SettingsKey {
    Up,
    Down,
    Left,
    Right,
    Enter,
    Esc,
    Other,
}

/// The settings tab component.
#[derive(Debug)]
pub struct SettingsTab;

/// Messages handled by the settings tab.
#[derive(Debug)]
pub enum SettingsTabMsg {
    /// A key pressed while the tab has the focus.
    Key(SettingsKey),
    /// Escape: close the list, leave browse mode, or hand the message up.
    NavigateUp,
    /// The height of the visible area changed.
    UpdateViewportHeight(u16),
    /// Another category was selected.
    SetCategory(SettingsCategory),
    /// Activate the focused setting; a list setting opens with these
    /// options and this selection.
    ActivateSetting { options: Vec<ModalOption>, initial_index: usize },
    /// A message of the option list.
    Modal(ModalMsg),
    /// A focus move within the category's document.
    DocNav(DocumentNavMsg),
}

/// The tab key of a category.
pub open spec fn category_key(category: SettingsCategory) -> Seq<char> {
    match category {
        SettingsCategory::Logging => "logging"@,
        SettingsCategory::Display => "display"@,
        SettingsCategory::Data => "data"@,
    }
}

/// The settings of each category, in document order.
pub open spec fn category_settings(category: SettingsCategory) -> Seq<Seq<char>> {
    match category {
        SettingsCategory::Logging => seq!["log_level"@, "log_file"@],
        SettingsCategory::Display => seq!["theme"@, "use_unicode"@],
        SettingsCategory::Data => seq!["refresh_interval"@, "western_teams_first"@, "time_format"@],
    }
}

/// The selected option after a move in the list: up stops at the first
/// option, down at the last.
pub open spec fn moved_selection(selected: usize, len: nat, msg: ModalMsg) -> usize {
    match msg {
        ModalMsg::Up => if selected >= 1 {
            (selected - 1) as usize
        } else {
            0
        },
        ModalMsg::Down => {
            let last: int = if len >= 1 {
                len - 1
            } else {
                0
            };
            if selected + 1 <= last {
                (selected + 1) as usize
            } else {
                last as usize
            }
        },
        _ => selected,
    }
}

/// The value a confirmed list stores: the selected option's ID, or the
/// empty text when the selection is past the options.
pub open spec fn confirmed_value(m: ModalState) -> Seq<char> {
    if m.selected_index < m.options@.len() {
        m.options@[m.selected_index as int].id@
    } else {
        Seq::empty()
    }
}

/// Whether a setting is a boolean flipped on activation.
pub open spec fn is_toggle_setting(key: Seq<char>) -> bool {
    key == "use_unicode"@ || key == "western_teams_first"@
}

/// Whether a setting is chosen from a list of options.
pub open spec fn is_list_setting(key: Seq<char>) -> bool {
    key == "log_level"@ || key == "theme"@
}

/// The ID of the focused link of a document, if the focus is on a link.
pub open spec fn focused_link_id(nav: DocumentNavState) -> Option<Seq<char>> {
    match nav.focus_index {
        Some(i) => if i < nav.focusable_ids@.len() {
            match nav.focusable_ids@[i as int]@ {
                FocusKey::Link(id) => Some(id),
                _ => None,
            }
        } else {
            None
        },
        None => None,
    }
}

/// What a message of the option list does: Up and Down move the selection
/// within the options, Cancel closes the list, Confirm closes it and asks to
/// store the selected option's ID; without an open list nothing happens.
/// The document navigation is untouched.
pub open spec fn modal_result(
    msg: ModalMsg,
    before: SettingsTabState,
    after: SettingsTabState,
    e: Effect,
) -> bool {
    &&& after.doc_nav == before.doc_nav
    &&& match before.modal {
        None => after.modal is None && e is Pass,
        Some(m) => match msg {
            ModalMsg::Up | ModalMsg::Down => after.modal == Some(
                ModalState { selected_index: moved_selection(m.selected_index, m.options@.len(), msg), ..m },
            ) && e is Pass,
            ModalMsg::Cancel => after.modal is None && e is Pass,
            ModalMsg::Confirm => after.modal is None && (e matches Effect::Action(
                Action::SettingsAction(SettingsAction::UpdateSetting { key, value }),
            ) && key@ == m.setting_key@ && value@ == confirmed_value(m)),
        },
    }
}

/// What Escape does: it closes the open list; otherwise it leaves browse
/// mode; otherwise it is left to the caller.
pub open spec fn navigated_up(before: SettingsTabState, after: SettingsTabState, e: Effect) -> bool {
    &&& before.modal is Some ==> after.modal is None && after.doc_nav == before.doc_nav && e is Handled
    &&& before.modal is None && before.doc_nav.browsing() ==> after.modal is None && after.doc_nav == (
    DocumentNavState { focus_index: None, scroll_offset: 0, ..before.doc_nav }) && e is Handled
    &&& before.modal is None && !before.doc_nav.browsing() ==> after == before && e is Pass
}

/// What Enter on the focused setting does: a boolean is flipped, a list
/// setting opens its option list (with the given options and initial
/// selection) next to the setting's line; other settings, or a focus that
/// is not on a link, do nothing.
pub open spec fn setting_activated(
    before: SettingsTabState,
    after: SettingsTabState,
    options: Vec<ModalOption>,
    initial_index: usize,
    e: Effect,
) -> bool {
    &&& after.doc_nav == before.doc_nav
    &&& match focused_link_id(before.doc_nav) {
        Some(key) => if is_toggle_setting(key) {
            after.modal == before.modal && (e matches Effect::Action(
                Action::SettingsAction(SettingsAction::ToggleBoolean(k)),
            ) && k@ == key)
        } else if is_list_setting(key) {
            e is Pass && (after.modal matches Some(m) && m.options == options && m.selected_index
                == initial_index && m.setting_key@ == key && m.position_x == 10 && m.position_y == (
            if before.doc_nav.focus_index->0 < before.doc_nav.focusable_positions@.len() {
                before.doc_nav.focusable_positions@[before.doc_nav.focus_index->0 as int]
            } else {
                0
            }))
        } else {
            after.modal == before.modal && e is Pass
        },
        None => after.modal == before.modal && e is Pass,
    }
}

/// What a key does. With the option list open, Up, Down, Enter and Esc
/// move, confirm and cancel; while browsing, Enter asks to toggle the
/// focused setting and Up and Down move the focus; otherwise Left and Right select the neighbouring
/// category and Down or Enter start browsing at the first setting.
pub open spec fn settings_key_result(
    key: SettingsKey,
    before: SettingsTabState,
    after: SettingsTabState,
    e: Effect,
) -> bool {
    &&& before.modal is None && !before.doc_nav.browsing() ==> match key {
        SettingsKey::Left => e matches Effect::Action(
            Action::SettingsAction(SettingsAction::NavigateCategoryLeft),
        ) && after == before,
        SettingsKey::Right => e matches Effect::Action(
            Action::SettingsAction(SettingsAction::NavigateCategoryRight),
        ) && after == before,
        SettingsKey::Down | SettingsKey::Enter => e is Pass && after.doc_nav == (DocumentNavState {
            focus_index: if before.doc_nav.focusable_positions@.len() > 0 {
                Some(0usize)
            } else {
                None
            },
            ..before.doc_nav
        }) && after.modal is None,
        _ => e is Pass && after == before,
    }
    &&& before.modal is None && before.doc_nav.browsing() ==> match key {
        SettingsKey::Enter => after == before && (e matches Effect::Action(
            Action::SettingsAction(SettingsAction::ToggleBoolean(k)),
        ) && k@ == "placeholder"@),
        SettingsKey::Up => after.modal == before.modal && after.doc_nav == nav_moved(
            before.doc_nav,
            DocumentNavMsg::FocusPrev,
        ) && e is Pass,
        SettingsKey::Down => after.modal == before.modal && after.doc_nav == nav_moved(
            before.doc_nav,
            DocumentNavMsg::FocusNext,
        ) && e is Pass,
        _ => after == before && e is Pass,
    }
    &&& before.modal is Some ==> match key {
        SettingsKey::Up => modal_result(ModalMsg::Up, before, after, e),
        SettingsKey::Down => modal_result(ModalMsg::Down, before, after, e),
        SettingsKey::Enter => modal_result(ModalMsg::Confirm, before, after, e),
        SettingsKey::Esc => modal_result(ModalMsg::Cancel, before, after, e),
        _ => after == before && e is Pass,
    }
}

impl SettingsTab {
    /// The initial state for a category's settings document: nothing
    /// focused, scrolled to the top, no list open, and the line positions,
    /// identifiers and row positions of the focusable elements of the
    /// layout the document builds with nothing focused (none where that
    /// layout does not fit in 16-bit line positions).
    pub fn init<D: Document>(props: &SettingsTabProps, document: &D) -> (s: SettingsTabState)
        ensures
            s.doc_nav.focus_index is None,
            s.doc_nav.scroll_offset == 0,
            s.doc_nav.viewport_height == 0,
            s.doc_nav.focusable_heights@.len() == 0,
            s.doc_nav.link_targets@.len() == 0,
            s.modal is None,
            exists|els: Seq<DocumentElement>|
                #[trigger] document.built(unfocused(), els) && s.doc_nav.focusable_positions@ == (
                if group_ok(els, 0, true) {
                    layout_positions(els)
                } else {
                    Seq::empty()
                }),
            exists|els: Seq<DocumentElement>|
                #[trigger] document.built(unfocused(), els) && keys(s.doc_nav.focusable_ids@) == (
                if group_ok(els, 0, true) {
                    layout_ids(els)
                } else {
                    Seq::empty()
                }),
            exists|els: Seq<DocumentElement>|
                #[trigger] document.built(unfocused(), els) && s.doc_nav.focusable_row_positions@
                    == (if group_ok(els, 0, true) {
                    layout_row_positions(els)
                } else {
                    Seq::empty()
                }),
    {
        let mut state = SettingsTabState::default();
        let positions = document.focusable_positions();
        let ghost e1 = choose|els: Seq<DocumentElement>|
            #[trigger] document.built(unfocused(), els) && match positions {
                Some(v) => group_ok(els, 0, true) && v@ == layout_positions(els),
                None => !group_ok(els, 0, true),
            };
        match positions {
            Some(p) => {
                state.doc_nav.focusable_positions = p;
            },
            None => {},
        }
        let ids = document.focusable_ids();
        let ghost e2 = choose|els: Seq<DocumentElement>|
            #[trigger] document.built(unfocused(), els) && match ids {
                Some(v) => group_ok(els, 0, true) && keys(v@) == layout_ids(els),
                None => !group_ok(els, 0, true),
            };
        match ids {
            Some(ids) => {
                state.doc_nav.focusable_ids = ids;
            },
            None => {
                assert(keys(state.doc_nav.focusable_ids@) =~= Seq::<FocusKey>::empty());
            },
        }
        let rows = document.focusable_row_positions();
        let ghost e3 = choose|els: Seq<DocumentElement>|
            #[trigger] document.built(unfocused(), els) && match rows {
                Some(v) => group_ok(els, 0, true) && v@ == layout_row_positions(els),
                None => !group_ok(els, 0, true),
            };
        match rows {
            Some(r) => {
                state.doc_nav.focusable_row_positions = r;
            },
            None => {},
        }
        assert(document.built(unfocused(), e1));
        assert(document.built(unfocused(), e2));
        assert(document.built(unfocused(), e3));
        state
    }

    /// Handle a message of the option list.  Up and Down move the selection
    /// within the options, Cancel closes the list, Confirm closes it and
    /// asks to store the selected option's ID.  Without an open list
    /// nothing happens.
    pub fn update_modal(&mut self, msg: ModalMsg, state: &mut SettingsTabState) -> (e: Effect)
        ensures
            modal_result(msg, *old(state), *final(state), e),
    {
        let mut close = false;
        let mut effect = Effect::Pass;
        match &mut state.modal {
            Some(modal) => {
                match msg {
                    ModalMsg::Up => {
                        modal.selected_index = modal.selected_index.saturating_sub(1);
                    },
                    ModalMsg::Down => {
                        let last = modal.options.len().saturating_sub(1);
                        let next = if modal.selected_index < usize::MAX {
                            modal.selected_index + 1
                        } else {
                            usize::MAX
                        };
                        modal.selected_index = if next <= last {
                            next
                        } else {
                            last
                        };
                    },
                    ModalMsg::Cancel => {
                        close = true;
                    },
                    ModalMsg::Confirm => {
                        let value = if modal.selected_index < modal.options.len() {
                            modal.options[modal.selected_index].id.clone()
                        } else {
                            String::new()
                        };
                        effect =
                        Effect::Action(Action::SettingsAction(
                            SettingsAction::UpdateSetting { key: modal.setting_key.clone(), value },
                        ));
                        close = true;
                    },
                }
            },
            None => {},
        }
        if close {
            state.modal = None;
        }
        effect
    }

    /// Escape: close the open list; otherwise leave browse mode; otherwise
    /// leave the message to the caller.
    pub fn navigate_up(&mut self, state: &mut SettingsTabState) -> (e: Effect)
        ensures
            navigated_up(*old(state), *final(state), e),
    {
        if state.modal.is_some() {
            state.modal = None;
            return Effect::Handled;
        }
        if state.doc_nav.is_browse_mode() {
            state.doc_nav.exit_browse_mode();
            return Effect::Handled;
        }
        Effect::Pass
    }

    /// A change of category: the document navigation starts afresh.
    pub fn set_category(&mut self, category: SettingsCategory, state: &mut SettingsTabState) -> (e:
        Effect)
        ensures
            final(state).doc_nav.is_fresh(),
            final(state).modal == old(state).modal,
            e is Pass,
    {
        state.doc_nav = DocumentNavState::default();
        Effect::Pass
    }

    /// Enter on the focused setting: a boolean is flipped, a list setting
    /// opens its option list (with the given options and initial selection)
    /// next to the setting's line; other settings, or a focus that is not on
    /// a link, do nothing.
    pub fn activate_setting(
        &mut self,
        state: &mut SettingsTabState,
        options: Vec<ModalOption>,
        initial_index: usize,
    ) -> (e: Effect)
        ensures
            setting_activated(*old(state), *final(state), options, initial_index, e),
    {
        proof {
            reveal_strlit("use_unicode");
            reveal_strlit("western_teams_first");
            reveal_strlit("log_level");
            reveal_strlit("theme");
        }
        let focus_idx = match state.doc_nav.focus_index {
            Some(i) => i,
            None => {
                return Effect::Pass;
            },
        };
        if focus_idx >= state.doc_nav.focusable_ids.len() {
            return Effect::Pass;
        }
        let key = match &state.doc_nav.focusable_ids[focus_idx] {
            FocusableId::Link(id) => id.clone(),
            _ => {
                return Effect::Pass;
            },
        };
        if str_eq(key.as_str(), "use_unicode") || str_eq(key.as_str(), "western_teams_first") {
            Effect::Action(Action::SettingsAction(SettingsAction::ToggleBoolean(key)))
        } else if str_eq(key.as_str(), "log_level") || str_eq(key.as_str(), "theme") {
            let position_y = if focus_idx < state.doc_nav.focusable_positions.len() {
                state.doc_nav.focusable_positions[focus_idx]
            } else {
                0
            };
            state.modal = Some(
                ModalState {
                    options,
                    selected_index: initial_index,
                    setting_key: key,
                    position_x: 10,
                    position_y,
                },
            );
            Effect::Pass
        } else {
            Effect::Pass
        }
    }

    /// Handle a message: each changes the state as its name says and tells
    /// the caller what to do next.
    pub fn update(&mut self, msg: SettingsTabMsg, state: &mut SettingsTabState) -> (e: Effect)
        ensures
            match msg {
                SettingsTabMsg::Key(key) => settings_key_result(key, *old(state), *final(state), e),
                SettingsTabMsg::NavigateUp => navigated_up(*old(state), *final(state), e),
                SettingsTabMsg::UpdateViewportHeight(h) => final(state).modal == old(state).modal
                    && final(state).doc_nav == (DocumentNavState {
                    viewport_height: h,
                    ..old(state).doc_nav
                }) && e is Pass,
                SettingsTabMsg::SetCategory(_) => final(state).doc_nav.is_fresh()
                    && final(state).modal == old(state).modal && e is Pass,
                SettingsTabMsg::ActivateSetting { options, initial_index } => setting_activated(
                    *old(state),
                    *final(state),
                    options,
                    initial_index,
                    e,
                ),
                SettingsTabMsg::Modal(m) => modal_result(m, *old(state), *final(state), e),
                SettingsTabMsg::DocNav(m) => final(state).modal == old(state).modal
                    && final(state).doc_nav == nav_moved(old(state).doc_nav, m) && e is Pass,
            },
    {
        match msg {
            SettingsTabMsg::Key(key) => self.handle_key(key, state),
            SettingsTabMsg::NavigateUp => self.navigate_up(state),
            SettingsTabMsg::UpdateViewportHeight(h) => {
                state.doc_nav.viewport_height = h;
                Effect::Pass
            },
            SettingsTabMsg::SetCategory(category) => self.set_category(category, state),
            SettingsTabMsg::ActivateSetting { options, initial_index } => self.activate_setting(
                state,
                options,
                initial_index,
            ),
            SettingsTabMsg::Modal(m) => self.update_modal(m, state),
            SettingsTabMsg::DocNav(m) => state.doc_nav.handle_message(&m),
        }
    }

    /// Handle a key.  With the option list open, Up, Down, Enter and Esc
    /// move, confirm and cancel; while browsing, Enter asks to toggle the
    /// focused setting and Up and Down move the focus; otherwise Left and Right select the neighbouring
    /// category and Down or Enter start browsing at the first setting.
    pub fn handle_key(&mut self, key: SettingsKey, state: &mut SettingsTabState) -> (e: Effect)
        ensures
            settings_key_result(key, *old(state), *final(state), e),
    {
        proof {
            reveal_strlit("placeholder");
        }
        if state.modal.is_some() {
            return match key {
                SettingsKey::Up => self.update_modal(ModalMsg::Up, state),
                SettingsKey::Down => self.update_modal(ModalMsg::Down, state),
                SettingsKey::Enter => self.update_modal(ModalMsg::Confirm, state),
                SettingsKey::Esc => self.update_modal(ModalMsg::Cancel, state),
                _ => Effect::Pass,
            };
        }
        if state.doc_nav.is_browse_mode() {
            match key {
                SettingsKey::Enter => Effect::Action(Action::SettingsAction(
                    SettingsAction::ToggleBoolean(String::from_str("placeholder")),
                )),
                SettingsKey::Up => state.doc_nav.handle_message(&DocumentNavMsg::FocusPrev),
                SettingsKey::Down => state.doc_nav.handle_message(&DocumentNavMsg::FocusNext),
                _ => Effect::Pass,
            }
        } else {
            match key {
                SettingsKey::Left => Effect::Action(Action::SettingsAction(SettingsAction::NavigateCategoryLeft)),
                SettingsKey::Right => Effect::Action(Action::SettingsAction(SettingsAction::NavigateCategoryRight)),
                SettingsKey::Down | SettingsKey::Enter => {
                    if state.doc_nav.focusable_positions.len() > 0 {
                        state.doc_nav.focus_index = Some(0);
                    }
                    Effect::Pass
                },
                _ => Effect::Pass,
            }
        }
    }

    /// The tab key of a category.
    pub fn category_to_key(&self, category: SettingsCategory) -> (s: String)
        ensures
            s@ == category_key(category),
    {
        proof {
            reveal_strlit("logging");
            reveal_strlit("display");
            reveal_strlit("data");
        }
        match category {
            SettingsCategory::Logging => String::from_str("logging"),
            SettingsCategory::Display => String::from_str("display"),
            SettingsCategory::Data => String::from_str("data"),
        }
    }
}

/// The link IDs of the settings of a category, in document order.
pub fn get_focusable_ids_for_category(category: SettingsCategory) -> (r: Vec<FocusableId>)
    ensures
        r@.len() == category_settings(category).len(),
        forall|i: int|
            0 <= i < r@.len() ==> (#[trigger] r@[i])@ == FocusKey::Link(category_settings(category)[i]),
{
    let names: Vec<&str> = match category {
        SettingsCategory::Logging => vec!["log_level", "log_file"],
        SettingsCategory::Display => vec!["theme", "use_unicode"],
        SettingsCategory::Data => vec!["refresh_interval", "western_teams_first", "time_format"],
    };
    let mut out: Vec<FocusableId> = Vec::new();
    let n = names.len();
    let mut i: usize = 0;
    while i < n
        invariant
            i <= n,
            n == names@.len(),
            n == category_settings(category).len(),
            forall|k: int| 0 <= k < n ==> (#[trigger] names@[k])@ == category_settings(category)[k],
            out@.len() == i,
            forall|k: int|
                0 <= k < i ==> (#[trigger] out@[k])@ == FocusKey::Link(category_settings(category)[k]),
        decreases n - i,
    {
        out.push(FocusableId::link(names[i]));
        i = i + 1;
    }
    out
}

/// Moving down and back up in an option list returns to the same option,
/// unless the selection was already on the last option.
pub proof fn lemma_down_then_up(selected: usize, len: nat)
    requires
        selected + 1 < len,
        len <= usize::MAX,
    ensures
        moved_selection(moved_selection(selected, len, ModalMsg::Down), len, ModalMsg::Up)
            == selected,
{
}

/// Moving in a non-empty option list keeps the selection on an option.
pub proof fn lemma_selection_in_range(selected: usize, len: nat, msg: ModalMsg)
    requires
        selected < len,
        msg == ModalMsg::Up || msg == ModalMsg::Down,
    ensures
        moved_selection(selected, len, msg) < len,
{
}

} // verus!
