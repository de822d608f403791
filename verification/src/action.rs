//! What handling a message or a key leads to.

use vstd::prelude::*;

use crate::link::GameDay;
use crate::nav::StackedDocument;

verus! {

/// A change of settings requested by the settings tab.
#[derive(Debug)]
pub enum SettingsAction {
    /// Flip a boolean setting.
    ToggleBoolean(String),
    /// Set a setting to a value.
    UpdateSetting { key: String, value: String },
    /// Select the category to the left.
    NavigateCategoryLeft,
    /// Select the category to the right.
    NavigateCategoryRight,
}

/// A request of the standings tab.
#[derive(Debug)]
pub enum StandingsAction {
    /// The view changed: the focusable metadata must be rebuilt from the
    /// new document.
    RebuildFocusableMetadata,
}

/// An action for the application to carry out.
#[derive(Debug)]
pub enum Action {
    /// Load the schedule of a day.
    RefreshSchedule(GameDay),
    /// Open a document on top of the current tab.
    PushDocument(StackedDocument),
    /// Change the settings.
    SettingsAction(SettingsAction),
    /// A request of the standings tab.
    StandingsAction(StandingsAction),
}

/// What handling a message or key led to.
#[derive(Debug)]
pub enum Effect {
    /// Nothing to do; the message may be handled further up.
    Pass,
    /// The message was handled here.
    Handled,
    /// An action to carry out.
    Action(Action),
}

} // verus!
