//! Navigation state: the main tabs, the documents stacked over a tab, and
//! the focus and scroll state of a document.

use vstd::prelude::*;

use crate::action::Effect;
use crate::focus::{FocusableId, RowPosition, focus_next, focus_prev, next_focus, prev_focus};
use crate::link::LinkTarget;

verus! {

/// The main tabs.
#[derive(Clone, Copy, Debug, PartialEq, Eq, Structural)]
pub enum Tab {
    Scores,
    Standings,
    Settings,
    Demo,
}

/// A document opened on top of a tab.
#[derive(Debug)]
pub enum StackedDocument {
    /// The boxscore of a game.
    Boxscore { game_id: i64 },
    /// The details of a team.
    TeamDetail { abbrev: String },
    /// The details of a player.
    PlayerDetail { player_id: i64 },
}

impl Clone for StackedDocument {
    fn clone(&self) -> (res: Self)
        ensures
            res == *self,
    {
        match self {
            StackedDocument::Boxscore { game_id } => StackedDocument::Boxscore { game_id: *game_id },
            StackedDocument::TeamDetail { abbrev } => StackedDocument::TeamDetail {
                abbrev: abbrev.clone(),
            },
            StackedDocument::PlayerDetail { player_id } => StackedDocument::PlayerDetail {
                player_id: *player_id,
            },
        }
    }
}

/// Messages that move the focus within a document.
#[derive(Clone, Copy, Debug, PartialEq, Eq, Structural)]
pub enum DocumentNavMsg {
    /// Tab: the next focusable element.
    FocusNext,
    /// Shift-Tab: the previous focusable element.
    FocusPrev,
}

/// The navigation state after a focus move: the focus on the next or
/// previous focusable element (wrapping around), the rest unchanged.
pub open spec fn nav_moved(s: DocumentNavState, msg: DocumentNavMsg) -> DocumentNavState {
    DocumentNavState {
        focus_index: match msg {
            DocumentNavMsg::FocusNext => next_focus(s.focus_index, s.focusable_positions@.len() as usize),
            DocumentNavMsg::FocusPrev => prev_focus(s.focus_index, s.focusable_positions@.len() as usize),
        },
        ..s
    }
}

/// Focus and scroll state of a document, with the focusable metadata taken
/// from its layout.
#[derive(Debug)]
pub struct DocumentNavState {
    /// The focused element, if any.
    pub focus_index: Option<usize>,
    /// The scroll offset.
    pub scroll_offset: u16,
    /// The height of the visible area.
    pub viewport_height: u16,
    /// The line of each focusable element.
    pub focusable_positions: Vec<u16>,
    /// The height of each focusable element.
    pub focusable_heights: Vec<u16>,
    /// The ID of each focusable element.
    pub focusable_ids: Vec<FocusableId>,
    /// The row position of each focusable element (None outside rows).
    pub focusable_row_positions: Vec<Option<RowPosition>>,
    /// The link target of each focusable element.
    pub link_targets: Vec<Option<LinkTarget>>,
}

impl DocumentNavState {
    /// Whether an element is focused (the document is being browsed).
    pub open spec fn browsing(self) -> bool {
        self.focus_index is Some
    }

    /// Whether this is the state of a fresh document: nothing focused,
    /// scrolled to the top, no metadata.
    pub open spec fn is_fresh(self) -> bool {
        &&& self.focus_index is None
        &&& self.scroll_offset == 0
        &&& self.viewport_height == 0
        &&& self.focusable_positions@.len() == 0
        &&& self.focusable_heights@.len() == 0
        &&& self.focusable_ids@.len() == 0
        &&& self.focusable_row_positions@.len() == 0
        &&& self.link_targets@.len() == 0
    }

    /// Whether an element is focused.
    pub fn is_browse_mode(&self) -> (b: bool)
        ensures
            b == self.browsing(),
    {
        self.focus_index.is_some()
    }

    /// A navigation message within the document: Tab (`FocusNext`) and
    /// Shift-Tab (`FocusPrev`) move the focus to the next or previous
    /// focusable element, wrapping around at the ends, and leave the rest of
    /// the state as it is; the message is then done with.
    pub fn handle_message(&mut self, msg: &DocumentNavMsg) -> (e: Effect)
        ensures
            *final(self) == nav_moved(*old(self), *msg),
            e == Effect::Pass,
    {
        let n = self.focusable_positions.len();
        self.focus_index = match msg {
            DocumentNavMsg::FocusNext => focus_next(self.focus_index, n),
            DocumentNavMsg::FocusPrev => focus_prev(self.focus_index, n),
        };
        Effect::Pass
    }

    /// Leave browse mode: nothing is focused any more, and the document is
    /// scrolled back to the top.
    pub fn exit_browse_mode(&mut self)
        ensures
            *final(self) == (DocumentNavState { focus_index: None, scroll_offset: 0, ..*old(self) }),
    {
        self.focus_index = None;
        self.scroll_offset = 0;
    }

    /// Enter browse mode: the first focusable element, if there is one, is
    /// focused.
    pub fn enter_browse_mode(&mut self)
        ensures
            *final(self) == (DocumentNavState {
                focus_index: if old(self).focusable_positions@.len() > 0 {
                    Some(0usize)
                } else {
                    old(self).focus_index
                },
                ..*old(self)
            }),
    {
        if self.focusable_positions.len() > 0 {
            self.focus_index = Some(0);
        }
    }
}

impl Default for DocumentNavState {
    fn default() -> (r: Self)
        ensures
            r.is_fresh(),
    {
        DocumentNavState {
            focus_index: None,
            scroll_offset: 0,
            viewport_height: 0,
            focusable_positions: Vec::new(),
            focusable_heights: Vec::new(),
            focusable_ids: Vec::new(),
            focusable_row_positions: Vec::new(),
            link_targets: Vec::new(),
        }
    }
}

impl Clone for DocumentNavState {
    fn clone(&self) -> (res: Self)
        ensures
            res.focus_index == self.focus_index,
            res.scroll_offset == self.scroll_offset,
            res.viewport_height == self.viewport_height,
            res.focusable_positions@ == self.focusable_positions@,
            res.focusable_heights@ == self.focusable_heights@,
            res.focusable_ids@ == self.focusable_ids@,
            res.focusable_row_positions@ == self.focusable_row_positions@,
            res.link_targets@ == self.link_targets@,
    {
        DocumentNavState {
            focus_index: self.focus_index,
            scroll_offset: self.scroll_offset,
            viewport_height: self.viewport_height,
            focusable_positions: self.focusable_positions.clone(),
            focusable_heights: self.focusable_heights.clone(),
            focusable_ids: self.focusable_ids.clone(),
            focusable_row_positions: self.focusable_row_positions.clone(),
            link_targets: self.link_targets.clone(),
        }
    }
}

/// A document on the stack, with its navigation state.
#[derive(Debug)]
pub struct DocumentStackEntry {
    pub document: StackedDocument,
    pub nav: DocumentNavState,
}

impl Clone for DocumentStackEntry {
    fn clone(&self) -> (res: Self)
        ensures
            res.document == self.document,
            res.nav.focus_index == self.nav.focus_index,
            res.nav.scroll_offset == self.nav.scroll_offset,
    {
        DocumentStackEntry { document: self.document.clone(), nav: self.nav.clone() }
    }
}

impl DocumentStackEntry {
    /// A freshly opened document.
    pub fn new(document: StackedDocument) -> (r: Self)
        ensures
            r.document == document,
            r.nav.is_fresh(),
    {
        DocumentStackEntry { document, nav: DocumentNavState::default() }
    }

    /// A freshly opened document with the given element focused.
    pub fn with_selection(document: StackedDocument, focus_index: Option<usize>) -> (r: Self)
        ensures
            r.document == document,
            r.nav.focus_index == focus_index,
            (DocumentNavState { focus_index: None, ..r.nav }).is_fresh(),
    {
        let mut nav = DocumentNavState::default();
        nav.focus_index = focus_index;
        DocumentStackEntry { document, nav }
    }
}

} // verus!
