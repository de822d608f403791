//! The standings tab: the choice of view (wildcard, division, conference,
//! league), browsing the teams of the shown standings, and opening a team.

use vstd::prelude::*;

use crate::action::{Action, Effect, StandingsAction};
use crate::breadcrumb::BreadcrumbProvider;
use crate::link::{GroupBy, LinkTarget, TargetView, opt_target_view};
use crate::nav::{DocumentNavMsg, DocumentNavState, DocumentStackEntry, StackedDocument, nav_moved};
use crate::standings::{
    ConferenceStandingsDocument, DivisionStandingsDocument, LeagueStandingsDocument, MAX_TABLE_ROWS,
    StandingRow, WildcardStandingsDocument,
};
use crate::text::{push_signed_decimal, signed_decimal};
use crate::tabbed_panel::{TabItem, TabbedPanelProps};
use crate::text::strip_prefix_chars;

verus! {

/// The name of a standings view.
pub open spec fn group_name(g: GroupBy) -> Seq<char> {
    match g {
        GroupBy::Wildcard => "Wildcard"@,
        GroupBy::Division => "Division"@,
        GroupBy::Conference => "Conference"@,
        GroupBy::League => "League"@,
    }
}

/// The name of a standings view.
pub fn group_by_name(g: GroupBy) -> (s: &'static str)
    ensures
        s@ == group_name(g),
{
    proof {
        reveal_strlit("Wildcard");
        reveal_strlit("Division");
        reveal_strlit("Conference");
        reveal_strlit("League");
    }
    match g {
        GroupBy::Wildcard => "Wildcard",
        GroupBy::Division => "Division",
        GroupBy::Conference => "Conference",
        GroupBy::League => "League",
    }
}

/// The views in the order of the tab bar.
pub open spec fn view_order(g: GroupBy) -> int {
    match g {
        GroupBy::Wildcard => 0,
        GroupBy::Division => 1,
        GroupBy::Conference => 2,
        GroupBy::League => 3,
    }
}

/// The view at a position of the tab bar (taken modulo 4).
pub open spec fn view_at(i: int) -> GroupBy {
    let k = i % 4;
    if k == 0 {
        GroupBy::Wildcard
    } else if k == 1 {
        GroupBy::Division
    } else if k == 2 {
        GroupBy::Conference
    } else {
        GroupBy::League
    }
}

/// The view to the left in the tab bar, wrapping around.
pub open spec fn view_left(g: GroupBy) -> GroupBy {
    view_at(view_order(g) + 3)
}

/// The view to the right in the tab bar, wrapping around.
pub open spec fn view_right(g: GroupBy) -> GroupBy {
    view_at(view_order(g) + 1)
}

/// The state of the standings tab.
#[derive(Debug)]
pub struct StandingsTabState {
    /// The view shown.
    pub view: GroupBy,
    /// Focus and scroll state of the shown standings.
    pub doc_nav: DocumentNavState,
}

impl Default for StandingsTabState {
    fn default() -> (r: Self)
        ensures
            r.view == GroupBy::Wildcard,
            r.doc_nav.is_fresh(),
    {
        StandingsTabState { view: GroupBy::Wildcard, doc_nav: DocumentNavState::default() }
    }
}

/// The keys the standings tab reacts to.
#[derive(Clone, Copy, Debug, PartialEq, Eq, Structural)]
pub enum StandingsKey {
    Left,
    Right,
    Up,
    Down,
    Enter,
    Other,
}

/// Messages handled by the standings tab.
#[derive(Debug)]
pub enum StandingsTabMsg {
    /// A key pressed while the tab has the focus.
    Key(StandingsKey),
    /// Escape: leave browse mode, or hand the message up.
    NavigateUp,
    /// Show the view to the left.
    CycleViewLeft,
    /// Show the view to the right.
    CycleViewRight,
    /// Start browsing the teams.
    EnterBrowseMode,
    /// Stop browsing the teams.
    ExitBrowseMode,
    /// The height of the visible area changed.
    UpdateViewportHeight(u16),
    /// Open the focused team.
    ActivateTeam,
    /// A focus move within the standings document.
    DocNav(DocumentNavMsg),
}

/// The team of an action link "team:<abbrev>".
pub open spec fn team_of_action(a: Seq<char>) -> Option<Seq<char>> {
    if a.len() >= 5 && a.subrange(0, 5) == "team:"@ {
        Some(a.subrange(5, a.len() as int))
    } else {
        None
    }
}

/// The team whose link is focused, if the focused element links to one.
pub open spec fn focused_team(nav: DocumentNavState) -> Option<Seq<char>> {
    match nav.focus_index {
        Some(i) => if i < nav.link_targets@.len() {
            match opt_target_view(nav.link_targets@[i as int]) {
                Some(TargetView::Action(a)) => team_of_action(a),
                _ => None,
            }
        } else {
            None
        },
        None => None,
    }
}

/// The standings tab component.
#[derive(Debug)]
pub struct StandingsTab;

impl StandingsTab {
    /// A fresh state: the wildcard view, nothing focused.
    pub fn init() -> (s: StandingsTabState)
        ensures
            s.view == GroupBy::Wildcard,
            s.doc_nav.is_fresh(),
    {
        StandingsTabState::default()
    }

    /// Handle a message.
    pub fn update(&mut self, msg: StandingsTabMsg, state: &mut StandingsTabState) -> (e: Effect)
        ensures
            match msg {
                StandingsTabMsg::Key(key) => handle_key_result(key, *old(state), *final(state), e),
                StandingsTabMsg::NavigateUp => if old(state).doc_nav.browsing() {
                    final(state).view == old(state).view && final(state).doc_nav == (
                    DocumentNavState { focus_index: None, scroll_offset: 0, ..old(state).doc_nav })
                        && e is Handled
                } else {
                    *final(state) == *old(state) && e is Pass
                },
                StandingsTabMsg::CycleViewLeft => cycled(
                    *old(state),
                    *final(state),
                    e,
                    view_left(old(state).view),
                ),
                StandingsTabMsg::CycleViewRight => cycled(
                    *old(state),
                    *final(state),
                    e,
                    view_right(old(state).view),
                ),
                StandingsTabMsg::EnterBrowseMode => entered(*old(state), *final(state)) && e is Pass,
                StandingsTabMsg::ExitBrowseMode => final(state).view == old(state).view
                    && final(state).doc_nav == (DocumentNavState {
                    focus_index: None,
                    scroll_offset: 0,
                    ..old(state).doc_nav
                }) && e is Pass,
                StandingsTabMsg::UpdateViewportHeight(h) => final(state).view == old(state).view
                    && final(state).doc_nav == (DocumentNavState {
                    viewport_height: h,
                    ..old(state).doc_nav
                }) && e is Pass,
                StandingsTabMsg::ActivateTeam => *final(state) == *old(state) && activated(
                    *old(state),
                    e,
                ),
                StandingsTabMsg::DocNav(m) => final(state).view == old(state).view
                    && final(state).doc_nav == nav_moved(old(state).doc_nav, m) && e is Pass,
            },
    {
        match msg {
            StandingsTabMsg::Key(key) => self.handle_key(key, state),
            StandingsTabMsg::NavigateUp => {
                if state.doc_nav.is_browse_mode() {
                    state.doc_nav.exit_browse_mode();
                    Effect::Handled
                } else {
                    Effect::Pass
                }
            },
            StandingsTabMsg::CycleViewLeft => self.cycle_view_left(state),
            StandingsTabMsg::CycleViewRight => self.cycle_view_right(state),
            StandingsTabMsg::EnterBrowseMode => {
                state.doc_nav.enter_browse_mode();
                Effect::Pass
            },
            StandingsTabMsg::ExitBrowseMode => {
                state.doc_nav.exit_browse_mode();
                Effect::Pass
            },
            StandingsTabMsg::UpdateViewportHeight(h) => {
                state.doc_nav.viewport_height = h;
                Effect::Pass
            },
            StandingsTabMsg::ActivateTeam => self.activate_team(state),
            StandingsTabMsg::DocNav(m) => state.doc_nav.handle_message(&m),
        }
    }

    /// Show the view to the left; browsing starts afresh and the focusable
    /// metadata must be rebuilt.
    pub fn cycle_view_left(&mut self, state: &mut StandingsTabState) -> (e: Effect)
        ensures
            cycled(*old(state), *final(state), e, view_left(old(state).view)),
    {
        state.view = match state.view {
            GroupBy::Wildcard => GroupBy::League,
            GroupBy::Division => GroupBy::Wildcard,
            GroupBy::Conference => GroupBy::Division,
            GroupBy::League => GroupBy::Conference,
        };
        state.doc_nav.exit_browse_mode();
        Effect::Action(Action::StandingsAction(StandingsAction::RebuildFocusableMetadata))
    }

    /// Show the view to the right; browsing starts afresh and the focusable
    /// metadata must be rebuilt.
    pub fn cycle_view_right(&mut self, state: &mut StandingsTabState) -> (e: Effect)
        ensures
            cycled(*old(state), *final(state), e, view_right(old(state).view)),
    {
        state.view = match state.view {
            GroupBy::Wildcard => GroupBy::Division,
            GroupBy::Division => GroupBy::Conference,
            GroupBy::Conference => GroupBy::League,
            GroupBy::League => GroupBy::Wildcard,
        };
        state.doc_nav.exit_browse_mode();
        Effect::Action(Action::StandingsAction(StandingsAction::RebuildFocusableMetadata))
    }

    /// Open the focused team: a link "team:<abbrev>" pushes the team's
    /// details; anything else does nothing.
    pub fn activate_team(&mut self, state: &StandingsTabState) -> (e: Effect)
        ensures
            activated(*state, e),
    {
        proof {
            reveal_strlit("team:");
        }
        let idx = match state.doc_nav.focus_index {
            Some(i) => i,
            None => {
                return Effect::Pass;
            },
        };
        if idx >= state.doc_nav.link_targets.len() {
            return Effect::Pass;
        }
        match &state.doc_nav.link_targets[idx] {
            Some(LinkTarget::Action(action)) => match strip_prefix_chars(action.as_str(), "team:") {
                Some(abbrev) => Effect::Action(
                    Action::PushDocument(StackedDocument::TeamDetail { abbrev: abbrev.to_string() }),
                ),
                None => Effect::Pass,
            },
            _ => Effect::Pass,
        }
    }

    /// Handle a key: while browsing, Enter opens the focused team and Up
    /// and Down move the focus to the previous or next team; otherwise Left and
    /// Right change the view, and Down or Enter start browsing.
    pub fn handle_key(&mut self, key: StandingsKey, state: &mut StandingsTabState) -> (e: Effect)
        ensures
            handle_key_result(key, *old(state), *final(state), e),
    {
        if state.doc_nav.is_browse_mode() {
            match key {
                StandingsKey::Enter => self.activate_team(state),
                StandingsKey::Up => state.doc_nav.handle_message(&DocumentNavMsg::FocusPrev),
                StandingsKey::Down => state.doc_nav.handle_message(&DocumentNavMsg::FocusNext),
                _ => Effect::Pass,
            }
        } else {
            match key {
                StandingsKey::Left => self.cycle_view_left(state),
                StandingsKey::Right => self.cycle_view_right(state),
                StandingsKey::Down | StandingsKey::Enter => {
                    state.doc_nav.enter_browse_mode();
                    Effect::Pass
                },
                _ => Effect::Pass,
            }
        }
    }

    /// The view tabs: Wildcard, Division, Conference and League, keyed and
    /// titled by their names, the shown view active; the bar has the focus
    /// when the tab has it and no team is being browsed.
    pub fn view_tabs(&self, state: &StandingsTabState, focused: bool) -> (p: TabbedPanelProps<
        GroupBy,
    >)
        ensures
            p.tabs@.len() == 4,
            forall|i: int|
                0 <= i < 4 ==> (#[trigger] p.tabs@[i]).content == view_at(i) && p.tabs@[i].key@
                    == group_name(view_at(i)) && p.tabs@[i].title@ == group_name(view_at(i)),
            p.active_key@ == group_name(state.view),
            p.focused == (focused && !state.doc_nav.browsing()),
    {
        let views = [GroupBy::Wildcard, GroupBy::Division, GroupBy::Conference, GroupBy::League];
        let mut tabs: Vec<TabItem<GroupBy>> = Vec::new();
        let mut i: usize = 0;
        while i < 4
            invariant
                i <= 4,
                views@ == seq![
                    GroupBy::Wildcard,
                    GroupBy::Division,
                    GroupBy::Conference,
                    GroupBy::League,
                ],
                tabs@.len() == i,
                forall|k: int|
                    0 <= k < i ==> (#[trigger] tabs@[k]).content == view_at(k) && tabs@[k].key@
                        == group_name(view_at(k)) && tabs@[k].title@ == group_name(view_at(k)),
            decreases 4 - i,
        {
            let g = views[i];
            let name = group_by_name(g);
            tabs.push(TabItem::new(name, name, g));
            i = i + 1;
        }
        TabbedPanelProps {
            active_key: String::from_str(group_by_name(state.view)),
            tabs,
            focused: focused && !state.doc_nav.is_browse_mode(),
        }
    }
}

/// What the standings tab shows under its view tabs.
#[derive(Debug)]
pub enum StandingsContent {
    /// A message in place of the standings.
    Message(String),
    League(LeagueStandingsDocument),
    Conference(ConferenceStandingsDocument),
    Division(DivisionStandingsDocument),
    Wildcard(WildcardStandingsDocument),
}

/// The message of a stacked document not drawn yet.
pub open spec fn stacked_message(stack: Seq<DocumentStackEntry>) -> Seq<char> {
    if stack.len() == 0 {
        "No document"@
    } else {
        let tail = "\n\n(Document rendering not yet implemented)\n\nPress ESC to go back"@;
        match stack.last().document {
            StackedDocument::TeamDetail { abbrev } => "Team Detail: "@ + abbrev@ + tail,
            StackedDocument::PlayerDetail { player_id } => "Player Detail: "@ + signed_decimal(
                player_id as int,
            ) + tail,
            StackedDocument::Boxscore { game_id } => "Boxscore: "@ + signed_decimal(game_id as int)
                + tail,
        }
    }
}

impl StandingsTab {
    /// The standings of the shown view: a message while they load or when
    /// there are none; the league, conference, division or wildcard
    /// standings otherwise (the Western conference first when asked, but
    /// for the league).
    pub fn standings_content(
        &self,
        standings: Option<Vec<StandingRow>>,
        view: GroupBy,
        western_first: bool,
    ) -> (c: StandingsContent)
        requires
            standings matches Some(v) ==> v@.len() <= MAX_TABLE_ROWS,
        ensures
            match standings {
                None => c matches StandingsContent::Message(m) && m@ == "Loading standings..."@,
                Some(v) => if v@.len() == 0 {
                    c matches StandingsContent::Message(m) && m@ == "No standings available"@
                } else {
                    match view {
                        GroupBy::League => c matches StandingsContent::League(d) && d.teams() == v@,
                        GroupBy::Conference => c matches StandingsContent::Conference(d) && d.teams()
                            == v@ && d.west_first() == western_first,
                        GroupBy::Division => c matches StandingsContent::Division(d) && d.teams()
                            == v@ && d.west_first() == western_first,
                        GroupBy::Wildcard => c matches StandingsContent::Wildcard(d) && d.teams()
                            == v@ && d.west_first() == western_first,
                    }
                },
            },
    {
        let v = match standings {
            Some(v) => v,
            None => {
                return StandingsContent::Message(String::from_str("Loading standings..."));
            },
        };
        if v.len() == 0 {
            return StandingsContent::Message(String::from_str("No standings available"));
        }
        match view {
            GroupBy::League => StandingsContent::League(LeagueStandingsDocument::new(v)),
            GroupBy::Conference => StandingsContent::Conference(
                ConferenceStandingsDocument::new(v, western_first),
            ),
            GroupBy::Division => StandingsContent::Division(
                DivisionStandingsDocument::new(v, western_first),
            ),
            GroupBy::Wildcard => StandingsContent::Wildcard(
                WildcardStandingsDocument::new(v, western_first),
            ),
        }
    }

    /// The message shown for the top stacked document.
    pub fn stacked_document_message(&self, stack: &Vec<DocumentStackEntry>) -> (s: String)
        ensures
            s@ == stacked_message(stack@),
    {
        if stack.len() == 0 {
            return String::from_str("No document");
        }
        let mut s = match &stack[stack.len() - 1].document {
            StackedDocument::TeamDetail { abbrev } => {
                let mut s = String::from_str("Team Detail: ");
                s.append(abbrev.as_str());
                s
            },
            StackedDocument::PlayerDetail { player_id } => {
                let mut s = String::from_str("Player Detail: ");
                push_signed_decimal(&mut s, *player_id);
                s
            },
            StackedDocument::Boxscore { game_id } => {
                let mut s = String::from_str("Boxscore: ");
                push_signed_decimal(&mut s, *game_id);
                s
            },
        };
        s.append("\n\n(Document rendering not yet implemented)\n\nPress ESC to go back");
        s
    }
}

/// After a change of view to `view`: browsing starts afresh at the top, and
/// the focusable metadata must be rebuilt.
pub open spec fn cycled(
    before: StandingsTabState,
    after: StandingsTabState,
    e: Effect,
    view: GroupBy,
) -> bool {
    &&& after.view == view
    &&& after.doc_nav == (DocumentNavState {
        focus_index: None,
        scroll_offset: 0,
        ..before.doc_nav
    })
    &&& e matches Effect::Action(Action::StandingsAction(StandingsAction::RebuildFocusableMetadata))
}

/// After entering browse mode: the first element is focused if there is
/// one.
pub open spec fn entered(before: StandingsTabState, after: StandingsTabState) -> bool {
    &&& after.view == before.view
    &&& after.doc_nav == (DocumentNavState {
        focus_index: if before.doc_nav.focusable_positions@.len() > 0 {
            Some(0usize)
        } else {
            before.doc_nav.focus_index
        },
        ..before.doc_nav
    })
}

/// Opening the focused team: its details when a team link is focused,
/// nothing otherwise.
pub open spec fn activated(state: StandingsTabState, e: Effect) -> bool {
    match focused_team(state.doc_nav) {
        Some(t) => e matches Effect::Action(
            Action::PushDocument(StackedDocument::TeamDetail { abbrev }),
        ) && abbrev@ == t,
        None => e is Pass,
    }
}

/// What a key does to the standings tab.
pub open spec fn handle_key_result(
    key: StandingsKey,
    before: StandingsTabState,
    after: StandingsTabState,
    e: Effect,
) -> bool {
    if before.doc_nav.browsing() {
        match key {
            StandingsKey::Enter => after == before && activated(before, e),
            StandingsKey::Up => after.view == before.view && after.doc_nav == nav_moved(
                before.doc_nav,
                DocumentNavMsg::FocusPrev,
            ) && e is Pass,
            StandingsKey::Down => after.view == before.view && after.doc_nav == nav_moved(
                before.doc_nav,
                DocumentNavMsg::FocusNext,
            ) && e is Pass,
            _ => after == before && e is Pass,
        }
    } else {
        match key {
            StandingsKey::Left => cycled(before, after, e, view_left(before.view)),
            StandingsKey::Right => cycled(before, after, e, view_right(before.view)),
            StandingsKey::Down | StandingsKey::Enter => entered(before, after) && e is Pass,
            _ => after == before && e is Pass,
        }
    }
}

/// Going left then right, or right then left, comes back to the same view.
pub proof fn lemma_cycle_inverse(g: GroupBy)
    ensures
        view_right(view_left(g)) == g,
        view_left(view_right(g)) == g,
{
}

/// Four steps in the same direction come back to the same view, and no
/// fewer do.
pub proof fn lemma_cycle_period(g: GroupBy)
    ensures
        view_right(view_right(view_right(view_right(g)))) == g,
        view_left(view_left(view_left(view_left(g)))) == g,
        view_right(g) != g,
        view_right(view_right(g)) != g,
        view_right(view_right(view_right(g))) != g,
{
}

impl BreadcrumbProvider for StandingsTabState {
    /// "Standings", then the name of the view.
    fn get_breadcrumb_items(&self) -> (r: Vec<String>)
        ensures
            r@.len() == 2,
            r@[0]@ == "Standings"@,
            r@[1]@ == group_name(self.view),
    {
        vec![String::from_str("Standings"), String::from_str(group_by_name(self.view))]
    }
}

} // verus!
