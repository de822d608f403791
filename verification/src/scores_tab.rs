//! The scores tab: a window of five days around the selected day, and the
//! games of that day.

use vstd::prelude::*;

use chrono::Datelike;

use crate::action::{Action, Effect};
use crate::breadcrumb::BreadcrumbProvider;
use crate::focus::{FocusKey, FocusableId};
use crate::link::GameDay;
use crate::nav::{DocumentNavMsg, DocumentNavState, StackedDocument, nav_moved};
use crate::tabbed_panel::{TabItem, TabbedPanelProps};
use crate::text::{decimal, parse_i64, parsed_i64, strip_prefix_chars};

verus! {

/// Number of days shown in the date window.
pub const DATE_WINDOW_SIZE: usize = 5;

/// Number of days in a month of a year of the Gregorian calendar.
pub open spec fn days_in_month(year: i32, month: u32) -> u32 {
    if month == 2 {
        if (year % 4 == 0 && year % 100 != 0) || year % 400 == 0 {
            29
        } else {
            28
        }
    } else if month == 4 || month == 6 || month == 9 || month == 11 {
        30
    } else {
        31
    }
}

/// A day of the calendar, with a year well inside the range of dates the
/// calendar functions handle.
pub open spec fn valid_day(d: GameDay) -> bool {
    &&& 1 <= d.month <= 12
    &&& 1 <= d.day <= days_in_month(d.year, d.month)
    &&& -200000 <= d.year <= 200000
}

/// Whether a day's month and day of the month exist in its year.
pub open spec fn month_ok(d: GameDay) -> bool {
    &&& 1 <= d.month <= 12
    &&& 1 <= d.day <= days_in_month(d.year, d.month)
}

/// The day after `d` in the proleptic Gregorian calendar.
pub open spec fn next_day(d: GameDay) -> GameDay {
    if d.day < days_in_month(d.year, d.month) {
        GameDay { day: (d.day + 1) as u32, ..d }
    } else if d.month < 12 {
        GameDay { month: (d.month + 1) as u32, day: 1, ..d }
    } else {
        GameDay { year: (d.year + 1) as i32, month: 1, day: 1 }
    }
}

/// The day before `d` in the proleptic Gregorian calendar.
pub open spec fn prev_day(d: GameDay) -> GameDay {
    if d.day > 1 {
        GameDay { day: (d.day - 1) as u32, ..d }
    } else if d.month > 1 {
        GameDay {
            month: (d.month - 1) as u32,
            day: days_in_month(d.year, (d.month - 1) as u32),
            ..d
        }
    } else {
        GameDay { year: (d.year - 1) as i32, month: 12, day: 31 }
    }
}

/// The magnitude of a day count.
pub open spec fn day_count(n: i64) -> int {
    if n >= 0 {
        n as int
    } else {
        -(n as int)
    }
}

/// The day `days` days after `date` (before it for negative `days`).
pub open spec fn shifted_day(date: GameDay, days: i64) -> GameDay
    decreases day_count(days),
{
    if days > 0 {
        shifted_day(next_day(date), (days - 1) as i64)
    } else if days < 0 {
        shifted_day(prev_day(date), (days + 1) as i64)
    } else {
        date
    }
}

/// Moving a day forward and back, or back and forward, gives the day
/// again; both keep a valid month and day, and change the year by at most
/// one.
proof fn lemma_next_prev(d: GameDay)
    requires
        month_ok(d),
        -2000000000 <= d.year <= 2000000000,
    ensures
        month_ok(next_day(d)),
        month_ok(prev_day(d)),
        d.year <= next_day(d).year <= d.year + 1,
        d.year - 1 <= prev_day(d).year <= d.year,
        prev_day(next_day(d)) == d,
        next_day(prev_day(d)) == d,
{
}

/// Stepping forward commutes with shifting forward; stepping back with
/// shifting back.
proof fn lemma_shift_commutes(d: GameDay, k: i64)
    requires
        0 <= k <= 10,
    ensures
        shifted_day(next_day(d), k) == next_day(shifted_day(d, k)),
        shifted_day(prev_day(d), (0 - k) as i64) == prev_day(shifted_day(d, (0 - k) as i64)),
    decreases k,
{
    if k > 0 {
        lemma_shift_commutes(next_day(d), (k - 1) as i64);
        lemma_shift_commutes(prev_day(d), (k - 1) as i64);
    }
}

/// Shifting a valid day by at most ten days gives a valid month and day,
/// a year at most that many away, and shifting back gives the day again.
pub proof fn lemma_shifted_day(d: GameDay, n: i64)
    requires
        month_ok(d),
        -1000000000 + day_count(n) <= d.year <= 1000000000 - day_count(n),
        -10 <= n <= 10,
    ensures
        month_ok(shifted_day(d, n)),
        d.year - day_count(n) <= shifted_day(d, n).year <= d.year + day_count(n),
        shifted_day(shifted_day(d, n), (0 - n) as i64) == d,
    decreases day_count(n),
{
    lemma_next_prev(d);
    if n > 0 {
        let e = next_day(d);
        lemma_shifted_day(e, (n - 1) as i64);
        let f = shifted_day(e, (n - 1) as i64);
        lemma_shift_commutes(f, (n - 1) as i64);
        assert(shifted_day(f, (0 - n) as i64) == shifted_day(prev_day(f), (0 - (n - 1)) as i64));
    } else if n < 0 {
        let e = prev_day(d);
        lemma_shifted_day(e, (n + 1) as i64);
        let f = shifted_day(e, (n + 1) as i64);
        lemma_shift_commutes(f, (0 - (n + 1)) as i64);
        assert(shifted_day(f, (0 - n) as i64) == shifted_day(next_day(f), (0 - (n + 1)) as i64));
    }
}

/// A number below 100 in two digits, zero-padded.
pub open spec fn two_digits(n: nat) -> Seq<char> {
    if n < 10 {
        "0"@ + decimal(n)
    } else {
        decimal(n)
    }
}

/// A number in four digits or more, zero-padded.
pub open spec fn four_digits(n: nat) -> Seq<char> {
    if n < 10 {
        "000"@ + decimal(n)
    } else if n < 100 {
        "00"@ + decimal(n)
    } else if n < 1000 {
        "0"@ + decimal(n)
    } else {
        decimal(n)
    }
}

/// A year as chrono's "%Y" writes it: from 0 to 9999 in four digits,
/// zero-padded; a later year with a plus sign ("+10000"); a year before 0
/// with a minus sign and at least four digits ("-0001").
pub open spec fn year_text(year: i32) -> Seq<char> {
    if 0 <= year <= 9999 {
        four_digits(year as nat)
    } else if year > 9999 {
        "+"@ + decimal(year as nat)
    } else {
        "-"@ + four_digits((0 - year) as nat)
    }
}

/// The abbreviated English name of a month ("Jan" .. "Dec"), as chrono's
/// "%b" writes it.
pub open spec fn month_abbrev(month: u32) -> Seq<char> {
    if month == 1 {
        "Jan"@
    } else if month == 2 {
        "Feb"@
    } else if month == 3 {
        "Mar"@
    } else if month == 4 {
        "Apr"@
    } else if month == 5 {
        "May"@
    } else if month == 6 {
        "Jun"@
    } else if month == 7 {
        "Jul"@
    } else if month == 8 {
        "Aug"@
    } else if month == 9 {
        "Sep"@
    } else if month == 10 {
        "Oct"@
    } else if month == 11 {
        "Nov"@
    } else {
        "Dec"@
    }
}

/// The key of a day, "YYYY-MM-DD".
pub open spec fn day_key_text(date: GameDay) -> Seq<char> {
    year_text(date.year) + "-"@ + two_digits(date.month as nat) + "-"@ + two_digits(
        date.day as nat,
    )
}

/// The label of a day, "MM/DD".
pub open spec fn day_label_text(date: GameDay) -> Seq<char> {
    two_digits(date.month as nat) + "/"@ + two_digits(date.day as nat)
}

/// Calls `nhl_api::GameDate::add_days` on the day (made by
/// `nhl_api::GameDate::from_ymd`, which gives a date for every valid day):
/// the day `days` days later, which is `chrono::NaiveDate` plus a
/// `chrono::Duration` of that many days, in chrono's proleptic Gregorian
/// calendar.  `add_days` always gives a date, never "now".
#[verifier::external_body]
fn shift_day(date: GameDay, days: i64) -> (r: GameDay)
    requires
        valid_day(date),
        -10 <= days <= 10,
    ensures
        r == shifted_day(date, days),
{
    let d = nhl_api::GameDate::from_ymd(date.year, date.month, date.day).unwrap();
    match d.add_days(days) {
        nhl_api::GameDate::Date(n) => GameDay { year: n.year(), month: n.month(), day: n.day() },
        nhl_api::GameDate::Now => date,
    }
}

/// Calls `chrono::NaiveDate::format` on the day (made by
/// `chrono::NaiveDate::from_ymd_opt`, which gives a date for every valid
/// day) with one of the three strftime patterns used here, then converts
/// the result to a string (which panics on an invalid pattern or on a time
/// field, so no other pattern is admitted).  As chrono's source writes
/// them: "%m" and "%d" give the month and the day in two digits,
/// zero-padded; "%Y" gives the year as `year_text` says; "%b" gives the
/// month's English abbreviation (chrono's default locale).
#[verifier::external_body]
fn format_day(date: GameDay, pattern: &str) -> (r: String)
    requires
        valid_day(date),
        pattern@ == "%Y-%m-%d"@ || pattern@ == "%m/%d"@ || pattern@ == "%b %d, %Y"@,
    ensures
        pattern@ == "%Y-%m-%d"@ ==> r@ == day_key_text(date),
        pattern@ == "%m/%d"@ ==> r@ == day_label_text(date),
        pattern@ == "%b %d, %Y"@ ==> r@ == day_full_text(date),
{
    chrono::NaiveDate::from_ymd_opt(date.year, date.month, date.day).unwrap().format(
        pattern,
    ).to_string()
}

/// The key of a day, "YYYY-MM-DD".
fn day_key(date: GameDay) -> (r: String)
    requires
        valid_day(date),
    ensures
        r@ == day_key_text(date),
{
    proof {
        reveal_strlit("%Y-%m-%d");
    }
    format_day(date, "%Y-%m-%d")
}

/// The label of a day, "MM/DD".
fn day_label(date: GameDay) -> (r: String)
    requires
        valid_day(date),
    ensures
        r@ == day_label_text(date),
{
    proof {
        reveal_strlit("%m/%d");
    }
    format_day(date, "%m/%d")
}

/// The full label of a day, "Mon DD, YYYY" ("Nov 08, 2024").
pub open spec fn day_full_text(date: GameDay) -> Seq<char> {
    month_abbrev(date.month) + " "@ + two_digits(date.day as nat) + ", "@ + year_text(date.year)
}

/// The crumbs of the scores tab: "Scores", and the selected day while its
/// games have the focus.
#[derive(Debug)]
pub struct ScoresBreadcrumbProvider {
    subtab_focused: bool,
    game_date: GameDay,
}

impl ScoresBreadcrumbProvider {
    #[verifier::type_invariant]
    closed spec fn day_ok(self) -> bool {
        valid_day(self.game_date)
    }

    /// Whether the games have the focus.
    pub closed spec fn focused(self) -> bool {
        self.subtab_focused
    }

    /// The selected day.
    pub closed spec fn day(self) -> GameDay {
        self.game_date
    }

    /// The crumbs for the given focus and day.
    pub fn new(subtab_focused: bool, game_date: GameDay) -> (p: Self)
        requires
            valid_day(game_date),
        ensures
            p.focused() == subtab_focused,
            p.day() == game_date,
    {
        ScoresBreadcrumbProvider { subtab_focused, game_date }
    }
}

impl BreadcrumbProvider for ScoresBreadcrumbProvider {
    /// "Scores", then the day ("Nov 08, 2024") while the games have the
    /// focus.
    fn get_breadcrumb_items(&self) -> (r: Vec<String>)
        ensures
            r@.len() == (if self.focused() {
                2int
            } else {
                1int
            }),
            r@[0]@ == "Scores"@,
            self.focused() ==> r@[1]@ == day_full_text(self.day()),
    {
        proof {
            use_type_invariant(self);
            reveal_strlit("%b %d, %Y");
        }
        let mut items = vec![String::from_str("Scores")];
        if self.subtab_focused {
            items.push(format_day(self.game_date, "%b %d, %Y"));
        }
        items
    }
}

/// The state of the scores tab.
#[derive(Debug)]
pub struct ScoresTabState {
    /// Position of the selected day in the date window.
    pub selected_date_index: usize,
    /// The selected day.
    pub game_date: GameDay,
    /// Navigation among the games of the selected day.
    pub doc_nav: DocumentNavState,
}

impl ScoresTabState {
    /// The initial state: today in the middle of the window.
    pub fn new(today: GameDay) -> (s: Self)
        ensures
            s.selected_date_index == 2,
            s.game_date == today,
            s.doc_nav.is_fresh(),
    {
        ScoresTabState { selected_date_index: 2, game_date: today, doc_nav: DocumentNavState::default() }
    }
}

/// The scores tab component.
#[derive(Debug)]
pub struct ScoresTab;

/// The keys the scores tab reacts to.
#[derive(Clone, Copy, Debug, PartialEq, Eq, Structural)]
pub enum ScoresKey {
    Left,
    Right,
    Up,
    Down,
    Enter,
    Other,
}

/// Messages handled by the scores tab.
#[derive(Debug)]
pub enum ScoresTabMsg {
    /// A key pressed while the tab has the focus.
    Key(ScoresKey),
    /// Escape: leave browse mode, or hand the message up.
    NavigateUp,
    /// Select the previous day.
    NavigateLeft,
    /// Select the next day.
    NavigateRight,
    /// Start browsing the games.
    EnterBoxSelection,
    /// Stop browsing the games.
    ExitBoxSelection,
    /// The height of the visible area changed.
    UpdateViewportHeight(u16),
    /// Open the focused game.
    ActivateGame,
    /// A focus move among the games.
    DocNav(DocumentNavMsg),
}

/// Moving one day to the left: within the window, or moving the window at
/// its left edge; the schedule of the new day is loaded.
pub open spec fn moved_left(before: ScoresTabState, after: ScoresTabState, e: Effect) -> bool {
    &&& after.selected_date_index == (if before.selected_date_index > 0 {
        (before.selected_date_index - 1) as usize
    } else {
        0
    })
    &&& after.game_date == shifted_day(before.game_date, -1i64)
    &&& shifted_day(after.game_date, 1) == before.game_date
    &&& after.doc_nav == before.doc_nav
    &&& e == Effect::Action(Action::RefreshSchedule(after.game_date))
}

/// Moving one day to the right: within the window, or moving the window at
/// its right edge; the schedule of the new day is loaded.
pub open spec fn moved_right(before: ScoresTabState, after: ScoresTabState, e: Effect) -> bool {
    &&& after.selected_date_index == (if before.selected_date_index < DATE_WINDOW_SIZE - 1 {
        (before.selected_date_index + 1) as usize
    } else {
        before.selected_date_index
    })
    &&& after.game_date == shifted_day(before.game_date, 1)
    &&& shifted_day(after.game_date, -1i64) == before.game_date
    &&& after.doc_nav == before.doc_nav
    &&& e == Effect::Action(Action::RefreshSchedule(after.game_date))
}

/// Moving through the days keeps the selected position inside the window.
pub proof fn lemma_selection_stays_in_window(s0: ScoresTabState, s1: ScoresTabState, e: Effect)
    requires
        s0.selected_date_index < DATE_WINDOW_SIZE,
        moved_left(s0, s1, e) || moved_right(s0, s1, e),
    ensures
        s1.selected_date_index < DATE_WINDOW_SIZE,
{
}

/// Moving left and then right comes back to the same day with the same
/// games; inside the window (not at its left edge) the same position in the
/// window is selected again.
pub proof fn lemma_left_then_right(
    s0: ScoresTabState,
    s1: ScoresTabState,
    s2: ScoresTabState,
    e1: Effect,
    e2: Effect,
)
    requires
        s0.selected_date_index < DATE_WINDOW_SIZE,
        moved_left(s0, s1, e1),
        moved_right(s1, s2, e2),
    ensures
        s2.game_date == s0.game_date,
        s2.doc_nav == s0.doc_nav,
        s0.selected_date_index > 0 ==> s2.selected_date_index == s0.selected_date_index,
{
}

/// Moving right and then left comes back to the same day with the same
/// games; inside the window (not at its right edge) the same position in
/// the window is selected again.
pub proof fn lemma_right_then_left(
    s0: ScoresTabState,
    s1: ScoresTabState,
    s2: ScoresTabState,
    e1: Effect,
    e2: Effect,
)
    requires
        s0.selected_date_index < DATE_WINDOW_SIZE,
        moved_right(s0, s1, e1),
        moved_left(s1, s2, e2),
    ensures
        s2.game_date == s0.game_date,
        s2.doc_nav == s0.doc_nav,
        s0.selected_date_index < DATE_WINDOW_SIZE - 1 ==> s2.selected_date_index
            == s0.selected_date_index,
{
}

/// Starting to browse the games: the first game, if there is one, is
/// focused.
pub open spec fn entered_boxes(before: ScoresTabState, after: ScoresTabState) -> bool {
    &&& after.selected_date_index == before.selected_date_index
    &&& after.game_date == before.game_date
    &&& after.doc_nav == (DocumentNavState {
        focus_index: if before.doc_nav.focusable_positions@.len() > 0 {
            Some(0usize)
        } else {
            before.doc_nav.focus_index
        },
        ..before.doc_nav
    })
}

/// Opening the focused game: its boxscore when a game link is focused,
/// nothing otherwise.
pub open spec fn game_opened(state: ScoresTabState, e: Effect) -> bool {
    match focused_game(state.doc_nav) {
        Some(id) => e == Effect::Action(Action::PushDocument(StackedDocument::Boxscore { game_id: id })),
        None => e == Effect::Pass,
    }
}

/// A focus move among the games: the same day and window, the focus moved.
pub open spec fn focus_moved(before: ScoresTabState, after: ScoresTabState, m: DocumentNavMsg) -> bool {
    &&& after.selected_date_index == before.selected_date_index
    &&& after.game_date == before.game_date
    &&& after.doc_nav == nav_moved(before.doc_nav, m)
}

/// What a key does to the scores tab. While the games are browsed, Enter
/// opens the focused game and Up and Down move the focus to the previous
/// or next game; otherwise Left and Right change the day and Down or Enter
/// start browsing the games.
pub open spec fn scores_key_result(
    key: ScoresKey,
    before: ScoresTabState,
    after: ScoresTabState,
    e: Effect,
) -> bool {
    if before.doc_nav.browsing() {
        match key {
            ScoresKey::Enter => after == before && game_opened(before, e),
            ScoresKey::Up => focus_moved(before, after, DocumentNavMsg::FocusPrev) && e
                == Effect::Pass,
            ScoresKey::Down => focus_moved(before, after, DocumentNavMsg::FocusNext) && e
                == Effect::Pass,
            _ => after == before && e == Effect::Pass,
        }
    } else {
        match key {
            ScoresKey::Left => moved_left(before, after, e),
            ScoresKey::Right => moved_right(before, after, e),
            ScoresKey::Down | ScoresKey::Enter => entered_boxes(before, after) && e == Effect::Pass,
            _ => after == before && e == Effect::Pass,
        }
    }
}

/// The game a link ID of the form "game_<id>" opens.
pub open spec fn game_of_link(id: Seq<char>) -> Option<i64> {
    if id.len() >= 5 && id.subrange(0, 5) == "game_"@ {
        parsed_i64(id.subrange(5, id.len() as int))
    } else {
        None
    }
}

/// The game the focused element of a document opens, if it is a game link.
pub open spec fn focused_game(nav: DocumentNavState) -> Option<i64> {
    match nav.focus_index {
        Some(i) => if i < nav.focusable_ids@.len() {
            match nav.focusable_ids@[i as int]@ {
                FocusKey::Link(id) => game_of_link(id),
                _ => None,
            }
        } else {
            None
        },
        None => None,
    }
}

impl ScoresTab {
    /// Left: select the previous day, moving within the window or, at its
    /// left edge, moving the window; the schedule of the new day is loaded.
    pub fn navigate_left(&mut self, state: &mut ScoresTabState) -> (e: Effect)
        requires
            valid_day(old(state).game_date),
        ensures
            moved_left(*old(state), *final(state), e),
    {
        if state.selected_date_index > 0 {
            state.selected_date_index = state.selected_date_index - 1;
        }
        proof {
            lemma_shifted_day(state.game_date, -1i64);
        }
        state.game_date = shift_day(state.game_date, -1);
        Effect::Action(Action::RefreshSchedule(state.game_date))
    }

    /// Right: select the next day, moving within the window or, at its
    /// right edge, moving the window; the schedule of the new day is loaded.
    pub fn navigate_right(&mut self, state: &mut ScoresTabState) -> (e: Effect)
        requires
            valid_day(old(state).game_date),
        ensures
            moved_right(*old(state), *final(state), e),
    {
        if state.selected_date_index < DATE_WINDOW_SIZE - 1 {
            state.selected_date_index = state.selected_date_index + 1;
        }
        proof {
            lemma_shifted_day(state.game_date, 1);
        }
        state.game_date = shift_day(state.game_date, 1);
        Effect::Action(Action::RefreshSchedule(state.game_date))
    }

    /// Enter on a game: when the focused element is a link "game_<id>", the
    /// boxscore of that game is opened.
    pub fn activate_game(&mut self, state: &ScoresTabState) -> (e: Effect)
        ensures
            match focused_game(state.doc_nav) {
                Some(id) => e == Effect::Action(
                    Action::PushDocument(StackedDocument::Boxscore { game_id: id }),
                ),
                None => e == Effect::Pass,
            },
    {
        proof {
            reveal_strlit("game_");
        }
        let idx = match state.doc_nav.focus_index {
            Some(i) => i,
            None => {
                return Effect::Pass;
            },
        };
        if idx >= state.doc_nav.focusable_ids.len() {
            return Effect::Pass;
        }
        match &state.doc_nav.focusable_ids[idx] {
            FocusableId::Link(link_id) => match strip_prefix_chars(link_id.as_str(), "game_") {
                Some(rest) => match parse_i64(rest) {
                    Some(game_id) => Effect::Action(
                        Action::PushDocument(StackedDocument::Boxscore { game_id }),
                    ),
                    None => Effect::Pass,
                },
                None => Effect::Pass,
            },
            _ => Effect::Pass,
        }
    }

    /// Handle a message: each changes the state as its name says and tells
    /// the caller what to do next.
    pub fn update(&mut self, msg: ScoresTabMsg, state: &mut ScoresTabState) -> (e: Effect)
        requires
            valid_day(old(state).game_date),
        ensures
            match msg {
                ScoresTabMsg::Key(key) => scores_key_result(key, *old(state), *final(state), e),
                ScoresTabMsg::NavigateUp => if old(state).doc_nav.browsing() {
                    final(state).selected_date_index == old(state).selected_date_index
                        && final(state).game_date == old(state).game_date && final(state).doc_nav
                        == (DocumentNavState {
                        focus_index: None,
                        scroll_offset: 0,
                        ..old(state).doc_nav
                    }) && e == Effect::Handled
                } else {
                    *final(state) == *old(state) && e == Effect::Pass
                },
                ScoresTabMsg::NavigateLeft => moved_left(*old(state), *final(state), e),
                ScoresTabMsg::NavigateRight => moved_right(*old(state), *final(state), e),
                ScoresTabMsg::EnterBoxSelection => entered_boxes(*old(state), *final(state)) && e
                    == Effect::Pass,
                ScoresTabMsg::ExitBoxSelection => final(state).selected_date_index == old(
                    state,
                ).selected_date_index && final(state).game_date == old(state).game_date
                    && final(state).doc_nav == (DocumentNavState {
                    focus_index: None,
                    scroll_offset: 0,
                    ..old(state).doc_nav
                }) && e == Effect::Pass,
                ScoresTabMsg::UpdateViewportHeight(h) => final(state).selected_date_index == old(
                    state,
                ).selected_date_index && final(state).game_date == old(state).game_date
                    && final(state).doc_nav == (DocumentNavState {
                    viewport_height: h,
                    ..old(state).doc_nav
                }) && e == Effect::Pass,
                ScoresTabMsg::ActivateGame => *final(state) == *old(state) && game_opened(
                    *old(state),
                    e,
                ),
                ScoresTabMsg::DocNav(m) => focus_moved(*old(state), *final(state), m) && e
                    == Effect::Pass,
            },
    {
        match msg {
            ScoresTabMsg::Key(key) => self.handle_key(key, state),
            ScoresTabMsg::NavigateUp => {
                if state.doc_nav.is_browse_mode() {
                    state.doc_nav.exit_browse_mode();
                    Effect::Handled
                } else {
                    Effect::Pass
                }
            },
            ScoresTabMsg::NavigateLeft => self.navigate_left(state),
            ScoresTabMsg::NavigateRight => self.navigate_right(state),
            ScoresTabMsg::EnterBoxSelection => {
                state.doc_nav.enter_browse_mode();
                Effect::Pass
            },
            ScoresTabMsg::ExitBoxSelection => {
                state.doc_nav.exit_browse_mode();
                Effect::Pass
            },
            ScoresTabMsg::UpdateViewportHeight(h) => {
                state.doc_nav.viewport_height = h;
                Effect::Pass
            },
            ScoresTabMsg::ActivateGame => self.activate_game(state),
            ScoresTabMsg::DocNav(m) => state.doc_nav.handle_message(&m),
        }
    }

    /// Handle a key while the tab has the focus.
    pub fn handle_key(&mut self, key: ScoresKey, state: &mut ScoresTabState) -> (e: Effect)
        requires
            valid_day(old(state).game_date),
        ensures
            scores_key_result(key, *old(state), *final(state), e),
    {
        if state.doc_nav.is_browse_mode() {
            match key {
                ScoresKey::Enter => self.activate_game(state),
                ScoresKey::Up => state.doc_nav.handle_message(&DocumentNavMsg::FocusPrev),
                ScoresKey::Down => state.doc_nav.handle_message(&DocumentNavMsg::FocusNext),
                _ => Effect::Pass,
            }
        } else {
            match key {
                ScoresKey::Left => self.navigate_left(state),
                ScoresKey::Right => self.navigate_right(state),
                ScoresKey::Down | ScoresKey::Enter => {
                    state.doc_nav.enter_browse_mode();
                    Effect::Pass
                },
                _ => Effect::Pass,
            }
        }
    }

    /// The date tabs: the five days of the window, keyed "YYYY-MM-DD" and
    /// labelled "MM/DD", the selected day active; the bar has the focus when
    /// the tab has it and no game is being browsed.
    pub fn date_tabs(&self, state: &ScoresTabState, focused: bool) -> (p: TabbedPanelProps<
        GameDay,
    >)
        requires
            valid_day(state.game_date),
            -199990 <= state.game_date.year <= 199990,
            state.selected_date_index < DATE_WINDOW_SIZE,
        ensures
            ({
                let base = shifted_day(state.game_date, (0 - state.selected_date_index) as i64);
                &&& p.tabs@.len() == DATE_WINDOW_SIZE
                &&& forall|i: int|
                    0 <= i < DATE_WINDOW_SIZE ==> (#[trigger] p.tabs@[i]).content == shifted_day(
                        base,
                        i as i64,
                    ) && p.tabs@[i].key@ == day_key_text(p.tabs@[i].content)
                        && p.tabs@[i].title@ == day_label_text(p.tabs@[i].content)
                &&& p.tabs@[state.selected_date_index as int].content == state.game_date
                &&& p.active_key@ == day_key_text(state.game_date)
                &&& p.focused == (focused && state.doc_nav.focus_index is None)
            }),
    {
        proof {
            lemma_shifted_day(state.game_date, (0 - state.selected_date_index) as i64);
        }
        let base = shift_day(state.game_date, 0i64 - (state.selected_date_index as i64));
        let mut tabs: Vec<TabItem<GameDay>> = Vec::new();
        let mut i: usize = 0;
        while i < DATE_WINDOW_SIZE
            invariant
                i <= DATE_WINDOW_SIZE,
                base == shifted_day(state.game_date, (0 - state.selected_date_index) as i64),
                shifted_day(base, state.selected_date_index as i64) == state.game_date,
                state.selected_date_index < DATE_WINDOW_SIZE,
                1 <= base.month <= 12,
                1 <= base.day <= days_in_month(base.year, base.month),
                -199994 <= base.year <= 199994,
                tabs@.len() == i,
                forall|k: int|
                    0 <= k < i ==> (#[trigger] tabs@[k]).content == shifted_day(base, k as i64)
                        && tabs@[k].key@ == day_key_text(tabs@[k].content) && tabs@[k].title@
                        == day_label_text(tabs@[k].content),
            decreases DATE_WINDOW_SIZE - i,
        {
            proof {
                lemma_shifted_day(base, i as i64);
            }
            let d = shift_day(base, i as i64);
            let key = day_key(d);
            let title = day_label(d);
            tabs.push(TabItem { key, title, content: d });
            i = i + 1;
        }
        TabbedPanelProps {
            active_key: day_key(state.game_date),
            tabs,
            focused: focused && !state.doc_nav.is_browse_mode(),
        }
    }
}

} // verus!
