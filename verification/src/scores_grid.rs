//! The games of a day laid out in rows: as links, or as score boxes.

use vstd::prelude::*;

use std::collections::HashMap;

use crate::builder::DocumentBuilder;
use crate::demo_tab::is_text;
use crate::document::{Document, FocusContext, opt_key};
use crate::elements::{DocumentElement, ScoreBox, ScoreBoxStatus, SCORE_BOX_WIDTH};
use crate::focus::{FocusKey, FocusableId};
use crate::link::{LinkTarget, TargetView};
use crate::panels::{format_period_text, period_text, GameStatus, PeriodKind};
use crate::text::{decimal, push_decimal, push_signed_decimal, signed_decimal};

use chrono::Timelike;

verus! {

/// A game of the schedule: the teams, their scores once known, the state
/// of the game and its start time as shown to the user.
#[derive(Debug)]
pub struct ScheduledGame {
    pub id: i64,
    pub away_abbrev: String,
    pub home_abbrev: String,
    pub away_score: Option<i32>,
    pub home_score: Option<i32>,
    pub state: GameStatus,
    pub start_time: String,
}

/// The clock of a game being played.
#[derive(Debug)]
pub struct GameClock {
    pub time_remaining: String,
    pub in_intermission: bool,
}

/// What is known of a game once it is under way: the teams' names and
/// scores, the current period, and the clock.
#[derive(Debug)]
pub struct GameMatchupInfo {
    pub away_name: String,
    pub home_name: String,
    pub away_score: i32,
    pub home_score: i32,
    pub period_number: i32,
    pub period_kind: PeriodKind,
    pub clock: Option<GameClock>,
}

/// Whether a game is over.
pub open spec fn is_final_state(s: GameStatus) -> bool {
    s == GameStatus::Final || s == GameStatus::Off
}

/// Whether a game has started.
pub open spec fn has_started_state(s: GameStatus) -> bool {
    s == GameStatus::Live || s == GameStatus::Critical || s == GameStatus::Final || s
        == GameStatus::Off
}

/// The value of `k` in `m`, if any.
pub open spec fn map_get(m: Map<i64, GameMatchupInfo>, k: i64) -> Option<GameMatchupInfo> {
    if m.contains_key(k) {
        Some(m[k])
    } else {
        None
    }
}

/// The state a score box shows for a game: over (after overtime when a
/// period past the third or an overtime period was played, after a
/// shootout when the last period was one), being played (with the period
/// and clock when known, else "Live"), or scheduled with its start time.
pub open spec fn box_status_ok(st: ScoreBoxStatus, g: ScheduledGame, info: Option<GameMatchupInfo>) -> bool {
    if is_final_state(g.state) {
        match info {
            Some(i) => {
                let so = i.period_kind == PeriodKind::Shootout;
                let ot = (i.period_number > 3 || i.period_kind == PeriodKind::Overtime) && !so;
                st == ScoreBoxStatus::Final { overtime: ot, shootout: so }
            },
            None => st == ScoreBoxStatus::Final { overtime: false, shootout: false },
        }
    } else if has_started_state(g.state) {
        match info {
            Some(i) => st matches ScoreBoxStatus::Live { period, time, intermission } && period@
                == period_text(i.period_number, i.period_kind) && match i.clock {
                Some(c) => time matches Some(t) && t@ == c.time_remaining@ && intermission
                    == c.in_intermission,
                None => time is None && !intermission,
            },
            None => st matches ScoreBoxStatus::Live { period, time, intermission } && period@
                == "Live"@ && time is None && !intermission,
        }
    } else {
        st matches ScoreBoxStatus::Scheduled { start_time } && start_time@ == g.start_time@
    }
}

/// A score box shows a finished game as decided in overtime or in a
/// shootout, never both.
pub proof fn lemma_final_overtime_or_shootout(
    st: ScoreBoxStatus,
    g: ScheduledGame,
    info: Option<GameMatchupInfo>,
)
    requires
        box_status_ok(st, g, info),
    ensures
        st matches ScoreBoxStatus::Final { overtime, shootout } ==> !(overtime && shootout),
{
}

/// A score box shows the state of its game: a game that has not started
/// (scheduled, before the game, postponed or suspended) is shown as
/// scheduled with its start time, whatever details are known of it; a game
/// being played (live or critical) as live; a finished game (final or off)
/// as final.
pub proof fn lemma_score_box_follows_game_state(
    st: ScoreBoxStatus,
    g: ScheduledGame,
    info: Option<GameMatchupInfo>,
)
    requires
        box_status_ok(st, g, info),
    ensures
        g.state == GameStatus::Future || g.state == GameStatus::PreGame || g.state
            == GameStatus::Postponed || g.state == GameStatus::Suspended ==> (
        st matches ScoreBoxStatus::Scheduled { start_time } && start_time@ == g.start_time@),
        g.state == GameStatus::Live || g.state == GameStatus::Critical ==> st is Live,
        g.state == GameStatus::Final || g.state == GameStatus::Off ==> st is Final,
{
}

/// The score box of a game: the teams' names and scores as the game's
/// details give them, else the abbreviations and scores of the schedule,
/// and the game's state.
pub open spec fn is_score_box(b: ScoreBox, g: ScheduledGame, info: Option<GameMatchupInfo>) -> bool {
    &&& b.away_team@ == (match info {
        Some(i) => i.away_name@,
        None => g.away_abbrev@,
    })
    &&& b.home_team@ == (match info {
        Some(i) => i.home_name@,
        None => g.home_abbrev@,
    })
    &&& b.away_score == (match info {
        Some(i) => Some(i.away_score),
        None => g.away_score,
    })
    &&& b.home_score == (match info {
        Some(i) => Some(i.home_score),
        None => g.home_score,
    })
    &&& box_status_ok(b.status, g, info)
}

/// The games in rows of `k`: full rows, then the rest.
pub open spec fn chunked(s: Seq<ScheduledGame>, k: nat) -> Seq<Seq<ScheduledGame>>
    decreases s.len(),
{
    if s.len() == 0 || k == 0 {
        Seq::empty()
    } else if s.len() <= k {
        seq![s]
    } else {
        seq![s.take(k as int)] + chunked(s.skip(k as int), k)
    }
}

/// Laying games out in rows keeps every game once and in order; every row
/// has at least one game and at most `k`, and all rows but the last have
/// exactly `k`.
pub proof fn lemma_chunked_rows(s: Seq<ScheduledGame>, k: nat)
    requires
        k > 0,
    ensures
        chunked(s, k).flatten() == s,
        forall|i: int|
            0 <= i < chunked(s, k).len() ==> 0 < (#[trigger] chunked(s, k)[i]).len() <= k,
        forall|i: int| 0 <= i < chunked(s, k).len() - 1 ==> (#[trigger] chunked(s, k)[i]).len() == k,
    decreases s.len(),
{
    if s.len() == 0 {
    } else if s.len() <= k {
        let one = seq![s];
        assert(one.drop_first() =~= Seq::<Seq<ScheduledGame>>::empty());
        assert(one.drop_first().flatten() == Seq::<ScheduledGame>::empty());
        assert(one.flatten() == one.first() + one.drop_first().flatten());
        assert(one.flatten() =~= s);
    } else {
        let rest = chunked(s.skip(k as int), k);
        lemma_chunked_rows(s.skip(k as int), k);
        let c = seq![s.take(k as int)] + rest;
        assert(c.first() == s.take(k as int));
        assert(c.drop_first() =~= rest);
        assert(c.flatten() == s.take(k as int) + rest.flatten());
        assert(s.take(k as int) + s.skip(k as int) =~= s);
        assert forall|i: int| 0 <= i < c.len() implies 0 < (#[trigger] c[i]).len() <= k by {
            if i > 0 {
                assert(c[i] == rest[i - 1]);
            }
        }
        assert forall|i: int| 0 <= i < c.len() - 1 implies (#[trigger] c[i]).len() == k by {
            if i > 0 {
                assert(c[i] == rest[i - 1]);
            }
        }
    }
}

/// The ID of a game's link: "game_<id>".
pub open spec fn game_link_id(id: i64) -> Seq<char> {
    "game_"@ + signed_decimal(id as int)
}

/// `e` is the link of a game: "AWAY @ HOME", opening its boxscore, with the
/// ID "game_<id>", focused when the focus context focuses it.
pub open spec fn is_game_link(e: DocumentElement, g: ScheduledGame, focus: FocusContext) -> bool {
    e matches DocumentElement::Link { display, target, id, focused } && display@ == g.away_abbrev@
        + " @ "@ + g.home_abbrev@ && target@ == TargetView::Action(
        "open_boxscore_"@ + signed_decimal(g.id as int),
    ) && id@ == game_link_id(g.id) && focused == (opt_key(focus.focused_id) == Some(
        FocusKey::Link(game_link_id(g.id)),
    ))
}

/// `e` is a row of the links of the given games.
pub open spec fn is_game_row(e: DocumentElement, games: Seq<ScheduledGame>, focus: FocusContext) -> bool {
    e matches DocumentElement::Row { children, gap } && gap == 2 && children@.len() == games.len()
        && forall|i: int| 0 <= i < games.len() ==> is_game_link(#[trigger] children@[i], games[i], focus)
}

/// The games of a day in a grid.
#[derive(Debug)]
pub struct ScoresGridDocument {
    games: Option<Vec<ScheduledGame>>,
    boxes_per_row: u16,
    date_label: String,
}

impl ScoresGridDocument {
    #[verifier::type_invariant]
    closed spec fn rows_ok(self) -> bool {
        self.boxes_per_row > 0
    }

    /// The games, if the schedule is known.
    pub closed spec fn games(self) -> Option<Seq<ScheduledGame>> {
        match self.games {
            Some(v) => Some(v@),
            None => None,
        }
    }

    /// The number of games per row.
    pub closed spec fn per_row(self) -> u16 {
        self.boxes_per_row
    }

    /// The day, as shown in the title.
    pub closed spec fn date(self) -> Seq<char> {
        self.date_label@
    }

    /// A grid of the games of a day, `boxes_per_row` to a row.
    pub fn new(games: Option<Vec<ScheduledGame>>, boxes_per_row: u16, date_label: String) -> (d: Self)
        requires
            boxes_per_row > 0,
        ensures
            d.games() == (match games {
                Some(v) => Some(v@),
                None => None,
            }),
            d.per_row() == boxes_per_row,
            d.date() == date_label@,
    {
        ScoresGridDocument { games, boxes_per_row, date_label }
    }

    /// The link of a game.
    fn game_link(g: &ScheduledGame, focus: &FocusContext) -> (e: DocumentElement)
        ensures
            is_game_link(e, *g, *focus),
    {
        let mut id = String::from_str("game_");
        push_signed_decimal(&mut id, g.id);
        let mut display = g.away_abbrev.clone();
        display.append(" @ ");
        display.append(g.home_abbrev.as_str());
        let mut action = String::from_str("open_boxscore_");
        push_signed_decimal(&mut action, g.id);
        let focused = focus.is_link_focused(id.as_str());
        DocumentElement::Link { display, target: LinkTarget::Action(action), id, focused }
    }
}

impl Document for ScoresGridDocument {
    /// A row per `per_row` games; a note when there are none.
    open spec fn built(&self, focus: FocusContext, r: Seq<DocumentElement>) -> bool {
        match self.games() {
            Some(g) if g.len() > 0 => {
                let rows = chunked(g, self.per_row() as nat);
                &&& r.len() == rows.len()
                &&& forall|i: int| 0 <= i < rows.len() ==> is_game_row(#[trigger] r[i], rows[i], focus)
            },
            _ => r.len() == 1 && is_text(r[0], "No games scheduled for this date"@),
        }
    }

    /// Build the layout described above.
    fn build(&self, focus: &FocusContext) -> (r: Vec<DocumentElement>)
    {
        proof {
            use_type_invariant(self);
        }
        let games = match &self.games {
            Some(g) => g,
            None => {
                return DocumentBuilder::new().text("No games scheduled for this date").build();
            },
        };
        if games.len() == 0 {
            return DocumentBuilder::new().text("No games scheduled for this date").build();
        }
        let k = self.boxes_per_row as usize;
        let n = games.len();
        let ghost all = games@;
        let mut rows: Vec<DocumentElement> = Vec::new();
        let ghost mut done: Seq<Seq<ScheduledGame>> = Seq::empty();
        let mut pos: usize = 0;
        assert(all.skip(0) =~= all);
        assert(Seq::<Seq<ScheduledGame>>::empty() + chunked(all, k as nat) =~= chunked(all, k as nat));
        while pos < n
            invariant
                pos <= n,
                n == all.len(),
                all == games@,
                k > 0,
                chunked(all, k as nat) == done + chunked(all.skip(pos as int), k as nat),
                rows@.len() == done.len(),
                forall|i: int| 0 <= i < done.len() ==> is_game_row(#[trigger] rows@[i], done[i], *focus),
            decreases n - pos,
        {
            let end = if n - pos > k {
                pos + k
            } else {
                n
            };
            let mut children: Vec<DocumentElement> = Vec::new();
            let mut j = pos;
            while j < end
                invariant
                    pos <= j <= end <= n,
                    n == all.len(),
                    all == games@,
                    children@.len() == j - pos,
                    forall|c: int|
                        0 <= c < j - pos ==> is_game_link(#[trigger] children@[c], all[pos + c], *focus),
                decreases end - j,
            {
                children.push(Self::game_link(&games[j], focus));
                j = j + 1;
            }
            let ghost row = all.subrange(pos as int, end as int);
            proof {
                let rest = all.skip(pos as int);
                if rest.len() <= k {
                    assert(row =~= rest);
                    assert(chunked(rest, k as nat) == seq![rest]);
                    assert(all.skip(end as int).len() == 0);
                    assert(chunked(all.skip(end as int), k as nat) =~= Seq::<Seq<ScheduledGame>>::empty());
                } else {
                    assert(row =~= rest.take(k as int));
                    assert(rest.skip(k as int) =~= all.skip(end as int));
                }
                assert(done.push(row) + chunked(all.skip(end as int), k as nat) =~= done + chunked(
                    rest,
                    k as nat,
                ));
            }
            let ghost before = rows@;
            rows.push(DocumentElement::row(children));
            proof {
                assert forall|i: int| 0 <= i < done.len() + 1 implies is_game_row(
                    #[trigger] rows@[i],
                    done.push(row)[i],
                    *focus,
                ) by {
                    if i < done.len() {
                        assert(rows@[i] == before[i]);
                    }
                }
                done = done.push(row);
            }
            pos = end;
        }
        proof {
            assert(all.skip(n as int).len() == 0);
            assert(chunked(all.skip(n as int), k as nat) =~= Seq::<Seq<ScheduledGame>>::empty());
            assert(done + Seq::<Seq<ScheduledGame>>::empty() =~= done);
        }
        rows
    }

    /// "Games for <day>".
    fn title(&self) -> (s: String)
        ensures
            s@ == "Games for "@ + self.date(),
    {
        let mut s = String::from_str("Games for ");
        s.append(self.date_label.as_str());
        s
    }

    /// "scores_<day>".
    fn id(&self) -> (s: String)
        ensures
            s@ == "scores_"@ + self.date(),
    {
        let mut s = String::from_str("scores_");
        s.append(self.date_label.as_str());
        s
    }
}


/// Columns between two score boxes of a row.
pub const SCORE_BOX_GAP: u16 = 8;

/// Columns a score box takes with the gap before it.
pub const SCORE_BOX_WITH_GAP: u16 = 33;

/// `e` is the score box of a game, with the game's details from `info`,
/// focused when the focus context focuses that game.
pub open spec fn is_game_box(
    e: DocumentElement,
    g: ScheduledGame,
    info: Map<i64, GameMatchupInfo>,
    focus: FocusContext,
) -> bool {
    e matches DocumentElement::ScoreBoxElement { id, game_id, score_box, focused } && id@
        == "scorebox_"@ + signed_decimal(g.id as int) && game_id == g.id && is_score_box(
        score_box,
        g,
        map_get(info, g.id),
    ) && focused == (opt_key(focus.focused_id) == Some(FocusKey::GameLink(g.id)))
}

/// `e` is a row of the score boxes of the given games, 8 columns apart.
pub open spec fn is_box_row(
    e: DocumentElement,
    games: Seq<ScheduledGame>,
    info: Map<i64, GameMatchupInfo>,
    focus: FocusContext,
) -> bool {
    e matches DocumentElement::Row { children, gap } && gap == SCORE_BOX_GAP && children@.len()
        == games.len() && forall|i: int|
        0 <= i < games.len() ==> is_game_box(#[trigger] children@[i], games[i], info, focus)
}

/// `blank` is a blank line and `row` the row of the score boxes of `games`.
pub open spec fn is_spaced_row(
    blank: DocumentElement,
    row: DocumentElement,
    games: Seq<ScheduledGame>,
    info: Map<i64, GameMatchupInfo>,
    focus: FocusContext,
) -> bool {
    blank == DocumentElement::Spacer { height: 1 } && is_box_row(row, games, info, focus)
}

/// `r` holds, for each row of games, a blank line and then the row of their
/// score boxes.
pub open spec fn box_rows(
    r: Seq<DocumentElement>,
    rows: Seq<Seq<ScheduledGame>>,
    info: Map<i64, GameMatchupInfo>,
    focus: FocusContext,
) -> bool {
    &&& r.len() == 2 * rows.len()
    &&& forall|i: int|
        0 <= i < rows.len() ==> is_spaced_row(r[2 * i], r[2 * i + 1], #[trigger] rows[i], info, focus)
}

/// The games of a day as rows of score boxes.
#[derive(Debug)]
pub struct ScoreBoxesDocument {
    games: Option<Vec<ScheduledGame>>,
    game_info: HashMap<i64, GameMatchupInfo>,
    boxes_per_row: u16,
    date_label: String,
}

impl ScoreBoxesDocument {
    #[verifier::type_invariant]
    closed spec fn rows_ok(self) -> bool {
        self.boxes_per_row > 0
    }

    /// The games, if the schedule is known.
    pub closed spec fn games(self) -> Option<Seq<ScheduledGame>> {
        match self.games {
            Some(v) => Some(v@),
            None => None,
        }
    }

    /// The details of the games under way, by game ID.
    pub closed spec fn info(self) -> Map<i64, GameMatchupInfo> {
        self.game_info@
    }

    /// The number of score boxes per row.
    pub closed spec fn per_row(self) -> u16 {
        self.boxes_per_row
    }

    /// The day, as shown in the title.
    pub closed spec fn date(self) -> Seq<char> {
        self.date_label@
    }

    /// Score boxes of the games of a day, with the details known of the
    /// games under way, `boxes_per_row` to a row.
    pub fn new(
        games: Option<Vec<ScheduledGame>>,
        game_info: HashMap<i64, GameMatchupInfo>,
        boxes_per_row: u16,
        date_label: String,
    ) -> (d: Self)
        requires
            boxes_per_row > 0,
        ensures
            d.games() == (match games {
                Some(v) => Some(v@),
                None => None,
            }),
            d.info() == game_info@,
            d.per_row() == boxes_per_row,
            d.date() == date_label@,
    {
        ScoreBoxesDocument { games, game_info, boxes_per_row, date_label }
    }

    /// The details of a game, if known.
    fn game_details(&self, game_id: i64) -> (r: Option<&GameMatchupInfo>)
        ensures
            match map_get(self.info(), game_id) {
                Some(i) => r matches Some(x) && *x == i,
                None => r is None,
            },
    {
        broadcast use vstd::std_specs::hash::group_hash_axioms;

        self.game_info.get(&game_id)
    }

    /// The score box of a game: names and scores from the game's details
    /// where known, else from the schedule; its state from the game's
    /// state and details.
    fn create_score_box(&self, game: &ScheduledGame) -> (b: ScoreBox)
        ensures
            is_score_box(b, *game, map_get(self.info(), game.id)),
    {
        let info = self.game_details(game.id);
        let (away_team, home_team) = match info {
            Some(i) => (i.away_name.clone(), i.home_name.clone()),
            None => (game.away_abbrev.clone(), game.home_abbrev.clone()),
        };
        let (away_score, home_score) = match info {
            Some(i) => (Some(i.away_score), Some(i.home_score)),
            None => (game.away_score, game.home_score),
        };
        let finished = match game.state {
            GameStatus::Final | GameStatus::Off => true,
            _ => false,
        };
        let started = match game.state {
            GameStatus::Live | GameStatus::Critical | GameStatus::Final | GameStatus::Off => true,
            _ => false,
        };
        let status = if finished {
            match info {
                Some(i) => {
                    let is_ot = i.period_number > 3 || i.period_kind == PeriodKind::Overtime;
                    let is_so = i.period_kind == PeriodKind::Shootout;
                    ScoreBoxStatus::Final { overtime: is_ot && !is_so, shootout: is_so }
                },
                None => ScoreBoxStatus::Final { overtime: false, shootout: false },
            }
        } else if started {
            match info {
                Some(i) => {
                    let period = format_period_text(i.period_number, i.period_kind);
                    let (time, intermission) = match &i.clock {
                        Some(c) => (Some(c.time_remaining.clone()), c.in_intermission),
                        None => (None, false),
                    };
                    ScoreBoxStatus::Live { period, time, intermission }
                },
                None => {
                    proof {
                        reveal_strlit("Live");
                    }
                    ScoreBoxStatus::Live { period: String::from_str("Live"), time: None, intermission: false }
                },
            }
        } else {
            ScoreBoxStatus::Scheduled { start_time: game.start_time.clone() }
        };
        ScoreBox::new(away_team, home_team, away_score, home_score, status)
    }

    /// How many score boxes fit side by side in `width` columns: the first
    /// takes 25 columns, each further one 8 columns of gap and 25 of box;
    /// at least one.
    pub fn boxes_per_row_for_width(width: u16) -> (n: u16)
        ensures
            n == (if width < SCORE_BOX_WIDTH {
                1
            } else {
                1 + (width - SCORE_BOX_WIDTH) / (SCORE_BOX_WITH_GAP as int)
            }),
            n >= 1,
            width >= SCORE_BOX_WIDTH ==> SCORE_BOX_WIDTH + (n - 1) * SCORE_BOX_WITH_GAP <= width
                < SCORE_BOX_WIDTH + n * SCORE_BOX_WITH_GAP,
    {
        if width < SCORE_BOX_WIDTH {
            1
        } else {
            let after_first = width - SCORE_BOX_WIDTH;
            let n = 1 + after_first / SCORE_BOX_WITH_GAP;
            assert(SCORE_BOX_WITH_GAP * (after_first / SCORE_BOX_WITH_GAP) <= after_first
                < SCORE_BOX_WITH_GAP * (after_first / SCORE_BOX_WITH_GAP) + SCORE_BOX_WITH_GAP)
                by (nonlinear_arith);
            n
        }
    }

    /// The score box element of a game.
    fn game_box(&self, g: &ScheduledGame, focus: &FocusContext) -> (e: DocumentElement)
        ensures
            is_game_box(e, *g, self.info(), *focus),
    {
        let focused = match &focus.focused_id {
            Some(FocusableId::GameLink(id)) => *id == g.id,
            _ => false,
        };
        let score_box = self.create_score_box(g);
        DocumentElement::score_box_element(g.id, score_box, focused)
    }
}

impl Document for ScoreBoxesDocument {
    /// Per `per_row` games a blank line and a row of their score boxes; a
    /// note when there are none.
    open spec fn built(&self, focus: FocusContext, r: Seq<DocumentElement>) -> bool {
        match self.games() {
            Some(g) if g.len() > 0 => box_rows(
                r,
                chunked(g, self.per_row() as nat),
                self.info(),
                focus,
            ),
            _ => r.len() == 1 && is_text(r[0], "No games scheduled for this date"@),
        }
    }

    /// Build the layout described above.
    fn build(&self, focus: &FocusContext) -> (r: Vec<DocumentElement>)
    {
        proof {
            use_type_invariant(self);
        }
        let games = match &self.games {
            Some(g) => g,
            None => {
                return DocumentBuilder::new().text("No games scheduled for this date").build();
            },
        };
        if games.len() == 0 {
            return DocumentBuilder::new().text("No games scheduled for this date").build();
        }
        let k = self.boxes_per_row as usize;
        let n = games.len();
        let ghost all = games@;
        let mut out: Vec<DocumentElement> = Vec::new();
        let ghost mut done: Seq<Seq<ScheduledGame>> = Seq::empty();
        let mut pos: usize = 0;
        assert(all.skip(0) =~= all);
        assert(Seq::<Seq<ScheduledGame>>::empty() + chunked(all, k as nat) =~= chunked(all, k as nat));
        while pos < n
            invariant
                pos <= n,
                n == all.len(),
                all == games@,
                k > 0,
                chunked(all, k as nat) == done + chunked(all.skip(pos as int), k as nat),
                box_rows(out@, done, self.info(), *focus),
            decreases n - pos,
        {
            let end = if n - pos > k {
                pos + k
            } else {
                n
            };
            let mut children: Vec<DocumentElement> = Vec::new();
            let mut j = pos;
            while j < end
                invariant
                    pos <= j <= end <= n,
                    n == all.len(),
                    all == games@,
                    children@.len() == j - pos,
                    forall|c: int|
                        0 <= c < j - pos ==> is_game_box(
                            #[trigger] children@[c],
                            all[pos + c],
                            self.info(),
                            *focus,
                        ),
                decreases end - j,
            {
                children.push(self.game_box(&games[j], focus));
                j = j + 1;
            }
            let ghost row = all.subrange(pos as int, end as int);
            proof {
                let rest = all.skip(pos as int);
                if rest.len() <= k {
                    assert(row =~= rest);
                    assert(chunked(rest, k as nat) == seq![rest]);
                    assert(all.skip(end as int).len() == 0);
                    assert(chunked(all.skip(end as int), k as nat) =~= Seq::<Seq<ScheduledGame>>::empty());
                } else {
                    assert(row =~= rest.take(k as int));
                    assert(rest.skip(k as int) =~= all.skip(end as int));
                }
                assert(done.push(row) + chunked(all.skip(end as int), k as nat) =~= done + chunked(
                    rest,
                    k as nat,
                ));
            }
            let ghost before = out@;
            let row_elem = DocumentElement::row_with_gap(children, SCORE_BOX_GAP);
            assert(is_box_row(row_elem, row, self.info(), *focus));
            out.push(DocumentElement::spacer(1));
            out.push(row_elem);
            proof {
                let nd = done.push(row);
                assert(out@ == before.push(DocumentElement::Spacer { height: 1 }).push(row_elem));
                assert(out@.len() == 2 * nd.len());
                assert(nd[done.len() as int] == row);
                assert(out@[2 * done.len() as int] == DocumentElement::Spacer { height: 1 });
                assert(out@[2 * done.len() as int + 1] == row_elem);
                assert forall|i: int| 0 <= i < nd.len() implies is_spaced_row(
                    out@[2 * i],
                    out@[2 * i + 1],
                    #[trigger] nd[i],
                    self.info(),
                    *focus,
                ) by {
                    if i < done.len() {
                        assert(nd[i] == done[i]);
                        assert(out@[2 * i] == before[2 * i]);
                        assert(out@[2 * i + 1] == before[2 * i + 1]);
                    }
                }
                done = nd;
            }
            pos = end;
        }
        proof {
            assert(all.skip(n as int).len() == 0);
            assert(chunked(all.skip(n as int), k as nat) =~= Seq::<Seq<ScheduledGame>>::empty());
            assert(done + Seq::<Seq<ScheduledGame>>::empty() =~= done);
        }
        out
    }

    /// "Scores for <day>".
    fn title(&self) -> (s: String)
        ensures
            s@ == "Scores for "@ + self.date(),
    {
        let mut s = String::from_str("Scores for ");
        s.append(self.date_label.as_str());
        s
    }

    /// "scoreboxes_<day>".
    fn id(&self) -> (s: String)
        ensures
            s@ == "scoreboxes_"@ + self.date(),
    {
        let mut s = String::from_str("scoreboxes_");
        s.append(self.date_label.as_str());
        s
    }
}

/// A game's start time as shown in its score box: the hour on a 12-hour
/// clock followed by "AM" or "PM" ("7PM"), or the raw text where it could
/// not be read as a time.
pub open spec fn start_time_text(raw: Seq<char>, hour12: Option<(bool, u32)>) -> Seq<char> {
    match hour12 {
        Some((pm, h)) => decimal(h as nat) + if pm {
            "PM"@
        } else {
            "AM"@
        },
        None => raw,
    }
}

/// The start time as shown, from the raw text and, where it was read as a
/// time, whether that is past noon and the hour on a 12-hour clock.
pub fn format_start_time(raw: &str, hour12: Option<(bool, u32)>) -> (s: String)
    ensures
        s@ == start_time_text(raw@, hour12),
{
    proof {
        reveal_strlit("PM");
        reveal_strlit("AM");
    }
    match hour12 {
        Some((pm, h)) => {
            let mut s = String::new();
            push_decimal(&mut s, h as u64);
            if pm {
                s.append("PM");
            } else {
                s.append("AM");
            }
            s
        },
        None => String::from_str(raw),
    }
}

/// Whether `chrono::DateTime::parse_from_rfc3339` reads the text as a
/// time: a function of the text alone.
pub uninterp spec fn rfc3339_reads(s: Seq<char>) -> bool;

/// Calls `chrono::DateTime::parse_from_rfc3339` on the text and, when it
/// reads, converts the time to the machine's local time zone and takes
/// `Timelike::hour12`: whether the local hour is past noon, and the hour
/// from 1 to 12 (as chrono documents).  `None` exactly where the text does
/// not read.  Which hour comes back depends on the machine's time zone, so
/// nothing more is said of it than its range.
#[verifier::external_body]
fn local_hour12(start_time_utc: &str) -> (r: Option<(bool, u32)>)
    ensures
        (r is Some) == rfc3339_reads(start_time_utc@),
        r matches Some((_, h)) ==> 1 <= h <= 12,
{
    match chrono::DateTime::parse_from_rfc3339(start_time_utc) {
        Ok(parsed) => Some(chrono::DateTime::<chrono::Local>::from(parsed).hour12()),
        Err(_) => None,
    }
}

/// A game's start time in the local time zone, compact ("7PM"); the raw
/// text where it is not an RFC 3339 time.  Which hour depends on the
/// machine's time zone: whatever it is, the label of a time that reads is
/// that hour from 1 to 12 followed by "AM" or "PM".
pub fn start_time_label(start_time_utc: &str) -> (s: String)
    ensures
        rfc3339_reads(start_time_utc@) ==> exists|pm: bool, h: u32|
            1 <= h <= 12 && s@ == start_time_text(start_time_utc@, Some((pm, h))),
        !rfc3339_reads(start_time_utc@) ==> s@ == start_time_utc@,
{
    let h = local_hour12(start_time_utc);
    let s = format_start_time(start_time_utc, h);
    proof {
        if let Some((pm, x)) = h {
            assert(1 <= x <= 12 && s@ == start_time_text(start_time_utc@, Some((pm, x))));
        }
    }
    s
}

} // verus!
