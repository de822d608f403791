//! The detail panels (boxscore, team, player): what their lines say, which
//! part of a long list is shown, and where each section goes.

use vstd::prelude::*;

use crate::player_detail::{
    PlayerInfo, SeasonRow, career_line, create_season_table, details_line, draft_line,
    format_career_stats, full_name, get_nhl_regular_seasons, lemma_shown_seasons_ok, player_details_line,
    player_draft_line, player_full_name, player_ok, player_size_line, season_column, season_table, seasons_title,
    shown_seasons, size_line,
};
use crate::stats_tables::{
    GoalieRow, GoalieStatsTableWidget, SkaterRow, SkaterStatsTableWidget, goalie_table, skater_table,
};
use crate::table::{TableView, TableWidget};
use crate::team_detail::{
    ClubGoalieRow, ClubSkaterRow, ClubStatsRows, TeamStanding, club_goalie_table, club_skater_table,
    create_club_goalie_table, create_club_skater_table, format_record, format_roster_header,
    goalies_by_games, lemma_goalies_by_games_sorted, lemma_skaters_by_points_sorted, record_line,
    roster_header, skaters_by_points, sort_goalies_by_games, sort_skaters_by_points, team_heading,
};
use crate::text::{push_decimal, push_signed_decimal, push_spaces, signed_decimal, spaces};

verus! {

// ---------------------------------------------------------------------------
// Shared pieces
// ---------------------------------------------------------------------------

/// `a - b`, or 0 when `b` is larger.
pub open spec fn sat_sub(a: int, b: int) -> int {
    if a > b {
        a - b
    } else {
        0
    }
}

/// The smaller of two numbers.
pub open spec fn min_of(a: int, b: int) -> int {
    if a < b {
        a
    } else {
        b
    }
}

/// The frame of a detail panel: the title on its border and, while there
/// is nothing else to show, the one message inside it.  With a message the
/// panel shows the bordered block with that message only; without one it
/// shows its content inside the border.
#[derive(Debug)]
pub struct PanelFrame {
    pub title: String,
    pub message: Option<String>,
}

/// The rows of a list shown from a scroll offset: from the offset (at most
/// the end) up to `visible_end`.
pub struct Window {
    pub from: usize,
    pub to: usize,
}

/// The position within a window of a selected row of the whole list, when
/// it is shown.
pub open spec fn row_in_window(selected: Option<usize>, from: int, to: int) -> Option<usize> {
    match selected {
        Some(i) => if from <= i < to {
            Some((i - from) as usize)
        } else {
            None
        },
        None => None,
    }
}

/// The position within a window of a selected row, when it is shown.
pub fn selected_in_window(selected: Option<usize>, from: usize, to: usize) -> (r: Option<usize>)
    ensures
        r == row_in_window(selected, from as int, to as int),
{
    match selected {
        Some(i) => if from <= i && i < to {
            Some(i - from)
        } else {
            None
        },
        None => None,
    }
}

/// A table's height within what is left of an area below line `y`, two
/// lines kept for the border.
pub open spec fn clamped_height(preferred: u16, area_height: u16, y: u16) -> u16 {
    min_of(preferred as int, sat_sub(sat_sub(area_height as int, y as int), 2)) as u16
}

/// A table's height within what is left of an area below line `y`.
pub fn clamp_height(preferred: u16, area_height: u16, y: u16) -> (h: u16)
    ensures
        h == clamped_height(preferred, area_height, y),
        h <= preferred,
{
    let left = area_height.saturating_sub(y).saturating_sub(2);
    if preferred < left {
        preferred
    } else {
        left
    }
}

// ---------------------------------------------------------------------------
// Boxscore panel
// ---------------------------------------------------------------------------

/// Which team a boxscore shows when there is room for one only.
#[derive(Clone, Copy, Debug, PartialEq, Eq, Structural)]
pub enum TeamView {
    Away,
    Home,
}

/// The state of a game.
#[derive(Clone, Copy, Debug, PartialEq, Eq, Structural)]
pub enum GameStatus {
    Future,
    PreGame,
    Live,
    Final,
    Off,
    Postponed,
    Suspended,
    Critical,
}

/// The kind of a period.
#[derive(Clone, Copy, Debug, PartialEq, Eq, Structural)]
pub enum PeriodKind {
    Regulation,
    Overtime,
    Shootout,
}

/// The lines a section of players takes besides its rows: title,
/// separator, blank line, column headers, separator.
pub const SECTION_CHROME_LINES: usize = 5;

/// The width from which both teams are shown side by side.
pub const SPLIT_SCREEN_MIN_WIDTH: u16 = 160;

/// The text of a game state.
pub open spec fn game_state_text(s: GameStatus) -> Seq<char> {
    match s {
        GameStatus::Future => "SCHEDULED"@,
        GameStatus::PreGame => "PRE-GAME"@,
        GameStatus::Live => "LIVE"@,
        GameStatus::Final => "FINAL"@,
        GameStatus::Off => "OFF"@,
        GameStatus::Postponed => "POSTPONED"@,
        GameStatus::Suspended => "SUSPENDED"@,
        GameStatus::Critical => "CRITICAL"@,
    }
}

/// The text of a game state.
pub fn format_game_state(s: GameStatus) -> (r: &'static str)
    ensures
        r@ == game_state_text(s),
{
    proof {
        reveal_strlit("SCHEDULED");
        reveal_strlit("PRE-GAME");
        reveal_strlit("LIVE");
        reveal_strlit("FINAL");
        reveal_strlit("OFF");
        reveal_strlit("POSTPONED");
        reveal_strlit("SUSPENDED");
        reveal_strlit("CRITICAL");
    }
    match s {
        GameStatus::Future => "SCHEDULED",
        GameStatus::PreGame => "PRE-GAME",
        GameStatus::Live => "LIVE",
        GameStatus::Final => "FINAL",
        GameStatus::Off => "OFF",
        GameStatus::Postponed => "POSTPONED",
        GameStatus::Suspended => "SUSPENDED",
        GameStatus::Critical => "CRITICAL",
    }
}

/// The state text of a game names its state: no two states share a text,
/// a finished game reads "FINAL", a game being played "LIVE", and a game
/// not started "SCHEDULED" or "PRE-GAME".
pub proof fn lemma_state_text_names_state(s1: GameStatus, s2: GameStatus)
    ensures
        game_state_text(s1) == game_state_text(s2) ==> s1 == s2,
        game_state_text(GameStatus::Final) == "FINAL"@,
        game_state_text(GameStatus::Live) == "LIVE"@,
        game_state_text(GameStatus::Future) == "SCHEDULED"@,
        game_state_text(GameStatus::PreGame) == "PRE-GAME"@,
{
    reveal_strlit("SCHEDULED");
    reveal_strlit("PRE-GAME");
    reveal_strlit("LIVE");
    reveal_strlit("FINAL");
    reveal_strlit("OFF");
    reveal_strlit("POSTPONED");
    reveal_strlit("SUSPENDED");
    reveal_strlit("CRITICAL");
    if game_state_text(s1) == game_state_text(s2) {
        let t1 = game_state_text(s1);
        let t2 = game_state_text(s2);
        assert(t1.len() == t2.len());
        assert(t1[0] == t2[0]);
        assert(t1[1] == t2[1]);
    }
}

/// The text of a period: its number in regulation, else "OT" or "SO".
pub open spec fn period_text(number: i32, kind: PeriodKind) -> Seq<char> {
    match kind {
        PeriodKind::Regulation => signed_decimal(number as int),
        PeriodKind::Overtime => "OT"@,
        PeriodKind::Shootout => "SO"@,
    }
}

/// The text of a period.
pub fn format_period_text(number: i32, kind: PeriodKind) -> (s: String)
    ensures
        s@ == period_text(number, kind),
{
    match kind {
        PeriodKind::Regulation => {
            let mut s = String::new();
            push_signed_decimal(&mut s, number as i64);
            assert(s@ =~= signed_decimal(number as int));
            s
        },
        PeriodKind::Overtime => String::from_str("OT"),
        PeriodKind::Shootout => String::from_str("SO"),
    }
}

/// The clock line: the time left while the clock runs or outside an
/// intermission, else "INTERMISSION".
pub open spec fn clock_text(running: bool, in_intermission: bool, time_remaining: Seq<char>) -> Seq<
    char,
> {
    if running || !in_intermission {
        "Time: "@ + time_remaining
    } else {
        "INTERMISSION"@
    }
}

/// The clock line.
pub fn format_clock(running: bool, in_intermission: bool, time_remaining: &str) -> (s: String)
    ensures
        s@ == clock_text(running, in_intermission, time_remaining@),
{
    if running || !in_intermission {
        let mut s = String::from_str("Time: ");
        s.append(time_remaining);
        s
    } else {
        String::from_str("INTERMISSION")
    }
}

/// `s` padded with spaces on the right to `w` characters.
pub open spec fn pad_right(s: Seq<char>, w: nat) -> Seq<char> {
    s + spaces(sat_sub(w as int, s.len() as int) as nat)
}

/// `s` padded with spaces on the left to `w` characters.
pub open spec fn pad_left(s: Seq<char>, w: nat) -> Seq<char> {
    spaces(sat_sub(w as int, s.len() as int) as nat) + s
}

/// A team's score line: the abbreviation in six columns, a space, the
/// score right-aligned in three.
pub open spec fn score_line(abbrev: Seq<char>, score: i32) -> Seq<char> {
    pad_right(abbrev, 6) + " "@ + pad_left(signed_decimal(score as int), 3)
}

/// A team's score line.
pub fn format_score_line(abbrev: &str, score: i32) -> (s: String)
    ensures
        s@ == score_line(abbrev@, score),
{
    let mut s = String::from_str(abbrev);
    let n = abbrev.unicode_len();
    if n < 6 {
        push_spaces(&mut s, 6 - n);
    }
    s.append(" ");
    let mut num = String::new();
    push_signed_decimal(&mut num, score as i64);
    let k = num.as_str().unicode_len();
    if k < 3 {
        push_spaces(&mut s, 3 - k);
    }
    s.append(num.as_str());
    proof {
        assert(spaces(0) =~= Seq::<char>::empty());
    }
    assert(s@ =~= score_line(abbrev@, score));
    s
}

/// A section of a team's players.
#[derive(Clone, Copy, Debug, PartialEq, Eq, Structural)]
pub enum SectionKind {
    Forwards,
    Defense,
    Goalies,
}

/// A section to draw: its kind, the area it goes in, and how many players
/// it lists.
#[derive(Clone, Copy, Debug, PartialEq, Eq, Structural)]
pub struct SectionDraw {
    pub kind: SectionKind,
    pub area: usize,
    pub count: usize,
}

/// Where a team's sections go: the heights of the areas, top to bottom,
/// and the sections drawn.
#[derive(Debug)]
pub struct TeamStatsLayout {
    pub constraints: Vec<u16>,
    pub sections: Vec<SectionDraw>,
}

/// The height of a section of at most `max` players.
pub open spec fn section_height(max: usize) -> u16 {
    (max + SECTION_CHROME_LINES) as u16
}

/// The heights of the areas of a team: a section for each kind of player
/// that either team has, sized by the larger team, with a blank line
/// between forwards and defense and between defense and goalies.
pub open spec fn section_heights(mf: usize, md: usize, mg: usize) -> Seq<u16> {
    let f: Seq<u16> = if mf > 0 {
        seq![section_height(mf)]
    } else {
        seq![]
    };
    let d: Seq<u16> = if md > 0 {
        (if mf > 0 {
            seq![1u16]
        } else {
            seq![]
        }) + seq![section_height(md)]
    } else {
        seq![]
    };
    let g: Seq<u16> = if mg > 0 {
        (if md > 0 {
            seq![1u16]
        } else {
            seq![]
        }) + seq![section_height(mg)]
    } else {
        seq![]
    };
    f + d + g
}

/// The sections drawn for a team with `f`, `d` and `g` players: one for
/// each kind the team has and either team has, each in the area counted as
/// the sections before it and the blank lines the larger team has before
/// it (a section may so land in a blank line's area when the team has no
/// players of an earlier kind that the other team has).
pub open spec fn drawn_sections(
    f: usize,
    d: usize,
    g: usize,
    mf: usize,
    md: usize,
    mg: usize,
) -> Seq<SectionDraw> {
    let fw: Seq<SectionDraw> = if mf > 0 && f > 0 {
        seq![SectionDraw { kind: SectionKind::Forwards, area: 0, count: f }]
    } else {
        seq![]
    };
    let i1: int = fw.len() as int;
    let da: int = i1 + if mf > 0 {
        1int
    } else {
        0int
    };
    let df: Seq<SectionDraw> = if md > 0 && d > 0 {
        seq![SectionDraw { kind: SectionKind::Defense, area: da as usize, count: d }]
    } else {
        seq![]
    };
    let i2: int = if md > 0 && d > 0 {
        da + 1
    } else {
        i1
    };
    let ga: int = i2 + if md > 0 {
        1int
    } else {
        0int
    };
    let gl: Seq<SectionDraw> = if mg > 0 && g > 0 {
        seq![SectionDraw { kind: SectionKind::Goalies, area: ga as usize, count: g }]
    } else {
        seq![]
    };
    fw + df + gl
}

/// The larger of two counts.
pub fn max_count(a: usize, b: usize) -> (m: usize)
    ensures
        m == if a > b {
            a
        } else {
            b
        },
{
    if a > b {
        a
    } else {
        b
    }
}

/// The boxscore panel.
#[derive(Debug)]
pub struct BoxscorePanel;

impl BoxscorePanel {
    /// The titles of the two team tabs when one team is shown at a time:
    /// "<away abbrev> (Away)" and "<home abbrev> (Home)".
    pub fn team_tab_titles(away_abbrev: &str, home_abbrev: &str) -> (t: Vec<String>)
        ensures
            t@.len() == 2,
            t@[0]@ == away_abbrev@ + " (Away)"@,
            t@[1]@ == home_abbrev@ + " (Home)"@,
    {
        let mut away = String::from_str(away_abbrev);
        away.append(" (Away)");
        let mut home = String::from_str(home_abbrev);
        home.append(" (Home)");
        let mut t: Vec<String> = Vec::new();
        t.push(away);
        t.push(home);
        t
    }

    /// Whether both teams are shown side by side.
    pub fn use_split_screen(width: u16) -> (b: bool)
        ensures
            b == (width >= SPLIT_SCREEN_MIN_WIDTH),
    {
        width >= SPLIT_SCREEN_MIN_WIDTH
    }

    /// The tab selected for a team view: the away team first.
    pub fn selected_tab(view: TeamView) -> (i: usize)
        ensures
            i == (if view == TeamView::Away {
                0usize
            } else {
                1usize
            }),
    {
        match view {
            TeamView::Away => 0,
            TeamView::Home => 1,
        }
    }

    /// The index of the first home player in the list of all players: the
    /// away players come first.
    pub fn home_base(away_forwards: usize, away_defense: usize, away_goalies: usize) -> (b: usize)
        requires
            away_forwards + away_defense + away_goalies <= usize::MAX,
        ensures
            b == away_forwards + away_defense + away_goalies,
    {
        away_forwards + away_defense + away_goalies
    }

    /// The layouts of both teams side by side: each team's sections sized
    /// by the larger of the two teams, so that they line up.
    pub fn split_screen_layouts(
        away: (usize, usize, usize),
        home: (usize, usize, usize),
    ) -> (r: (TeamStatsLayout, TeamStatsLayout))
        requires
            away.0 + SECTION_CHROME_LINES <= usize::MAX,
            away.1 + SECTION_CHROME_LINES <= usize::MAX,
            away.2 + SECTION_CHROME_LINES <= usize::MAX,
            home.0 + SECTION_CHROME_LINES <= usize::MAX,
            home.1 + SECTION_CHROME_LINES <= usize::MAX,
            home.2 + SECTION_CHROME_LINES <= usize::MAX,
        ensures
            ({
                let mf = if away.0 > home.0 {
                    away.0
                } else {
                    home.0
                };
                let md = if away.1 > home.1 {
                    away.1
                } else {
                    home.1
                };
                let mg = if away.2 > home.2 {
                    away.2
                } else {
                    home.2
                };
                &&& r.0.constraints@ == section_heights(mf, md, mg)
                &&& r.1.constraints@ == section_heights(mf, md, mg)
                &&& r.0.sections@ == drawn_sections(away.0, away.1, away.2, mf, md, mg)
                &&& r.1.sections@ == drawn_sections(home.0, home.1, home.2, mf, md, mg)
            }),
    {
        let mf = max_count(away.0, home.0);
        let md = max_count(away.1, home.1);
        let mg = max_count(away.2, home.2);
        (
            Self::team_stats_layout(away.0, away.1, away.2, mf, md, mg),
            Self::team_stats_layout(home.0, home.1, home.2, mf, md, mg),
        )
    }

    /// Where a team's sections go, given its numbers of forwards, defense
    /// and goalies and the largest numbers of either team (so that both
    /// columns line up).
    pub fn team_stats_layout(
        forwards: usize,
        defense: usize,
        goalies: usize,
        max_forwards: usize,
        max_defense: usize,
        max_goalies: usize,
    ) -> (l: TeamStatsLayout)
        requires
            max_forwards + SECTION_CHROME_LINES <= usize::MAX,
            max_defense + SECTION_CHROME_LINES <= usize::MAX,
            max_goalies + SECTION_CHROME_LINES <= usize::MAX,
        ensures
            l.constraints@ == section_heights(max_forwards, max_defense, max_goalies),
            l.sections@ == drawn_sections(
                forwards,
                defense,
                goalies,
                max_forwards,
                max_defense,
                max_goalies,
            ),
            forall|i: int|
                0 <= i < l.sections@.len() ==> (#[trigger] l.sections@[i]).area
                    < l.constraints@.len(),
    {
        let mut constraints: Vec<u16> = Vec::new();
        if max_forwards > 0 {
            constraints.push((max_forwards + SECTION_CHROME_LINES) as u16);
        }
        if max_defense > 0 {
            if max_forwards > 0 {
                constraints.push(1);
            }
            constraints.push((max_defense + SECTION_CHROME_LINES) as u16);
        }
        if max_goalies > 0 {
            if max_defense > 0 {
                constraints.push(1);
            }
            constraints.push((max_goalies + SECTION_CHROME_LINES) as u16);
        }
        let mut sections: Vec<SectionDraw> = Vec::new();
        let mut idx: usize = 0;
        if max_forwards > 0 && forwards > 0 {
            sections.push(SectionDraw { kind: SectionKind::Forwards, area: idx, count: forwards });
            idx = idx + 1;
        }
        if max_defense > 0 && defense > 0 {
            if max_forwards > 0 {
                idx = idx + 1;
            }
            sections.push(SectionDraw { kind: SectionKind::Defense, area: idx, count: defense });
            idx = idx + 1;
        }
        if max_goalies > 0 && goalies > 0 {
            if max_defense > 0 {
                idx = idx + 1;
            }
            sections.push(SectionDraw { kind: SectionKind::Goalies, area: idx, count: goalies });
        }
        let ghost want = drawn_sections(
            forwards,
            defense,
            goalies,
            max_forwards,
            max_defense,
            max_goalies,
        );
        assert(constraints@ =~= section_heights(max_forwards, max_defense, max_goalies));
        assert(sections@ =~= want);
        TeamStatsLayout { constraints, sections }
    }
}

/// The area of a kind of section when every earlier kind is drawn: after
/// the sections and blank lines before it.
pub open spec fn canonical_area(kind: SectionKind, mf: usize, md: usize) -> int {
    let fw: int = if mf > 0 {
        1
    } else {
        0
    };
    match kind {
        SectionKind::Forwards => 0,
        SectionKind::Defense => 2 * fw,
        SectionKind::Goalies => if md > 0 {
            2 * fw + 2
        } else {
            fw
        },
    }
}

/// The larger count of a kind of section.
pub open spec fn max_of_kind(kind: SectionKind, mf: usize, md: usize, mg: usize) -> usize {
    match kind {
        SectionKind::Forwards => mf,
        SectionKind::Defense => md,
        SectionKind::Goalies => mg,
    }
}

/// The number of rows taken by the first `k` areas of a column laid out
/// one under the other with the heights `h`: the row, counted from the top
/// of the column, at which area `k` starts.
pub open spec fn rows_before(h: Seq<u16>, k: int) -> int
    decreases k,
{
    if k <= 0 {
        0
    } else {
        rows_before(h, k - 1) + h[k - 1]
    }
}

/// The row, counted from the top of a team's column, at which the title of
/// a kind of section stands when every earlier kind is drawn: forwards at
/// the top, defense `max_forwards + 6` rows down, goalies
/// `max_forwards + max_defense + 12` rows down (a section takes its rows
/// plus five, and a blank line follows forwards before defense and defense
/// before goalies; with no defense, goalies follow forwards directly).
pub open spec fn canonical_row(kind: SectionKind, mf: usize, md: usize) -> int {
    let defense_row: int = if mf > 0 {
        mf + SECTION_CHROME_LINES + 1
    } else {
        0
    };
    match kind {
        SectionKind::Forwards => 0,
        SectionKind::Defense => defense_row,
        SectionKind::Goalies => if md > 0 {
            defense_row + md + SECTION_CHROME_LINES + 1
        } else if mf > 0 {
            mf + SECTION_CHROME_LINES
        } else {
            0
        },
    }
}

/// When a team has forwards and defense wherever the larger team has
/// them, each of its sections goes in the area of its kind, which depends
/// on the larger counts only and is sized for the larger team, and its
/// title stands on the row of its kind, which depends on the larger counts
/// only: the sections of two teams line up side by side, whatever their
/// own counts.
pub proof fn lemma_sections_line_up(f: usize, d: usize, g: usize, mf: usize, md: usize, mg: usize)
    requires
        f <= mf,
        d <= md,
        g <= mg,
        mf > 0 ==> f > 0,
        md > 0 ==> d > 0,
        mf + SECTION_CHROME_LINES <= u16::MAX,
        md + SECTION_CHROME_LINES <= u16::MAX,
    ensures
        forall|i: int|
            0 <= i < drawn_sections(f, d, g, mf, md, mg).len() ==> {
                let sec = #[trigger] drawn_sections(f, d, g, mf, md, mg)[i];
                &&& sec.area == canonical_area(sec.kind, mf, md)
                &&& sec.area < section_heights(mf, md, mg).len()
                &&& section_heights(mf, md, mg)[sec.area as int] == section_height(
                    max_of_kind(sec.kind, mf, md, mg),
                )
                &&& rows_before(section_heights(mf, md, mg), sec.area as int) == canonical_row(
                    sec.kind,
                    mf,
                    md,
                )
            },
{
    let s = drawn_sections(f, d, g, mf, md, mg);
    let h = section_heights(mf, md, mg);
    let one: Seq<u16> = seq![1u16];
    assert forall|i: int| 0 <= i < s.len() implies {
        let sec = #[trigger] s[i];
        &&& sec.area == canonical_area(sec.kind, mf, md)
        &&& sec.area < h.len()
        &&& h[sec.area as int] == section_height(max_of_kind(sec.kind, mf, md, mg))
        &&& rows_before(h, sec.area as int) == canonical_row(sec.kind, mf, md)
    } by {
        reveal_with_fuel(rows_before, 5);
        assert(section_height(mf) as int == mf + SECTION_CHROME_LINES);
        assert(section_height(md) as int == md + SECTION_CHROME_LINES);
        let hf: Seq<u16> = if mf > 0 { seq![section_height(mf)] } else { seq![] };
        let hd: Seq<u16> = if md > 0 {
            (if mf > 0 { one } else { seq![] }) + seq![section_height(md)]
        } else {
            seq![]
        };
        let hg: Seq<u16> = if mg > 0 {
            (if md > 0 { one } else { seq![] }) + seq![section_height(mg)]
        } else {
            seq![]
        };
        assert(h == hf + hd + hg);
        let fs = SectionDraw { kind: SectionKind::Forwards, area: 0, count: f };
        if mf > 0 {
            if md > 0 {
                let ds = SectionDraw { kind: SectionKind::Defense, area: 2, count: d };
                let gs = SectionDraw { kind: SectionKind::Goalies, area: 4, count: g };
                if mg > 0 {
                    assert(h =~= seq![section_height(mf), 1u16, section_height(md), 1u16, section_height(mg)]);
                    if g > 0 {
                        assert(s =~= seq![fs, ds, gs]);
                    } else {
                        assert(s =~= seq![fs, ds]);
                    }
                } else {
                    assert(h =~= seq![section_height(mf), 1u16, section_height(md)]);
                    assert(s =~= seq![fs, ds]);
                }
            } else {
                let gs = SectionDraw { kind: SectionKind::Goalies, area: 1, count: g };
                if mg > 0 {
                    assert(h =~= seq![section_height(mf), section_height(mg)]);
                    if g > 0 {
                        assert(s =~= seq![fs, gs]);
                    } else {
                        assert(s =~= seq![fs]);
                    }
                } else {
                    assert(h =~= seq![section_height(mf)]);
                    assert(s =~= seq![fs]);
                }
            }
        } else {
            if md > 0 {
                let ds = SectionDraw { kind: SectionKind::Defense, area: 0, count: d };
                let gs = SectionDraw { kind: SectionKind::Goalies, area: 2, count: g };
                if mg > 0 {
                    assert(h =~= seq![section_height(md), 1u16, section_height(mg)]);
                    if g > 0 {
                        assert(s =~= seq![ds, gs]);
                    } else {
                        assert(s =~= seq![ds]);
                    }
                } else {
                    assert(h =~= seq![section_height(md)]);
                    assert(s =~= seq![ds]);
                }
            } else {
                let gs = SectionDraw { kind: SectionKind::Goalies, area: 0, count: g };
                if mg > 0 {
                    assert(h =~= seq![section_height(mg)]);
                    if g > 0 {
                        assert(s =~= seq![gs]);
                    } else {
                        assert(s =~= Seq::<SectionDraw>::empty());
                    }
                } else {
                    assert(h =~= Seq::<u16>::empty());
                    assert(s =~= Seq::<SectionDraw>::empty());
                }
            }
        }
    }
}

/// The rows a team panel shows: the skaters then the goalies, as one list
/// scrolled by the offset, in the lines left under the header.
#[derive(Debug)]
pub struct TeamPanelWindow {
    pub skaters_from: usize,
    pub skaters_to: usize,
    pub goalies_from: usize,
    pub goalies_to: usize,
    pub skater_selected: Option<usize>,
    pub goalie_selected: Option<usize>,
}

/// The lines of a team panel taken by everything but the rows.
pub const TEAM_PANEL_CHROME_LINES: u16 = 10;

/// The team detail panel.
#[derive(Debug)]
pub struct TeamDetailPanel;

/// The rows a team panel shows of `skaters` skaters then `goalies` goalies:
/// from the scroll offset, as many as the area leaves for rows; each
/// selection counted within its table's shown rows (the goalies after all
/// the skaters).
pub open spec fn team_window(
    w: TeamPanelWindow,
    scroll_offset: usize,
    area_height: u16,
    skaters: usize,
    goalies: usize,
    selected_index: Option<usize>,
) -> bool {
    let avail = sat_sub(area_height as int, TEAM_PANEL_CHROME_LINES as int);
    let end = min_of(scroll_offset + avail, skaters + goalies);
    &&& w.skaters_from == min_of(scroll_offset as int, skaters as int)
    &&& w.skaters_to == min_of(end, skaters as int)
    &&& w.goalies_from == sat_sub(scroll_offset as int, skaters as int)
    &&& w.goalies_to == min_of(sat_sub(end, skaters as int), goalies as int)
    &&& w.skater_selected == row_in_window(
        selected_index,
        w.skaters_from as int,
        w.skaters_to as int,
    )
    &&& w.goalie_selected == match selected_index {
        Some(i) => if i >= skaters {
            row_in_window(Some((i - skaters) as usize), w.goalies_from as int, w.goalies_to as int)
        } else {
            None
        },
        None => None,
    }
}

impl TeamDetailPanel {
    /// The rows shown: from the scroll offset, as many as the area leaves
    /// for rows; each selection is counted within its table's shown rows
    /// (the goalies after all the skaters).
    pub fn window(
        scroll_offset: usize,
        area_height: u16,
        skaters: usize,
        goalies: usize,
        selected_index: Option<usize>,
    ) -> (w: TeamPanelWindow)
        requires
            skaters + goalies <= usize::MAX,
            scroll_offset + area_height <= usize::MAX,
        ensures
            team_window(w, scroll_offset, area_height, skaters, goalies, selected_index),
    {
        let total = skaters + goalies;
        let avail = area_height.saturating_sub(TEAM_PANEL_CHROME_LINES) as usize;
        let end = if scroll_offset + avail < total {
            scroll_offset + avail
        } else {
            total
        };
        let skaters_from = if scroll_offset < skaters {
            scroll_offset
        } else {
            skaters
        };
        let skaters_to = if end < skaters {
            end
        } else {
            skaters
        };
        let goalies_from = scroll_offset.saturating_sub(skaters);
        let after = end.saturating_sub(skaters);
        let goalies_to = if after < goalies {
            after
        } else {
            goalies
        };
        let skater_selected = selected_in_window(selected_index, skaters_from, skaters_to);
        let goalie_selected = match selected_index {
            Some(i) => match i.checked_sub(skaters) {
                Some(g) => selected_in_window(Some(g), goalies_from, goalies_to),
                None => None,
            },
            None => None,
        };
        TeamPanelWindow {
            skaters_from,
            skaters_to,
            goalies_from,
            goalies_to,
            skater_selected,
            goalie_selected,
        }
    }

    /// The line the tables start on: under the border, and under the team's
    /// name and record when its standing is known.
    pub fn tables_top(area_y: u16, has_standing: bool) -> (y: u16)
        requires
            area_y + 5 <= u16::MAX,
        ensures
            y == area_y + 1 + if has_standing {
                4int
            } else {
                0int
            },
    {
        if has_standing {
            area_y + 5
        } else {
            area_y + 1
        }
    }
}

/// The title of a team panel's border while its details are shown.
pub open spec fn team_panel_title(abbrev: Seq<char>) -> Seq<char> {
    abbrev + " - ↑↓: Navigate | Enter: View Player | ESC: Back"@
}

impl TeamDetailPanel {
    /// The frame of a team panel: while the team loads, a block titled
    /// "Team Detail" holding "Loading <abbrev> team details..."; without
    /// stats, the same block holding "No stats available for <abbrev>" (in
    /// both cases neither the standing line nor a table is drawn);
    /// otherwise the border titled "<abbrev> - ↑↓: Navigate | Enter: View
    /// Player | ESC: Back" around the details.
    pub fn frame(team_abbrev: &str, loading: bool, has_stats: bool) -> (f: PanelFrame)
        ensures
            loading ==> f.title@ == "Team Detail"@ && (f.message matches Some(m) && m@
                == "Loading "@ + team_abbrev@ + " team details..."@),
            !loading && !has_stats ==> f.title@ == "Team Detail"@ && (f.message matches Some(m)
                && m@ == "No stats available for "@ + team_abbrev@),
            !loading && has_stats ==> f.title@ == team_panel_title(team_abbrev@) && f.message
                is None,
    {
        proof {
            reveal_strlit("Team Detail");
            reveal_strlit("Loading ");
            reveal_strlit(" team details...");
            reveal_strlit("No stats available for ");
            reveal_strlit(" - ↑↓: Navigate | Enter: View Player | ESC: Back");
        }
        if loading {
            let mut m = String::from_str("Loading ");
            m.append(team_abbrev);
            m.append(" team details...");
            PanelFrame { title: String::from_str("Team Detail"), message: Some(m) }
        } else if !has_stats {
            let mut m = String::from_str("No stats available for ");
            m.append(team_abbrev);
            PanelFrame { title: String::from_str("Team Detail"), message: Some(m) }
        } else {
            let mut t = String::from_str(team_abbrev);
            t.append(" - ↑↓: Navigate | Enter: View Player | ESC: Back");
            PanelFrame { title: t, message: None }
        }
    }
}

// ---------------------------------------------------------------------------
// Player detail panel
// ---------------------------------------------------------------------------

/// Where a player panel's season table goes and which seasons it shows.
#[derive(Debug)]
pub struct PlayerPanelLayout {
    /// The table's first line, counted from the top of the area.
    pub table_top: u16,
    pub from: usize,
    pub to: usize,
    pub selected_row: Option<usize>,
}

/// The player detail panel.
#[derive(Debug)]
pub struct PlayerDetailPanel;

/// The line the season table starts on, counted from the top of the area:
/// under the border, the name, the two detail lines, the draft and the
/// career totals when known.
pub open spec fn player_table_top(has_draft: bool, has_career: bool) -> int {
    1 + 1 + 1 + 2 + (if has_draft {
        2int
    } else {
        0int
    }) + (if has_career {
        3int
    } else {
        0int
    })
}

impl PlayerDetailPanel {
    /// The seasons shown: from the scroll offset, as many as fit in the
    /// lines left under the table's top, four kept for its header and the
    /// border; the selection counted within the shown seasons.
    pub fn season_layout(
        has_draft: bool,
        has_career: bool,
        area_height: u16,
        scroll_offset: usize,
        total_seasons: usize,
        selected_index: Option<usize>,
    ) -> (l: PlayerPanelLayout)
        requires
            scroll_offset + area_height <= usize::MAX,
        ensures
            ({
                let top = player_table_top(has_draft, has_career);
                let avail = sat_sub(sat_sub(area_height as int, top), 4);
                &&& l.table_top == top
                &&& l.from == min_of(scroll_offset as int, total_seasons as int)
                &&& l.to == min_of(scroll_offset + avail, total_seasons as int)
                &&& l.from <= l.to
                &&& l.selected_row == row_in_window(selected_index, l.from as int, l.to as int)
            }),
    {
        let mut top: u16 = 5;
        if has_draft {
            top = top + 2;
        }
        if has_career {
            top = top + 3;
        }
        let avail = area_height.saturating_sub(top).saturating_sub(4) as usize;
        let from = if scroll_offset < total_seasons {
            scroll_offset
        } else {
            total_seasons
        };
        let to = if scroll_offset + avail < total_seasons {
            scroll_offset + avail
        } else {
            total_seasons
        };
        PlayerPanelLayout {
            table_top: top,
            from,
            to,
            selected_row: selected_in_window(selected_index, from, to),
        }
    }
}

/// The title of a player panel's border while its details are shown.
pub open spec fn player_panel_title(player_id: i64) -> Seq<char> {
    "Player "@ + signed_decimal(player_id as int) + " - ↑↓: Navigate | Enter: View Team | ESC: Back"@
}

impl PlayerDetailPanel {
    /// The frame of a player panel: while the player loads, a block titled
    /// "Player Detail" holding "Loading player <id> details..."; without
    /// data, the same block holding "No data available for player <id>";
    /// otherwise the border titled "Player <id> - ↑↓: Navigate | Enter: View
    /// Team | ESC: Back" around the details.
    pub fn frame(player_id: i64, loading: bool, has_data: bool) -> (f: PanelFrame)
        ensures
            loading ==> f.title@ == "Player Detail"@ && (f.message matches Some(m) && m@
                == "Loading player "@ + signed_decimal(player_id as int) + " details..."@),
            !loading && !has_data ==> f.title@ == "Player Detail"@ && (f.message matches Some(m)
                && m@ == "No data available for player "@ + signed_decimal(player_id as int)),
            !loading && has_data ==> f.title@ == player_panel_title(player_id) && f.message
                is None,
    {
        proof {
            reveal_strlit("Player Detail");
            reveal_strlit("Loading player ");
            reveal_strlit(" details...");
            reveal_strlit("No data available for player ");
            reveal_strlit("Player ");
            reveal_strlit(" - ↑↓: Navigate | Enter: View Team | ESC: Back");
        }
        if loading {
            let mut m = String::from_str("Loading player ");
            push_signed_decimal(&mut m, player_id);
            m.append(" details...");
            PanelFrame { title: String::from_str("Player Detail"), message: Some(m) }
        } else if !has_data {
            let mut m = String::from_str("No data available for player ");
            push_signed_decimal(&mut m, player_id);
            PanelFrame { title: String::from_str("Player Detail"), message: Some(m) }
        } else {
            let mut t = String::from_str("Player ");
            push_signed_decimal(&mut t, player_id);
            t.append(" - ↑↓: Navigate | Enter: View Team | ESC: Back");
            PanelFrame { title: t, message: None }
        }
    }
}

/// What a player panel shows of a loaded player: the border's title, where
/// the season table goes and which seasons it shows, and the table itself
/// when the player has NHL regular seasons.
#[derive(Debug)]
pub struct PlayerPanelBody {
    pub title: String,
    /// The player's name, in bold on the first line.
    pub name: String,
    /// Team, number, position and hand.
    pub details: String,
    /// Height, weight and birth date.
    pub size: String,
    /// The draft, when known.
    pub draft: Option<String>,
    /// The career totals' line, under the heading "CAREER TOTALS - Regular
    /// Season", when known.
    pub career: Option<String>,
    pub layout: PlayerPanelLayout,
    pub seasons_table: Option<TableWidget>,
}

/// The width of the season column in a player panel (the document's table
/// is one column wider).
pub const PANEL_SEASON_WIDTH: usize = 8;

/// The seasons `from .. to`, in their order.
fn season_window(rows: &Vec<SeasonRow>, from: usize, to: usize) -> (w: Vec<SeasonRow>)
    requires
        from <= to <= rows@.len(),
    ensures
        w@ == rows@.subrange(from as int, to as int),
{
    let mut w: Vec<SeasonRow> = Vec::new();
    let mut i: usize = from;
    while i < to
        invariant
            from <= i <= to,
            to <= rows@.len(),
            w@ == rows@.subrange(from as int, i as int),
        decreases to - i,
    {
        w.push(rows[i].clone());
        assert(rows@.subrange(from as int, i + 1) =~= rows@.subrange(from as int, i as int).push(
            rows@[i as int],
        ));
        i = i + 1;
    }
    w
}

impl PlayerDetailPanel {
    /// The body of a player panel once the player is loaded: the border
    /// titled "Player <id> - ↑↓: Navigate | Enter: View Team | ESC: Back";
    /// the player's name, details and size lines, the draft line and the
    /// career totals when known; when the player has NHL regular seasons,
    /// the table headed "SEASON BY SEASON (<n> NHL seasons)" with the
    /// window of those seasons, latest first, that fits under the details
    /// (other leagues and game types left out), its season column eight
    /// wide, indented by two columns, the selected season's row focused; no
    /// table otherwise.
    pub fn body(
        p: &PlayerInfo,
        player_id: i64,
        area_height: u16,
        scroll_offset: usize,
        selected_index: Option<usize>,
    ) -> (b: PlayerPanelBody)
        requires
            player_ok(*p),
            scroll_offset + area_height <= usize::MAX,
        ensures
            b.title@ == player_panel_title(player_id),
            b.name@ == full_name(*p),
            b.details@ == details_line(*p),
            b.size@ == size_line(*p),
            match p.draft {
                Some(d) => b.draft matches Some(t) && t@ == draft_line(d),
                None => b.draft is None,
            },
            match p.career {
                Some(c) => b.career matches Some(t) && t@ == career_line(c, p.is_goalie),
                None => b.career is None,
            },
            ({
                let seasons = shown_seasons(*p);
                let top = player_table_top(p.draft is Some, p.career is Some);
                let avail = sat_sub(sat_sub(area_height as int, top), 4);
                let l = b.layout;
                &&& l.table_top == top
                &&& l.from == min_of(scroll_offset as int, seasons.len() as int)
                &&& l.to == min_of(scroll_offset + avail, seasons.len() as int)
                &&& l.from <= l.to
                &&& l.selected_row == row_in_window(selected_index, l.from as int, l.to as int)
                &&& (seasons.len() == 0 ==> b.seasons_table is None)
                &&& (seasons.len() > 0 ==> (b.seasons_table matches Some(t) && (t@.header matches Some(
                    h,
                ) && h@ == seasons_title(seasons.len())) && t@.margin == 2 && t@.focused_row
                    == l.selected_row && t@.widths[0] == PANEL_SEASON_WIDTH && season_table(
                    TableView { header: None, margin: 0, widths: t@.widths.update(0, 9), ..t@ },
                    seasons.subrange(l.from as int, l.to as int),
                    p.is_goalie,
                )))
            }),
    {
        let seasons = get_nhl_regular_seasons(p);
        proof {
            lemma_shown_seasons_ok(*p);
        }
        let layout = Self::season_layout(
            p.draft.is_some(),
            p.career.is_some(),
            area_height,
            scroll_offset,
            seasons.len(),
            selected_index,
        );
        let title = Self::frame(player_id, false, true).title;
        let name = player_full_name(p);
        let details = player_details_line(p);
        let size = player_size_line(p);
        let draft = match &p.draft {
            Some(d) => Some(player_draft_line(d)),
            None => None,
        };
        let career = match &p.career {
            Some(c) => Some(format_career_stats(c, p.is_goalie)),
            None => None,
        };
        if seasons.len() == 0 {
            return PlayerPanelBody {
                title,
                name,
                details,
                size,
                draft,
                career,
                layout,
                seasons_table: None,
            };
        }
        let window = season_window(&seasons, layout.from, layout.to);
        assert forall|i: int| 0 <= i < window@.len() implies (#[trigger] window@[i]).season
            >= 10_000_000 by {
            assert(window@[i] == seasons@[layout.from + i]);
        }
        let mut header = String::from_str("SEASON BY SEASON (");
        push_decimal(&mut header, seasons.len() as u64);
        header.append(" NHL seasons)");
        proof {
            reveal_strlit("SEASON BY SEASON (");
            reveal_strlit(" NHL seasons)");
        }
        let table = create_season_table(&window, p.is_goalie, layout.selected_row);
        let ghost plain = table@;
        assert(plain.headers[0]@ == season_column(0).0);
        let table = table.with_header(header.as_str()).with_margin(2).with_column_width(
            0,
            PANEL_SEASON_WIDTH,
        );
        assert(plain.widths[0] == season_column(0).1);
        assert(table@.widths == plain.widths.update(0, PANEL_SEASON_WIDTH));
        assert(table@.widths.len() == table@.headers.len());
        assert(table@.widths.update(0, 9) =~= plain.widths);
        assert(TableView { header: None, margin: 0, widths: table@.widths.update(0, 9), ..table@ }
            == plain);
        PlayerPanelBody {
            title,
            name,
            details,
            size,
            draft,
            career,
            layout,
            seasons_table: Some(table),
        }
    }
}

/// What a team panel shows of a team whose stats are loaded: the border's
/// title, the team's name and record when its standing is known, the rows
/// shown, and a table for the skaters and one for the goalies when any of
/// their rows is shown.
#[derive(Debug)]
pub struct TeamPanelBody {
    pub title: String,
    pub heading: Option<String>,
    pub record: Option<String>,
    pub window: TeamPanelWindow,
    pub skaters_table: Option<TableWidget>,
    pub goalies_table: Option<TableWidget>,
}

/// The skaters `from .. to`, in their order.
fn skater_window(rows: &Vec<ClubSkaterRow>, from: usize, to: usize) -> (w: Vec<ClubSkaterRow>)
    requires
        from <= to <= rows@.len(),
    ensures
        w@ == rows@.subrange(from as int, to as int),
{
    let mut w: Vec<ClubSkaterRow> = Vec::new();
    let mut i: usize = from;
    while i < to
        invariant
            from <= i <= to,
            to <= rows@.len(),
            w@ == rows@.subrange(from as int, i as int),
        decreases to - i,
    {
        w.push(rows[i].clone());
        assert(rows@.subrange(from as int, i + 1) =~= rows@.subrange(from as int, i as int).push(
            rows@[i as int],
        ));
        i = i + 1;
    }
    w
}

/// The goalies `from .. to`, in their order.
fn goalie_window(rows: &Vec<ClubGoalieRow>, from: usize, to: usize) -> (w: Vec<ClubGoalieRow>)
    requires
        from <= to <= rows@.len(),
    ensures
        w@ == rows@.subrange(from as int, to as int),
{
    let mut w: Vec<ClubGoalieRow> = Vec::new();
    let mut i: usize = from;
    while i < to
        invariant
            from <= i <= to,
            to <= rows@.len(),
            w@ == rows@.subrange(from as int, i as int),
        decreases to - i,
    {
        w.push(rows[i].clone());
        assert(rows@.subrange(from as int, i + 1) =~= rows@.subrange(from as int, i as int).push(
            rows@[i as int],
        ));
        i = i + 1;
    }
    w
}

impl TeamDetailPanel {
    /// The body of a team panel once its stats are loaded: the border
    /// titled "<abbrev> - ↑↓: Navigate | Enter: View Player | ESC: Back";
    /// when the standing is known, the line "<place> <common name>" and the
    /// line "Record: W-L-OTL (P pts) | Division: D | Conference: C"; the
    /// skaters by points then the goalies by games played, as one list
    /// scrolled by the offset, of which the rows that fit are shown: the
    /// skaters in a table headed "SKATERS (<n>) - Regular Season" and the
    /// goalies in one headed "GOALIES (<n>) - Regular Season", each
    /// indented by two columns with its selected row focused, and each left
    /// out when none of its rows is shown.
    pub fn body(
        team_abbrev: &str,
        standing: &Option<TeamStanding>,
        stats: &ClubStatsRows,
        area_height: u16,
        scroll_offset: usize,
        selected_index: Option<usize>,
    ) -> (b: TeamPanelBody)
        requires
            stats.skaters@.len() + stats.goalies@.len() <= usize::MAX,
            scroll_offset + area_height <= usize::MAX,
        ensures
            b.title@ == team_panel_title(team_abbrev@),
            match *standing {
                Some(st) => (b.heading matches Some(h) && h@ == team_heading(st)) && (
                b.record matches Some(r) && r@ == record_line(st)),
                None => b.heading is None && b.record is None,
            },
            team_window(
                b.window,
                scroll_offset,
                area_height,
                stats.skaters@.len() as usize,
                stats.goalies@.len() as usize,
                selected_index,
            ),
            ({
                let w = b.window;
                let sk = skaters_by_points(stats.skaters@);
                &&& (w.skaters_to <= w.skaters_from ==> b.skaters_table is None)
                &&& (w.skaters_from < w.skaters_to ==> (b.skaters_table matches Some(t) && (
                t@.header matches Some(h) && h@ == roster_header(
                    "SKATERS"@,
                    stats.skaters@.len(),
                )) && t@.margin == 2 && t@.focused_row == w.skater_selected && club_skater_table(
                    t@,
                    sk.subrange(w.skaters_from as int, w.skaters_to as int),
                )))
            }),
            ({
                let w = b.window;
                let gs = goalies_by_games(stats.goalies@);
                &&& (w.goalies_to <= w.goalies_from ==> b.goalies_table is None)
                &&& (w.goalies_from < w.goalies_to ==> (b.goalies_table matches Some(t) && (
                t@.header matches Some(h) && h@ == roster_header(
                    "GOALIES"@,
                    stats.goalies@.len(),
                )) && t@.margin == 2 && t@.focused_row == w.goalie_selected && club_goalie_table(
                    t@,
                    gs.subrange(w.goalies_from as int, w.goalies_to as int),
                )))
            }),
    {
        proof {
            lemma_skaters_by_points_sorted(stats.skaters@);
            lemma_goalies_by_games_sorted(stats.goalies@);
            reveal_strlit("SKATERS");
            reveal_strlit("GOALIES");
        }
        let title = Self::frame(team_abbrev, false, true).title;
        let (heading, record) = match standing {
            Some(st) => {
                let mut h = String::from_str(st.team_name.as_str());
                h.append(" ");
                h.append(st.team_common_name.as_str());
                (Some(h), Some(format_record(st)))
            },
            None => (None, None),
        };
        let skaters = sort_skaters_by_points(&stats.skaters);
        let goalies = sort_goalies_by_games(&stats.goalies);
        let window = Self::window(
            scroll_offset,
            area_height,
            skaters.len(),
            goalies.len(),
            selected_index,
        );
        let skaters_table = if window.skaters_from < window.skaters_to {
            let rows = skater_window(&skaters, window.skaters_from, window.skaters_to);
            let header = format_roster_header("SKATERS", stats.skaters.len());
            Some(
                create_club_skater_table(&rows).with_header(header.as_str()).with_focused_row(
                    window.skater_selected,
                ).with_margin(2),
            )
        } else {
            None
        };
        let goalies_table = if window.goalies_from < window.goalies_to {
            let rows = goalie_window(&goalies, window.goalies_from, window.goalies_to);
            let header = format_roster_header("GOALIES", stats.goalies.len());
            Some(
                create_club_goalie_table(&rows).with_header(header.as_str()).with_focused_row(
                    window.goalie_selected,
                ).with_margin(2),
            )
        } else {
            None
        };
        TeamPanelBody { title, heading, record, window, skaters_table, goalies_table }
    }
}

/// The table of a drawn boxscore section: skaters (forwards or defense)
/// or goalies.
#[derive(Debug)]
pub enum SectionTable {
    Skaters(SkaterStatsTableWidget),
    Goalies(GoalieStatsTableWidget),
}

/// The name of a kind of section.
pub open spec fn section_kind_name(kind: SectionKind) -> Seq<char> {
    match kind {
        SectionKind::Forwards => "Forwards"@,
        SectionKind::Defense => "Defense"@,
        SectionKind::Goalies => "Goalies"@,
    }
}

/// The title of a section: "<abbrev> <label> - Forwards" (or Defense, or
/// Goalies), the label saying which team it is ("Away", "Home").
pub open spec fn section_title(abbrev: Seq<char>, label: Seq<char>, kind: SectionKind) -> Seq<char> {
    abbrev + " "@ + label + " - "@ + section_kind_name(kind)
}

/// Whether `t` is the table of a section of `kind`: the game statistics of
/// the team's players of that kind, in their order, titled by the section's
/// title, with no selection and no focus.
pub open spec fn is_section_table(
    t: SectionTable,
    kind: SectionKind,
    title: Seq<char>,
    forwards: Seq<SkaterRow>,
    defense: Seq<SkaterRow>,
    goalies: Seq<GoalieRow>,
) -> bool {
    match kind {
        SectionKind::Goalies => t matches SectionTable::Goalies(w) && (w@.header matches Some(h)
            && h@ == title) && goalie_table(TableView { header: None, ..w@ }, goalies),
        _ => t matches SectionTable::Skaters(w) && (w@.table.header matches Some(h) && h@ == title)
            && skater_table(
            TableView { header: None, ..w@.table },
            if kind == SectionKind::Forwards {
                forwards
            } else {
                defense
            },
        ) && w@.selected_row is None && w@.selected_col is None && !w@.focused,
    }
}

/// A section's table for a kind of skaters.
fn skater_section(rows: Vec<SkaterRow>, abbrev: &str, label: &str, kind_name: &str) -> (t:
    SectionTable)
    ensures
        t matches SectionTable::Skaters(w) && (w@.table.header matches Some(h) && h@ == abbrev@
            + " "@ + label@ + " - "@ + kind_name@) && skater_table(
            TableView { header: None, ..w@.table },
            rows@,
        ) && w@.selected_row is None && w@.selected_col is None && !w@.focused,
{
    let mut title = String::from_str(abbrev);
    title.append(" ");
    title.append(label);
    title.append(" - ");
    title.append(kind_name);
    let w = SkaterStatsTableWidget::from_game_stats(rows).with_header(title.as_str());
    SectionTable::Skaters(w)
}

impl BoxscorePanel {
    /// The sections of a team's column: where they go (sized by the larger
    /// counts of either team, as `team_stats_layout` says), and for each
    /// drawn section, in the same order, its table: the forwards or the
    /// defense in a skater table, the goalies in a goalie table, each
    /// titled "<abbrev> <label> - Forwards" (or Defense, or Goalies).
    pub fn team_stats_sections(
        forwards: Vec<SkaterRow>,
        defense: Vec<SkaterRow>,
        goalies: Vec<GoalieRow>,
        team_abbrev: &str,
        label: &str,
        max_forwards: usize,
        max_defense: usize,
        max_goalies: usize,
    ) -> (r: (TeamStatsLayout, Vec<SectionTable>))
        requires
            max_forwards + SECTION_CHROME_LINES <= usize::MAX,
            max_defense + SECTION_CHROME_LINES <= usize::MAX,
            max_goalies + SECTION_CHROME_LINES <= usize::MAX,
        ensures
            r.0.constraints@ == section_heights(max_forwards, max_defense, max_goalies),
            r.0.sections@ == drawn_sections(
                forwards@.len() as usize,
                defense@.len() as usize,
                goalies@.len() as usize,
                max_forwards,
                max_defense,
                max_goalies,
            ),
            r.1@.len() == r.0.sections@.len(),
            forall|i: int|
                0 <= i < r.1@.len() ==> is_section_table(
                    #[trigger] r.1@[i],
                    r.0.sections@[i].kind,
                    section_title(team_abbrev@, label@, r.0.sections@[i].kind),
                    forwards@,
                    defense@,
                    goalies@,
                ),
    {
        proof {
            reveal_strlit("Forwards");
            reveal_strlit("Defense");
            reveal_strlit("Goalies");
            reveal_strlit(" ");
            reveal_strlit(" - ");
        }
        let ghost fv = forwards@;
        let ghost dv = defense@;
        let ghost gv = goalies@;
        let nf = forwards.len();
        let nd = defense.len();
        let ng = goalies.len();
        let layout = Self::team_stats_layout(nf, nd, ng, max_forwards, max_defense, max_goalies);
        let ghost want = drawn_sections(nf, nd, ng, max_forwards, max_defense, max_goalies);
        let mut tables: Vec<SectionTable> = Vec::new();
        let ghost mut kinds: Seq<SectionKind> = Seq::empty();
        if max_forwards > 0 && nf > 0 {
            tables.push(skater_section(forwards, team_abbrev, label, "Forwards"));
            proof {
                kinds = kinds.push(SectionKind::Forwards);
                assert(tables@.len() == kinds.len());
                assert forall|j: int| 0 <= j < tables@.len() implies is_section_table(
                    #[trigger] tables@[j],
                    kinds[j],
                    section_title(team_abbrev@, label@, kinds[j]),
                    fv,
                    dv,
                    gv,
                ) by {}
            }
        }
        if max_defense > 0 && nd > 0 {
            tables.push(skater_section(defense, team_abbrev, label, "Defense"));
            proof {
                kinds = kinds.push(SectionKind::Defense);
                assert(tables@.len() == kinds.len());
                assert forall|j: int| 0 <= j < tables@.len() implies is_section_table(
                    #[trigger] tables@[j],
                    kinds[j],
                    section_title(team_abbrev@, label@, kinds[j]),
                    fv,
                    dv,
                    gv,
                ) by {}
            }
        }
        if max_goalies > 0 && ng > 0 {
            let mut title = String::from_str(team_abbrev);
            title.append(" ");
            title.append(label);
            title.append(" - Goalies");
            proof {
                reveal_strlit(" - Goalies");
                assert(" - Goalies"@ =~= " - "@ + "Goalies"@);
                assert(title@ =~= section_title(team_abbrev@, label@, SectionKind::Goalies));
            }
            let w = GoalieStatsTableWidget::from_game_stats(goalies).with_header(title.as_str());
            tables.push(SectionTable::Goalies(w));
            proof {
                kinds = kinds.push(SectionKind::Goalies);
                assert(tables@.len() == kinds.len());
                assert forall|j: int| 0 <= j < tables@.len() implies is_section_table(
                    #[trigger] tables@[j],
                    kinds[j],
                    section_title(team_abbrev@, label@, kinds[j]),
                    fv,
                    dv,
                    gv,
                ) by {}
            }
        }
        proof {
            assert(tables@.len() == kinds.len());
            assert(kinds.len() == want.len());
            assert forall|i: int| 0 <= i < tables@.len() implies is_section_table(
                #[trigger] tables@[i],
                layout.sections@[i].kind,
                section_title(team_abbrev@, label@, layout.sections@[i].kind),
                fv,
                dv,
                gv,
            ) by {
                assert(layout.sections@[i].kind == kinds[i]);
            }
        }
        (layout, tables)
    }
}

} // verus!
