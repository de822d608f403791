//! A player's details: the lines that describe the player, the career
//! totals, the season-by-season table, and the document and panel that
//! show them.

use vstd::prelude::*;

use crate::builder::DocumentBuilder;
use crate::demo_tab::{is_heading, is_text};
use crate::document::{Document, FocusContext, focused_row_of};
use crate::elements::{DocumentElement, table_focus, views};
use crate::standings::MAX_TABLE_ROWS;
use crate::stats_tables::{CellKey, cell_key};
use crate::table::{Alignment, CellValue, TableView, TableWidget, table_shape};
use crate::text::{decimal, i64_to_string, push_signed_decimal, signed_decimal, u64_to_string};

verus! {

/// A player's draft.
#[derive(Debug)]
pub struct DraftInfo {
    pub year: i32,
    pub team_abbrev: String,
    pub round: i32,
    pub pick_in_round: i32,
    pub overall_pick: i32,
}

/// A player's regular season career totals. The goalie averages are kept
/// as the text shown ("2.50", "0.915").
#[derive(Debug)]
pub struct CareerStats {
    pub games_played: Option<i32>,
    pub goals: Option<i32>,
    pub assists: Option<i32>,
    pub points: Option<i32>,
    pub plus_minus: Option<i32>,
    pub pim: Option<i32>,
    pub wins: Option<i32>,
    pub losses: Option<i32>,
    pub ot_losses: Option<i32>,
    pub shutouts: Option<i32>,
    pub goals_against_avg: String,
    pub save_pctg: String,
}

/// One season of a player with one team.
#[derive(Debug)]
pub struct SeasonRow {
    /// The season, as in 20232024.
    pub season: u32,
    /// Whether these are regular season games.
    pub regular_season: bool,
    pub league_abbrev: String,
    pub team_name: String,
    /// The team's abbreviation, when its common name is a known team.
    pub team_abbrev: Option<String>,
    pub games_played: i32,
    pub goals: Option<i32>,
    pub assists: Option<i32>,
    pub points: Option<i32>,
    pub plus_minus: Option<i32>,
    pub pim: Option<i32>,
}

impl Clone for SeasonRow {
    fn clone(&self) -> (res: Self)
        ensures
            res == *self,
    {
        SeasonRow {
            season: self.season,
            regular_season: self.regular_season,
            league_abbrev: self.league_abbrev.clone(),
            team_name: self.team_name.clone(),
            team_abbrev: match &self.team_abbrev {
                Some(t) => Some(t.clone()),
                None => None,
            },
            games_played: self.games_played,
            goals: self.goals,
            assists: self.assists,
            points: self.points,
            plus_minus: self.plus_minus,
            pim: self.pim,
        }
    }
}

/// What is known of a player.
#[derive(Debug)]
pub struct PlayerInfo {
    pub player_id: i64,
    pub first_name: String,
    pub last_name: String,
    pub current_team_abbrev: Option<String>,
    pub sweater_number: Option<i32>,
    /// The position's code ("C", "D", "G").
    pub position: String,
    pub is_goalie: bool,
    /// The hand's code ("L", "R").
    pub shoots_catches: String,
    pub height_in_inches: i32,
    pub weight_in_pounds: i32,
    pub birth_date: String,
    pub draft: Option<DraftInfo>,
    pub career: Option<CareerStats>,
    pub seasons: Option<Vec<SeasonRow>>,
}

// ---------------------------------------------------------------------------
// Lines of text
// ---------------------------------------------------------------------------

/// A number as shown, or 0 when missing.
pub open spec fn or_zero(n: Option<i32>) -> Seq<char> {
    match n {
        Some(v) => signed_decimal(v as int),
        None => "0"@,
    }
}

/// Appends a number, or 0 when missing.
fn push_or_zero(s: &mut String, n: Option<i32>)
    ensures
        final(s)@ == old(s)@ + or_zero(n),
{
    let v: i32 = match n {
        Some(v) => v,
        None => 0,
    };
    push_signed_decimal(s, v as i64);
    proof {
        if n is None {
            assert(signed_decimal(0) =~= "0"@) by {
                reveal_strlit("0");
            }
        }
    }
}

/// "<first> <last>".
pub open spec fn full_name(p: PlayerInfo) -> Seq<char> {
    p.first_name@ + " "@ + p.last_name@
}

/// The player's name.
pub fn player_full_name(p: &PlayerInfo) -> (s: String)
    ensures
        s@ == full_name(*p),
{
    let mut s = p.first_name.clone();
    s.append(" ");
    s.append(p.last_name.as_str());
    s
}

/// The team, number, position and hand of a player: "Team: TOR | #34 | C |
/// L/Shoots" (the team and the number only when known; goalies catch).
pub open spec fn details_line(p: PlayerInfo) -> Seq<char> {
    let team = match p.current_team_abbrev {
        Some(t) => "Team: "@ + t@ + " | "@,
        None => Seq::empty(),
    };
    let number = match p.sweater_number {
        Some(n) => "#"@ + signed_decimal(n as int) + " | "@,
        None => Seq::empty(),
    };
    let hand = if p.is_goalie {
        "Catches"@
    } else {
        "Shoots"@
    };
    team + number + p.position@ + " | "@ + p.shoots_catches@ + "/"@ + hand
}

/// The team, number, position and hand of a player.
pub fn player_details_line(p: &PlayerInfo) -> (s: String)
    ensures
        s@ == details_line(*p),
{
    let mut s = String::new();
    match &p.current_team_abbrev {
        Some(t) => {
            s.append("Team: ");
            s.append(t.as_str());
            s.append(" | ");
        },
        None => {},
    }
    match p.sweater_number {
        Some(n) => {
            s.append("#");
            push_signed_decimal(&mut s, n as i64);
            s.append(" | ");
        },
        None => {},
    }
    s.append(p.position.as_str());
    s.append(" | ");
    s.append(p.shoots_catches.as_str());
    s.append("/");
    if p.is_goalie {
        s.append("Catches");
    } else {
        s.append("Shoots");
    }
    assert(s@ =~= details_line(*p));
    s
}

/// Division truncated toward zero.
pub open spec fn trunc_div(a: int, b: int) -> int {
    if a >= 0 {
        a / b
    } else {
        -((-a) / b)
    }
}

/// Remainder of the division truncated toward zero.
pub open spec fn trunc_rem(a: int, b: int) -> int {
    if a >= 0 {
        a % b
    } else {
        -((-a) % b)
    }
}

/// Height, weight and birth date: "Height: 6'1" | Weight: 200 lbs | Born:
/// 1997-09-15".
pub open spec fn size_line(p: PlayerInfo) -> Seq<char> {
    "Height: "@ + signed_decimal(trunc_div(p.height_in_inches as int, 12)) + "'"@ + signed_decimal(
        trunc_rem(p.height_in_inches as int, 12),
    ) + "\" | Weight: "@ + signed_decimal(p.weight_in_pounds as int) + " lbs | Born: "@
        + p.birth_date@
}

/// Height, weight and birth date.
pub fn player_size_line(p: &PlayerInfo) -> (s: String)
    ensures
        s@ == size_line(*p),
{
    let h = p.height_in_inches as i64;
    let (feet, inches): (i64, i64) = if h >= 0 {
        (h / 12, h % 12)
    } else {
        (0 - ((0 - h) / 12), 0 - ((0 - h) % 12))
    };
    let mut s = String::from_str("Height: ");
    push_signed_decimal(&mut s, feet);
    s.append("'");
    push_signed_decimal(&mut s, inches);
    s.append("\" | Weight: ");
    push_signed_decimal(&mut s, p.weight_in_pounds as i64);
    s.append(" lbs | Born: ");
    s.append(p.birth_date.as_str());
    proof {
        assert(feet == trunc_div(p.height_in_inches as int, 12));
        assert(inches == trunc_rem(p.height_in_inches as int, 12));
        assert(s@ =~= size_line(*p));
    }
    s
}

/// The draft: "Draft: 2016 - Round 1, Pick 1 (#1 overall) by TOR".
pub open spec fn draft_line(d: DraftInfo) -> Seq<char> {
    "Draft: "@ + signed_decimal(d.year as int) + " - Round "@ + signed_decimal(d.round as int)
        + ", Pick "@ + signed_decimal(d.pick_in_round as int) + " (#"@ + signed_decimal(
        d.overall_pick as int,
    ) + " overall) by "@ + d.team_abbrev@
}

/// The draft line.
pub fn player_draft_line(d: &DraftInfo) -> (s: String)
    ensures
        s@ == draft_line(*d),
{
    let mut s = String::from_str("Draft: ");
    push_signed_decimal(&mut s, d.year as i64);
    s.append(" - Round ");
    push_signed_decimal(&mut s, d.round as i64);
    s.append(", Pick ");
    push_signed_decimal(&mut s, d.pick_in_round as i64);
    s.append(" (#");
    push_signed_decimal(&mut s, d.overall_pick as i64);
    s.append(" overall) by ");
    s.append(d.team_abbrev.as_str());
    assert(s@ =~= draft_line(*d));
    s
}

/// The career totals of a goalie ("GP: 500 | W: 300 | L: 150 | OTL: 50 |
/// GAA: 2.50 | SV%: 0.915 | SO: 40") or of a skater ("GP: 82 | G: 40 |
/// A: 50 | PTS: 90 | +/-: 10 | PIM: 20"); a missing number shows 0.
pub open spec fn career_line(c: CareerStats, is_goalie: bool) -> Seq<char> {
    if is_goalie {
        "GP: "@ + or_zero(c.games_played) + " | W: "@ + or_zero(c.wins) + " | L: "@ + or_zero(
            c.losses,
        ) + " | OTL: "@ + or_zero(c.ot_losses) + " | GAA: "@ + c.goals_against_avg@
            + " | SV%: "@ + c.save_pctg@ + " | SO: "@ + or_zero(c.shutouts)
    } else {
        "GP: "@ + or_zero(c.games_played) + " | G: "@ + or_zero(c.goals) + " | A: "@ + or_zero(
            c.assists,
        ) + " | PTS: "@ + or_zero(c.points) + " | +/-: "@ + or_zero(c.plus_minus) + " | PIM: "@
            + or_zero(c.pim)
    }
}

/// The career totals line.
pub fn format_career_stats(c: &CareerStats, is_goalie: bool) -> (s: String)
    ensures
        s@ == career_line(*c, is_goalie),
{
    let mut s = String::from_str("GP: ");
    push_or_zero(&mut s, c.games_played);
    if is_goalie {
        s.append(" | W: ");
        push_or_zero(&mut s, c.wins);
        s.append(" | L: ");
        push_or_zero(&mut s, c.losses);
        s.append(" | OTL: ");
        push_or_zero(&mut s, c.ot_losses);
        s.append(" | GAA: ");
        s.append(c.goals_against_avg.as_str());
        s.append(" | SV%: ");
        s.append(c.save_pctg.as_str());
        s.append(" | SO: ");
        push_or_zero(&mut s, c.shutouts);
    } else {
        s.append(" | G: ");
        push_or_zero(&mut s, c.goals);
        s.append(" | A: ");
        push_or_zero(&mut s, c.assists);
        s.append(" | PTS: ");
        push_or_zero(&mut s, c.points);
        s.append(" | +/-: ");
        push_or_zero(&mut s, c.plus_minus);
        s.append(" | PIM: ");
        push_or_zero(&mut s, c.pim);
    }
    assert(s@ =~= career_line(*c, is_goalie));
    s
}

// ---------------------------------------------------------------------------
// Seasons
// ---------------------------------------------------------------------------

/// Whether a season counts: regular season games in the NHL.
pub open spec fn nhl_regular(r: SeasonRow) -> bool {
    r.regular_season && r.league_abbrev@ == "NHL"@
}

/// The NHL regular seasons, in their order.
pub open spec fn nhl_regular_seasons(s: Seq<SeasonRow>) -> Seq<SeasonRow>
    decreases s.len(),
{
    if s.len() == 0 {
        s
    } else if nhl_regular(s.last()) {
        nhl_regular_seasons(s.drop_last()).push(s.last())
    } else {
        nhl_regular_seasons(s.drop_last())
    }
}

/// The first position in `s` whose season is earlier than `season`.
pub open spec fn first_earlier(s: Seq<SeasonRow>, season: u32) -> int
    decreases s.len(),
{
    if s.len() == 0 {
        0
    } else if s[0].season < season {
        0
    } else {
        1 + first_earlier(s.drop_first(), season)
    }
}

/// The seasons latest first; seasons with the same year keep their order.
pub open spec fn latest_first(s: Seq<SeasonRow>) -> Seq<SeasonRow>
    decreases s.len(),
{
    if s.len() == 0 {
        s
    } else {
        let rest = latest_first(s.drop_last());
        rest.insert(first_earlier(rest, s.last().season), s.last())
    }
}

/// `first_earlier` is the position found by a scan from the front.
proof fn lemma_first_earlier(s: Seq<SeasonRow>, season: u32, k: int)
    requires
        0 <= k <= s.len(),
        forall|j: int| 0 <= j < k ==> (#[trigger] s[j]).season >= season,
        k == s.len() || s[k].season < season,
    ensures
        first_earlier(s, season) == k,
    decreases k,
{
    if k > 0 {
        lemma_first_earlier(s.drop_first(), season, k - 1);
    }
}

/// `first_earlier` lies within the sequence, after every season at least
/// as late and before the first earlier one.
proof fn lemma_first_earlier_bounds(s: Seq<SeasonRow>, season: u32)
    ensures
        0 <= first_earlier(s, season) <= s.len(),
        forall|j: int| 0 <= j < first_earlier(s, season) ==> (#[trigger] s[j]).season >= season,
        first_earlier(s, season) < s.len() ==> s[first_earlier(s, season)].season < season,
    decreases s.len(),
{
    if s.len() > 0 && s[0].season >= season {
        lemma_first_earlier_bounds(s.drop_first(), season);
        assert forall|j: int| 0 <= j < first_earlier(s, season) implies (#[trigger] s[j]).season
            >= season by {
            if j > 0 {
                assert(s[j] == s.drop_first()[j - 1]);
            }
        }
    }
}

/// Ordering latest first gives the same seasons, latest first.
pub proof fn lemma_latest_first_sorted(s: Seq<SeasonRow>)
    ensures
        forall|i: int, j: int|
            0 <= i <= j < latest_first(s).len() ==> latest_first(s)[i].season
                >= latest_first(s)[j].season,
        latest_first(s).to_multiset() == s.to_multiset(),
        latest_first(s).len() == s.len(),
    decreases s.len(),
{
    broadcast use vstd::seq_lib::group_to_multiset_ensures;

    if s.len() > 0 {
        let rest = latest_first(s.drop_last());
        let x = s.last();
        lemma_latest_first_sorted(s.drop_last());
        lemma_first_earlier_bounds(rest, x.season);
        let k = first_earlier(rest, x.season);
        vstd::seq_lib::to_multiset_insert(rest, k, x);
        assert(s.drop_last().push(x) =~= s);
        let r = rest.insert(k, x);
        assert forall|i: int, j: int| 0 <= i <= j < r.len() implies r[i].season >= r[j].season by {
            if i < k && j < k {
            } else if i < k && j == k {
            } else if i < k && j > k {
                assert(r[j] == rest[j - 1]);
            } else if i == k && j > k {
                assert(r[j] == rest[j - 1]);
            } else if i > k {
                assert(r[i] == rest[i - 1]);
                assert(r[j] == rest[j - 1]);
            }
        }
    }
}

/// The seasons shown: the NHL regular seasons, latest first.
pub open spec fn shown_seasons(p: PlayerInfo) -> Seq<SeasonRow> {
    match p.seasons {
        Some(v) => latest_first(nhl_regular_seasons(v@)),
        None => Seq::empty(),
    }
}

/// The NHL regular seasons, in their order.
fn filter_nhl_regular(seasons: &Vec<SeasonRow>) -> (r: Vec<SeasonRow>)
    ensures
        r@ == nhl_regular_seasons(seasons@),
{
    let mut out: Vec<SeasonRow> = Vec::new();
    let n = seasons.len();
    let mut i: usize = 0;
    proof {
        reveal_strlit("NHL");
    }
    while i < n
        invariant
            i <= n,
            n == seasons@.len(),
            out@ == nhl_regular_seasons(seasons@.take(i as int)),
        decreases n - i,
    {
        proof {
            assert(seasons@.take(i + 1).drop_last() =~= seasons@.take(i as int));
        }
        if seasons[i].regular_season && crate::text::str_eq(
            seasons[i].league_abbrev.as_str(),
            "NHL",
        ) {
            out.push(seasons[i].clone());
        }
        i = i + 1;
    }
    assert(seasons@.take(n as int) =~= seasons@);
    out
}

/// The seasons latest first; seasons with the same year keep their order.
fn sort_latest_first(seasons: Vec<SeasonRow>) -> (r: Vec<SeasonRow>)
    ensures
        r@ == latest_first(seasons@),
{
    let mut out: Vec<SeasonRow> = Vec::new();
    let n = seasons.len();
    let mut i: usize = 0;
    while i < n
        invariant
            i <= n,
            n == seasons@.len(),
            out@ == latest_first(seasons@.take(i as int)),
        decreases n - i,
    {
        let x = seasons[i].clone();
        let season = x.season;
        let m = out.len();
        let mut k: usize = 0;
        while k < m && out[k].season >= season
            invariant
                k <= m,
                m == out@.len(),
                forall|j: int| 0 <= j < k ==> (#[trigger] out@[j]).season >= season,
            decreases m - k,
        {
            k = k + 1;
        }
        proof {
            lemma_first_earlier(out@, season, k as int);
            assert(seasons@.take(i + 1).drop_last() =~= seasons@.take(i as int));
        }
        out.insert(k, x);
        i = i + 1;
    }
    assert(seasons@.take(n as int) =~= seasons@);
    out
}

/// The player's NHL regular seasons, latest first.
pub fn get_nhl_regular_seasons(p: &PlayerInfo) -> (r: Vec<SeasonRow>)
    ensures
        r@ == shown_seasons(*p),
{
    match &p.seasons {
        Some(v) => sort_latest_first(filter_nhl_regular(v)),
        None => Vec::new(),
    }
}

/// A season as shown: "2023-2024" for 20232024 (the first four digits, a
/// dash, the next four).
pub open spec fn season_text(season: u32) -> Seq<char> {
    decimal(season as nat).subrange(0, 4) + "-"@ + decimal(season as nat).subrange(4, 8)
}

/// Ten to the power `k`.
pub open spec fn ten_pow(k: nat) -> nat
    decreases k,
{
    if k == 0 {
        1
    } else {
        10 * ten_pow((k - 1) as nat)
    }
}

/// A number of at least `10^k` has more than `k` digits.
proof fn lemma_decimal_len(n: nat, k: nat)
    requires
        n >= ten_pow(k),
    ensures
        decimal(n).len() >= k + 1,
    decreases k,
{
    if k > 0 {
        assert(n / 10 >= ten_pow((k - 1) as nat));
        lemma_decimal_len(n / 10, (k - 1) as nat);
    }
}

/// A season as shown.
pub fn format_season(season: u32) -> (s: String)
    requires
        season >= 10_000_000,
    ensures
        s@ == season_text(season),
{
    let digits = u64_to_string(season as u64);
    proof {
        assert(ten_pow(7) == 10_000_000) by {
            reveal_with_fuel(ten_pow, 8);
        }
        lemma_decimal_len(season as nat, 7);
    }
    let mut s = String::from_str(digits.as_str().substring_char(0, 4));
    s.append("-");
    s.append(digits.as_str().substring_char(4, 8));
    assert(s@ =~= season_text(season));
    s
}

/// The number of columns of the skater season table.
pub const SKATER_SEASON_COLUMNS: usize = 8;

/// The number of columns of the goalie season table.
pub const GOALIE_SEASON_COLUMNS: usize = 3;

/// The season columns (the first three for goalies): header, width and
/// alignment.
pub open spec fn season_column(c: int) -> (Seq<char>, usize, Alignment) {
    if c == 0 {
        ("Season"@, 9, Alignment::Left)
    } else if c == 1 {
        ("Team"@, 25, Alignment::Left)
    } else if c == 2 {
        ("GP"@, 4, Alignment::Right)
    } else if c == 3 {
        ("G"@, 3, Alignment::Right)
    } else if c == 4 {
        ("A"@, 3, Alignment::Right)
    } else if c == 5 {
        ("PTS"@, 4, Alignment::Right)
    } else if c == 6 {
        ("+/-"@, 4, Alignment::Right)
    } else {
        ("PIM"@, 4, Alignment::Right)
    }
}

/// A plus-minus as shown: with its sign, "0" when missing.
pub open spec fn plus_minus_or_zero(n: Option<i32>) -> Seq<char> {
    match n {
        Some(v) => if v >= 0 {
            "+"@ + decimal(v as nat)
        } else {
            signed_decimal(v as int)
        },
        None => "0"@,
    }
}

/// The cell of a season in column `c`: the team links to the team when its
/// abbreviation is known.
pub open spec fn season_cell(r: SeasonRow, c: int) -> CellKey {
    if c == 0 {
        CellKey::Text(season_text(r.season))
    } else if c == 1 {
        match r.team_abbrev {
            Some(a) => CellKey::Team(r.team_name@, a@),
            None => CellKey::Text(r.team_name@),
        }
    } else if c == 2 {
        CellKey::Text(signed_decimal(r.games_played as int))
    } else if c == 3 {
        CellKey::Text(or_zero(r.goals))
    } else if c == 4 {
        CellKey::Text(or_zero(r.assists))
    } else if c == 5 {
        CellKey::Text(or_zero(r.points))
    } else if c == 6 {
        CellKey::Text(plus_minus_or_zero(r.plus_minus))
    } else {
        CellKey::Text(or_zero(r.pim))
    }
}

/// The number of season columns for a goalie or a skater.
pub open spec fn season_columns(is_goalie: bool) -> int {
    if is_goalie {
        GOALIE_SEASON_COLUMNS as int
    } else {
        SKATER_SEASON_COLUMNS as int
    }
}

/// Whether a table holds the season columns and the given seasons, with
/// nothing set but possibly the focused row.
pub open spec fn season_table(v: TableView, rows: Seq<SeasonRow>, is_goalie: bool) -> bool {
    let n = season_columns(is_goalie);
    &&& v.headers.len() == n
    &&& forall|c: int|
        0 <= c < n ==> (#[trigger] v.headers[c])@ == season_column(c).0 && v.widths[c]
            == season_column(c).1 && v.aligns[c] == season_column(c).2
    &&& v.cells.len() == rows.len()
    &&& forall|r: int, c: int|
        0 <= r < rows.len() && 0 <= c < n ==> cell_key(#[trigger] v.cells[r][c]) == season_cell(
            rows[r],
            c,
        )
    &&& v.header is None
    &&& v.margin == 0
}

/// Whether every season has eight digits or more.
pub open spec fn seasons_ok(rows: Seq<SeasonRow>) -> bool {
    forall|i: int| 0 <= i < rows.len() ==> (#[trigger] rows[i]).season >= 10_000_000
}

/// The cell of a season in column `c`.
fn season_cell_value(r: &SeasonRow, c: usize) -> (v: CellValue)
    requires
        r.season >= 10_000_000,
    ensures
        cell_key(v) == season_cell(*r, c as int),
{
    if c == 0 {
        CellValue::Text(format_season(r.season))
    } else if c == 1 {
        match &r.team_abbrev {
            Some(a) => CellValue::TeamLink { display: r.team_name.clone(), team_abbrev: a.clone() },
            None => CellValue::Text(r.team_name.clone()),
        }
    } else if c == 2 {
        CellValue::Text(i64_to_string(r.games_played as i64))
    } else if c == 6 {
        let mut s = String::new();
        match r.plus_minus {
            Some(v) => {
                if v >= 0 {
                    s.append("+");
                }
                push_signed_decimal(&mut s, v as i64);
                proof {
                    if v >= 0 {
                        assert(s@ =~= "+"@ + decimal(v as nat));
                    }
                }
            },
            None => {
                s.append("0");
            },
        }
        CellValue::Text(s)
    } else {
        let n = if c == 3 {
            r.goals
        } else if c == 4 {
            r.assists
        } else if c == 5 {
            r.points
        } else {
            r.pim
        };
        let mut s = String::new();
        push_or_zero(&mut s, n);
        assert(s@ =~= or_zero(n));
        CellValue::Text(s)
    }
}

/// The season table: for skaters season, team, games, goals, assists,
/// points, plus-minus and penalty minutes; for goalies the first three.
pub fn create_season_table(rows: &Vec<SeasonRow>, is_goalie: bool, focused_row: Option<usize>) -> (t:
    TableWidget)
    requires
        seasons_ok(rows@),
    ensures
        season_table(t@, rows@, is_goalie),
        t@.focused_row == focused_row,
        table_shape(t@),
{
    let ncols: usize = if is_goalie {
        GOALIE_SEASON_COLUMNS
    } else {
        SKATER_SEASON_COLUMNS
    };
    let headers: Vec<&str> = vec!["Season", "Team", "GP", "G", "A", "PTS", "+/-", "PIM"];
    let widths: Vec<usize> = vec![9, 25, 4, 3, 3, 4, 4, 4];
    let aligns: Vec<Alignment> = vec![
        Alignment::Left, Alignment::Left, Alignment::Right, Alignment::Right, Alignment::Right,
        Alignment::Right, Alignment::Right, Alignment::Right,
    ];
    proof {
        reveal_strlit("Season");
        reveal_strlit("Team");
        reveal_strlit("GP");
        reveal_strlit("G");
        reveal_strlit("A");
        reveal_strlit("PTS");
        reveal_strlit("+/-");
        reveal_strlit("PIM");
        assert forall|c: int| 0 <= c < SKATER_SEASON_COLUMNS implies headers@[c]@ == season_column(
            c,
        ).0 && widths@[c] == season_column(c).1 && aligns@[c] == season_column(c).2 by {}
    }
    let mut column_headers: Vec<String> = Vec::new();
    let mut column_widths: Vec<usize> = Vec::new();
    let mut column_aligns: Vec<Alignment> = Vec::new();
    let mut c: usize = 0;
    while c < ncols
        invariant
            c <= ncols,
            ncols == season_columns(is_goalie),
            ncols <= SKATER_SEASON_COLUMNS,
            headers@.len() == SKATER_SEASON_COLUMNS,
            widths@.len() == SKATER_SEASON_COLUMNS,
            aligns@.len() == SKATER_SEASON_COLUMNS,
            forall|k: int|
                0 <= k < SKATER_SEASON_COLUMNS ==> (#[trigger] headers@[k])@ == season_column(k).0
                    && widths@[k] == season_column(k).1 && aligns@[k] == season_column(k).2,
            column_headers@.len() == c,
            column_widths@.len() == c,
            column_aligns@.len() == c,
            forall|k: int|
                0 <= k < c ==> (#[trigger] column_headers@[k])@ == season_column(k).0
                    && column_widths@[k] == season_column(k).1 && column_aligns@[k]
                    == season_column(k).2,
        decreases ncols - c,
    {
        assert(headers@[c as int]@ == season_column(c as int).0 && widths@[c as int]
            == season_column(c as int).1 && aligns@[c as int] == season_column(c as int).2);
        column_headers.push(String::from_str(headers[c]));
        column_widths.push(widths[c]);
        column_aligns.push(aligns[c]);
        c = c + 1;
    }
    let mut cell_data: Vec<Vec<CellValue>> = Vec::new();
    let n = rows.len();
    let mut r: usize = 0;
    while r < n
        invariant
            r <= n,
            n == rows@.len(),
            ncols == season_columns(is_goalie),
            seasons_ok(rows@),
            cell_data@.len() == r,
            forall|i: int| 0 <= i < r ==> (#[trigger] cell_data@[i])@.len() == ncols,
            forall|i: int, k: int|
                0 <= i < r && 0 <= k < ncols ==> cell_key(#[trigger] cell_data@[i]@[k])
                    == season_cell(rows@[i], k),
        decreases n - r,
    {
        let mut row: Vec<CellValue> = Vec::new();
        let mut k: usize = 0;
        while k < ncols
            invariant
                k <= ncols,
                r < n,
                n == rows@.len(),
                rows@[r as int].season >= 10_000_000,
                row@.len() == k,
                forall|j: int| 0 <= j < k ==> cell_key(#[trigger] row@[j]) == season_cell(
                    rows@[r as int],
                    j,
                ),
            decreases ncols - k,
        {
            row.push(season_cell_value(&rows[r], k));
            k = k + 1;
        }
        cell_data.push(row);
        r = r + 1;
    }
    let t = TableWidget::from_cells(column_headers, column_widths, column_aligns, cell_data);
    let ft = t.with_focused_row(focused_row);
    assert(ft@.headers == t@.headers && ft@.cells == t@.cells);
    ft
}

// ---------------------------------------------------------------------------
// The player document
// ---------------------------------------------------------------------------

/// Whether the seasons of a player can be shown: each shown season has
/// eight digits or more, and they fit in a table.
pub open spec fn player_ok(p: PlayerInfo) -> bool {
    p.seasons matches Some(v) ==> seasons_ok(nhl_regular_seasons(v@)) && v@.len() <= MAX_TABLE_ROWS
}

/// A selection of seasons has no more seasons than it was taken from.
proof fn lemma_nhl_regular_len(s: Seq<SeasonRow>)
    ensures
        nhl_regular_seasons(s).len() <= s.len(),
    decreases s.len(),
{
    if s.len() > 0 {
        lemma_nhl_regular_len(s.drop_last());
    }
}

/// The shown seasons keep what holds of each season.
pub proof fn lemma_shown_seasons_ok(p: PlayerInfo)
    requires
        player_ok(p),
    ensures
        seasons_ok(shown_seasons(p)),
        shown_seasons(p).len() <= MAX_TABLE_ROWS,
{
    broadcast use vstd::seq_lib::group_to_multiset_ensures;

    if let Some(v) = p.seasons {
        let f = nhl_regular_seasons(v@);
        lemma_nhl_regular_len(v@);
        lemma_latest_first_sorted(f);
        let l = latest_first(f);
        assert forall|i: int| 0 <= i < l.len() implies (#[trigger] l[i]).season >= 10_000_000 by {
            assert(l.to_multiset().count(l[i]) > 0);
            assert(f.contains(l[i]));
        }
    }
}

/// The title of the season table: "SEASON BY SEASON (<n> NHL seasons)".
pub open spec fn seasons_title(n: nat) -> Seq<char> {
    "SEASON BY SEASON ("@ + decimal(n) + " NHL seasons)"@
}

/// The elements of a player's details: name, details, size, the draft and
/// the career totals when known, and the NHL regular seasons latest first
/// in the table "season_stats".
pub open spec fn player_elements(r: Seq<DocumentElement>, p: PlayerInfo, focus: FocusContext) -> bool {
    let a: int = 4;
    let b: int = a + if p.draft is Some {
        2int
    } else {
        0int
    };
    let c: int = b + if p.career is Some {
        3int
    } else {
        0int
    };
    let seasons = shown_seasons(p);
    &&& r.len() == c + if seasons.len() > 0 {
        2int
    } else {
        0int
    }
    &&& is_heading(r[0], 1, full_name(p))
    &&& is_text(r[1], details_line(p))
    &&& is_text(r[2], size_line(p))
    &&& r[3] == DocumentElement::Spacer { height: 1 }
    &&& (p.draft matches Some(d) ==> is_text(r[a], draft_line(d)) && r[a + 1]
        == DocumentElement::Spacer { height: 1 })
    &&& (p.career matches Some(cs) ==> is_heading(r[b], 2, "CAREER TOTALS - Regular Season"@)
        && is_text(r[b + 1], career_line(cs, p.is_goalie)) && r[b + 2] == DocumentElement::Spacer {
        height: 1,
    })
    &&& (seasons.len() > 0 ==> (r[c] matches DocumentElement::SectionTitle { content, underline }
        && content@ == seasons_title(seasons.len()) && underline) && (r[c + 1] matches DocumentElement::Table {
        widget,
        focusable,
    } && season_table(widget@, seasons, p.is_goalie) && widget@.focused_row == focused_row_of(
        focus,
        "season_stats"@,
    ) && views(focusable@) == table_focus("season_stats"@, widget@, seasons.len() as int)))
}

/// The content of a player's details document.
#[derive(Debug)]
pub struct PlayerDetailDocumentContent {
    player_data: Option<PlayerInfo>,
    player_id: i64,
}

impl PlayerDetailDocumentContent {
    #[verifier::type_invariant]
    closed spec fn shows(self) -> bool {
        self.player_data matches Some(p) ==> player_ok(p)
    }

    /// The player shown, if known.
    pub closed spec fn player(self) -> Option<PlayerInfo> {
        self.player_data
    }

    /// The player's ID.
    pub closed spec fn id_of(self) -> i64 {
        self.player_id
    }

    /// The document of a player's details.
    pub fn new(player_data: Option<PlayerInfo>, player_id: i64) -> (d: Self)
        requires
            player_data matches Some(p) ==> player_ok(p),
        ensures
            d.player() == player_data,
            d.id_of() == player_id,
    {
        PlayerDetailDocumentContent { player_data, player_id }
    }
}

impl Document for PlayerDetailDocumentContent {
    /// The player's details, or a note that there are none.
    open spec fn built(&self, focus: FocusContext, r: Seq<DocumentElement>) -> bool {
        match self.player() {
            Some(p) => player_elements(r, p, focus),
            None => r.len() == 1 && is_text(
                r[0],
                "No data available for player "@ + signed_decimal(self.id_of() as int),
            ),
        }
    }

    /// Build the layout described above.
    fn build(&self, focus: &FocusContext) -> (r: Vec<DocumentElement>)
    {
        proof {
            use_type_invariant(self);
        }
        let player = match &self.player_data {
            Some(p) => p,
            None => {
                let mut msg = String::from_str("No data available for player ");
                push_signed_decimal(&mut msg, self.player_id as i64);
                return DocumentBuilder::new().text(msg.as_str()).build();
            },
        };
        proof {
            lemma_shown_seasons_ok(*player);
            reveal_strlit("season_stats");
        }
        let name = player_full_name(player);
        let head = DocumentBuilder::new().heading(1, name.as_str()).text(
            player_details_line(player).as_str(),
        ).text(player_size_line(player).as_str()).spacer(1).build();
        let mut draft: Vec<DocumentElement> = Vec::new();
        if let Some(d) = &player.draft {
            draft = DocumentBuilder::new().text(player_draft_line(d).as_str()).spacer(1).build();
        }
        let mut career: Vec<DocumentElement> = Vec::new();
        if let Some(cs) = &player.career {
            career = DocumentBuilder::new().heading(2, "CAREER TOTALS - Regular Season").text(
                format_career_stats(cs, player.is_goalie).as_str(),
            ).spacer(1).build();
        }
        let seasons = get_nhl_regular_seasons(player);
        let mut table_part: Vec<DocumentElement> = Vec::new();
        if seasons.len() > 0 {
            let total = seasons.len();
            let mut title = String::from_str("SEASON BY SEASON (");
            crate::text::push_decimal(&mut title, total as u64);
            title.append(" NHL seasons)");
            let table = create_season_table(
                &seasons,
                player.is_goalie,
                focus.focused_table_row("season_stats"),
            );
            table_part = DocumentBuilder::new().element(
                DocumentElement::section_title(title.as_str(), true),
            ).table("season_stats", table).build();
        }
        let ghost h = head@;
        let ghost dr = draft@;
        let ghost ca = career@;
        let ghost tp = table_part@;
        let r = DocumentBuilder::new().elements(head).elements(draft).elements(career).elements(
            table_part,
        ).build();
        proof {
            let a: int = 4;
            let b: int = a + dr.len();
            let c: int = b + ca.len();
            assert(r@ == h + dr + ca + tp);
            assert(r@[0] == h[0]);
            assert(r@[1] == h[1]);
            assert(r@[2] == h[2]);
            assert(r@[3] == h[3]);
            if dr.len() > 0 {
                assert(r@[a] == dr[0]);
                assert(r@[a + 1] == dr[1]);
            }
            if ca.len() > 0 {
                assert(r@[b] == ca[0]);
                assert(r@[b + 1] == ca[1]);
                assert(r@[b + 2] == ca[2]);
            }
            if tp.len() > 0 {
                assert(r@[c] == tp[0]);
                assert(r@[c + 1] == tp[1]);
            }
        }
        r
    }

    /// The player's name, or "Player <id>".
    fn title(&self) -> (s: String)
        ensures
            s@ == match self.player() {
                Some(p) => full_name(p),
                None => "Player "@ + signed_decimal(self.id_of() as int),
            },
    {
        match &self.player_data {
            Some(p) => player_full_name(p),
            None => {
                let mut s = String::from_str("Player ");
                push_signed_decimal(&mut s, self.player_id as i64);
                s
            },
        }
    }

    /// "player_detail_<id>".
    fn id(&self) -> (s: String)
        ensures
            s@ == "player_detail_"@ + signed_decimal(self.id_of() as int),
    {
        let mut s = String::from_str("player_detail_");
        push_signed_decimal(&mut s, self.player_id as i64);
        s
    }
}

/// The player details component.
#[derive(Debug)]
pub struct PlayerDetailDocument;

impl PlayerDetailDocument {
    /// The message shown in place of the document while the player loads.
    pub fn placeholder(player_id: i64, loading: bool) -> (r: Option<String>)
        ensures
            loading ==> (r matches Some(m) && m@ == "Loading player "@ + signed_decimal(
                player_id as int,
            ) + " details..."@),
            !loading ==> r is None,
    {
        if loading {
            let mut m = String::from_str("Loading player ");
            push_signed_decimal(&mut m, player_id);
            m.append(" details...");
            Some(m)
        } else {
            None
        }
    }
}

} // verus!
