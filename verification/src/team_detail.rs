//! A team's details: its name and record, and its skaters and goalies of
//! the season in two tables.

use vstd::prelude::*;

use crate::builder::DocumentBuilder;
use crate::demo_tab::{is_heading, is_text};
use crate::document::{Document, FocusContext, focused_row_of};
use crate::elements::{DocumentElement, table_focus, views};
use crate::standings::MAX_TABLE_ROWS;
use crate::stats_tables::{CellKey, cell_key, plus_minus_string, plus_minus_text};
use crate::table::{Alignment, CellValue, TableView, TableWidget};
use crate::text::{decimal, i64_to_string, push_decimal, push_signed_decimal, signed_decimal, str_eq};

verus! {

/// A team's place in the standings, as shown at the top of its details.
#[derive(Debug)]
pub struct TeamStanding {
    /// The team's place name ("Toronto").
    pub team_name: String,
    /// The team's common name ("Maple Leafs").
    pub team_common_name: String,
    pub wins: i32,
    pub losses: i32,
    pub ot_losses: i32,
    pub points: i32,
    pub division_name: String,
    pub conference_name: Option<String>,
}

/// A skater's season with the team.
#[derive(Debug)]
pub struct ClubSkaterRow {
    pub player_id: i64,
    pub first_name: String,
    pub last_name: String,
    /// The position's code.
    pub position: String,
    pub games_played: i32,
    pub goals: i32,
    pub assists: i32,
    pub points: i32,
    pub plus_minus: i32,
    pub penalty_minutes: i32,
}

impl Clone for ClubSkaterRow {
    fn clone(&self) -> (res: Self)
        ensures
            res == *self,
    {
        ClubSkaterRow {
            player_id: self.player_id,
            first_name: self.first_name.clone(),
            last_name: self.last_name.clone(),
            position: self.position.clone(),
            games_played: self.games_played,
            goals: self.goals,
            assists: self.assists,
            points: self.points,
            plus_minus: self.plus_minus,
            penalty_minutes: self.penalty_minutes,
        }
    }
}

/// A goalie's season with the team. The averages are kept as the text
/// shown ("2.50", "0.915").
#[derive(Debug)]
pub struct ClubGoalieRow {
    pub player_id: i64,
    pub first_name: String,
    pub last_name: String,
    pub games_played: i32,
    pub wins: i32,
    pub losses: i32,
    pub overtime_losses: i32,
    pub goals_against_average: String,
    pub save_percentage: String,
    pub shutouts: i32,
}

impl Clone for ClubGoalieRow {
    fn clone(&self) -> (res: Self)
        ensures
            res == *self,
    {
        ClubGoalieRow {
            player_id: self.player_id,
            first_name: self.first_name.clone(),
            last_name: self.last_name.clone(),
            games_played: self.games_played,
            wins: self.wins,
            losses: self.losses,
            overtime_losses: self.overtime_losses,
            goals_against_average: self.goals_against_average.clone(),
            save_percentage: self.save_percentage.clone(),
            shutouts: self.shutouts,
        }
    }
}

/// A team's players of the season.
#[derive(Debug)]
pub struct ClubStatsRows {
    pub skaters: Vec<ClubSkaterRow>,
    pub goalies: Vec<ClubGoalieRow>,
}

// ---------------------------------------------------------------------------
// Orders
// ---------------------------------------------------------------------------

/// The first position in `s` whose skater has fewer than `p` points.
pub open spec fn first_skater_below(s: Seq<ClubSkaterRow>, p: i32) -> int
    decreases s.len(),
{
    if s.len() == 0 {
        0
    } else if s[0].points < p {
        0
    } else {
        1 + first_skater_below(s.drop_first(), p)
    }
}

/// The skaters by points, most first; equal points keep their order.
pub open spec fn skaters_by_points(s: Seq<ClubSkaterRow>) -> Seq<ClubSkaterRow>
    decreases s.len(),
{
    if s.len() == 0 {
        s
    } else {
        let rest = skaters_by_points(s.drop_last());
        rest.insert(first_skater_below(rest, s.last().points), s.last())
    }
}

/// The first position in `s` whose goalie played fewer than `gp` games.
pub open spec fn first_goalie_below(s: Seq<ClubGoalieRow>, gp: i32) -> int
    decreases s.len(),
{
    if s.len() == 0 {
        0
    } else if s[0].games_played < gp {
        0
    } else {
        1 + first_goalie_below(s.drop_first(), gp)
    }
}

/// The goalies by games played, most first; equal counts keep their
/// order.
pub open spec fn goalies_by_games(s: Seq<ClubGoalieRow>) -> Seq<ClubGoalieRow>
    decreases s.len(),
{
    if s.len() == 0 {
        s
    } else {
        let rest = goalies_by_games(s.drop_last());
        rest.insert(first_goalie_below(rest, s.last().games_played), s.last())
    }
}

proof fn lemma_first_skater_below(s: Seq<ClubSkaterRow>, p: i32, k: int)
    requires
        0 <= k <= s.len(),
        forall|j: int| 0 <= j < k ==> (#[trigger] s[j]).points >= p,
        k == s.len() || s[k].points < p,
    ensures
        first_skater_below(s, p) == k,
    decreases k,
{
    if k > 0 {
        lemma_first_skater_below(s.drop_first(), p, k - 1);
    }
}

proof fn lemma_first_goalie_below(s: Seq<ClubGoalieRow>, gp: i32, k: int)
    requires
        0 <= k <= s.len(),
        forall|j: int| 0 <= j < k ==> (#[trigger] s[j]).games_played >= gp,
        k == s.len() || s[k].games_played < gp,
    ensures
        first_goalie_below(s, gp) == k,
    decreases k,
{
    if k > 0 {
        lemma_first_goalie_below(s.drop_first(), gp, k - 1);
    }
}

/// `first_skater_below` lies within the sequence, after every skater with
/// at least `p` points of a descending sequence and before every one with
/// fewer.
proof fn lemma_first_skater_bounds(s: Seq<ClubSkaterRow>, p: i32)
    ensures
        0 <= first_skater_below(s, p) <= s.len(),
        forall|j: int| 0 <= j < first_skater_below(s, p) ==> (#[trigger] s[j]).points >= p,
        first_skater_below(s, p) < s.len() ==> s[first_skater_below(s, p)].points < p,
    decreases s.len(),
{
    if s.len() > 0 && s[0].points >= p {
        lemma_first_skater_bounds(s.drop_first(), p);
        assert forall|j: int| 0 <= j < first_skater_below(s, p) implies (#[trigger] s[j]).points
            >= p by {
            if j > 0 {
                assert(s[j] == s.drop_first()[j - 1]);
            }
        }
    }
}

/// `first_goalie_below` lies within the sequence, after every goalie with
/// at least `gp` games of a descending sequence and before every one with
/// fewer.
proof fn lemma_first_goalie_bounds(s: Seq<ClubGoalieRow>, gp: i32)
    ensures
        0 <= first_goalie_below(s, gp) <= s.len(),
        forall|j: int| 0 <= j < first_goalie_below(s, gp) ==> (#[trigger] s[j]).games_played >= gp,
        first_goalie_below(s, gp) < s.len() ==> s[first_goalie_below(s, gp)].games_played < gp,
    decreases s.len(),
{
    if s.len() > 0 && s[0].games_played >= gp {
        lemma_first_goalie_bounds(s.drop_first(), gp);
        assert forall|j: int| 0 <= j < first_goalie_below(s, gp) implies (#[trigger] s[j]).games_played
            >= gp by {
            if j > 0 {
                assert(s[j] == s.drop_first()[j - 1]);
            }
        }
    }
}

/// Ordering the skaters by points gives the same skaters, most points
/// first.
pub proof fn lemma_skaters_by_points_sorted(s: Seq<ClubSkaterRow>)
    ensures
        forall|i: int, j: int|
            0 <= i <= j < skaters_by_points(s).len() ==> skaters_by_points(s)[i].points
                >= skaters_by_points(s)[j].points,
        skaters_by_points(s).to_multiset() == s.to_multiset(),
        skaters_by_points(s).len() == s.len(),
    decreases s.len(),
{
    broadcast use vstd::seq_lib::group_to_multiset_ensures;

    if s.len() > 0 {
        let rest = skaters_by_points(s.drop_last());
        let x = s.last();
        lemma_skaters_by_points_sorted(s.drop_last());
        lemma_first_skater_bounds(rest, x.points);
        let k = first_skater_below(rest, x.points);
        vstd::seq_lib::to_multiset_insert(rest, k, x);
        assert(s.drop_last().push(x) =~= s);
        let r = rest.insert(k, x);
        assert forall|i: int, j: int| 0 <= i <= j < r.len() implies r[i].points >= r[j].points by {
            if i < k && j > k {
                assert(r[j] == rest[j - 1]);
            } else if i == k && j > k {
                assert(r[j] == rest[j - 1]);
            } else if i > k {
                assert(r[i] == rest[i - 1]);
                assert(r[j] == rest[j - 1]);
            }
        }
    }
}

/// Ordering the goalies by games played gives the same goalies, most games
/// first.
pub proof fn lemma_goalies_by_games_sorted(s: Seq<ClubGoalieRow>)
    ensures
        forall|i: int, j: int|
            0 <= i <= j < goalies_by_games(s).len() ==> goalies_by_games(s)[i].games_played
                >= goalies_by_games(s)[j].games_played,
        goalies_by_games(s).to_multiset() == s.to_multiset(),
        goalies_by_games(s).len() == s.len(),
    decreases s.len(),
{
    broadcast use vstd::seq_lib::group_to_multiset_ensures;

    if s.len() > 0 {
        let rest = goalies_by_games(s.drop_last());
        let x = s.last();
        lemma_goalies_by_games_sorted(s.drop_last());
        lemma_first_goalie_bounds(rest, x.games_played);
        let k = first_goalie_below(rest, x.games_played);
        vstd::seq_lib::to_multiset_insert(rest, k, x);
        assert(s.drop_last().push(x) =~= s);
        let r = rest.insert(k, x);
        assert forall|i: int, j: int| 0 <= i <= j < r.len() implies r[i].games_played
            >= r[j].games_played by {
            if i < k && j > k {
                assert(r[j] == rest[j - 1]);
            } else if i == k && j > k {
                assert(r[j] == rest[j - 1]);
            } else if i > k {
                assert(r[i] == rest[i - 1]);
                assert(r[j] == rest[j - 1]);
            }
        }
    }
}

/// The skaters by points, most first; equal points keep their order.
pub fn sort_skaters_by_points(skaters: &Vec<ClubSkaterRow>) -> (r: Vec<ClubSkaterRow>)
    ensures
        r@ == skaters_by_points(skaters@),
{
    let mut out: Vec<ClubSkaterRow> = Vec::new();
    let n = skaters.len();
    let mut i: usize = 0;
    while i < n
        invariant
            i <= n,
            n == skaters@.len(),
            out@ == skaters_by_points(skaters@.take(i as int)),
        decreases n - i,
    {
        let x = skaters[i].clone();
        let p = x.points;
        let m = out.len();
        let mut k: usize = 0;
        while k < m && out[k].points >= p
            invariant
                k <= m,
                m == out@.len(),
                forall|j: int| 0 <= j < k ==> (#[trigger] out@[j]).points >= p,
            decreases m - k,
        {
            k = k + 1;
        }
        proof {
            lemma_first_skater_below(out@, p, k as int);
            assert(skaters@.take(i + 1).drop_last() =~= skaters@.take(i as int));
        }
        out.insert(k, x);
        i = i + 1;
    }
    assert(skaters@.take(n as int) =~= skaters@);
    out
}

/// The goalies by games played, most first; equal counts keep their
/// order.
pub fn sort_goalies_by_games(goalies: &Vec<ClubGoalieRow>) -> (r: Vec<ClubGoalieRow>)
    ensures
        r@ == goalies_by_games(goalies@),
{
    let mut out: Vec<ClubGoalieRow> = Vec::new();
    let n = goalies.len();
    let mut i: usize = 0;
    while i < n
        invariant
            i <= n,
            n == goalies@.len(),
            out@ == goalies_by_games(goalies@.take(i as int)),
        decreases n - i,
    {
        let x = goalies[i].clone();
        let gp = x.games_played;
        let m = out.len();
        let mut k: usize = 0;
        while k < m && out[k].games_played >= gp
            invariant
                k <= m,
                m == out@.len(),
                forall|j: int| 0 <= j < k ==> (#[trigger] out@[j]).games_played >= gp,
            decreases m - k,
        {
            k = k + 1;
        }
        proof {
            lemma_first_goalie_below(out@, gp, k as int);
            assert(goalies@.take(i + 1).drop_last() =~= goalies@.take(i as int));
        }
        out.insert(k, x);
        i = i + 1;
    }
    assert(goalies@.take(n as int) =~= goalies@);
    out
}

// ---------------------------------------------------------------------------
// Tables
// ---------------------------------------------------------------------------

/// The number of columns of the skater and goalie tables.
pub const TEAM_TABLE_COLUMNS: usize = 8;

/// The skater columns: header, width and alignment.
pub open spec fn club_skater_column(c: int) -> (Seq<char>, usize, Alignment) {
    if c == 0 {
        ("Player"@, 20, Alignment::Left)
    } else if c == 1 {
        ("Pos"@, 3, Alignment::Left)
    } else if c == 2 {
        ("GP"@, 4, Alignment::Right)
    } else if c == 3 {
        ("G"@, 3, Alignment::Right)
    } else if c == 4 {
        ("A"@, 3, Alignment::Right)
    } else if c == 5 {
        ("PTS"@, 4, Alignment::Right)
    } else if c == 6 {
        ("+/-"@, 4, Alignment::Right)
    } else {
        ("PIM"@, 4, Alignment::Right)
    }
}

/// The goalie columns: header, width and alignment.
pub open spec fn club_goalie_column(c: int) -> (Seq<char>, usize, Alignment) {
    if c == 0 {
        ("Player"@, 20, Alignment::Left)
    } else if c == 1 {
        ("GP"@, 4, Alignment::Right)
    } else if c == 2 {
        ("W"@, 3, Alignment::Right)
    } else if c == 3 {
        ("L"@, 3, Alignment::Right)
    } else if c == 4 {
        ("OTL"@, 3, Alignment::Right)
    } else if c == 5 {
        ("GAA"@, 5, Alignment::Right)
    } else if c == 6 {
        ("SV%"@, 5, Alignment::Right)
    } else {
        ("SO"@, 3, Alignment::Right)
    }
}

/// "<first> <last>".
pub open spec fn player_name(first: Seq<char>, last: Seq<char>) -> Seq<char> {
    first + " "@ + last
}

/// The cell of a skater in column `c`.
pub open spec fn club_skater_cell(s: ClubSkaterRow, c: int) -> CellKey {
    if c == 0 {
        CellKey::Player(player_name(s.first_name@, s.last_name@), s.player_id)
    } else if c == 1 {
        CellKey::Text(s.position@)
    } else if c == 6 {
        CellKey::Text(plus_minus_text(s.plus_minus))
    } else {
        CellKey::Text(
            signed_decimal(
                if c == 2 {
                    s.games_played as int
                } else if c == 3 {
                    s.goals as int
                } else if c == 4 {
                    s.assists as int
                } else if c == 5 {
                    s.points as int
                } else {
                    s.penalty_minutes as int
                },
            ),
        )
    }
}

/// The cell of a goalie in column `c`.
pub open spec fn club_goalie_cell(g: ClubGoalieRow, c: int) -> CellKey {
    if c == 0 {
        CellKey::Player(player_name(g.first_name@, g.last_name@), g.player_id)
    } else if c == 5 {
        CellKey::Text(g.goals_against_average@)
    } else if c == 6 {
        CellKey::Text(g.save_percentage@)
    } else {
        CellKey::Text(
            signed_decimal(
                if c == 1 {
                    g.games_played as int
                } else if c == 2 {
                    g.wins as int
                } else if c == 3 {
                    g.losses as int
                } else if c == 4 {
                    g.overtime_losses as int
                } else {
                    g.shutouts as int
                },
            ),
        )
    }
}

/// Whether a table holds the skater columns and the given skaters.
pub open spec fn club_skater_table(v: TableView, rows: Seq<ClubSkaterRow>) -> bool {
    &&& v.headers.len() == TEAM_TABLE_COLUMNS
    &&& forall|c: int|
        0 <= c < TEAM_TABLE_COLUMNS ==> (#[trigger] v.headers[c])@ == club_skater_column(c).0
            && v.widths[c] == club_skater_column(c).1 && v.aligns[c] == club_skater_column(c).2
    &&& v.cells.len() == rows.len()
    &&& forall|r: int, c: int|
        0 <= r < rows.len() && 0 <= c < TEAM_TABLE_COLUMNS ==> cell_key(#[trigger] v.cells[r][c])
            == club_skater_cell(rows[r], c)
}

/// Whether a table holds the goalie columns and the given goalies.
pub open spec fn club_goalie_table(v: TableView, rows: Seq<ClubGoalieRow>) -> bool {
    &&& v.headers.len() == TEAM_TABLE_COLUMNS
    &&& forall|c: int|
        0 <= c < TEAM_TABLE_COLUMNS ==> (#[trigger] v.headers[c])@ == club_goalie_column(c).0
            && v.widths[c] == club_goalie_column(c).1 && v.aligns[c] == club_goalie_column(c).2
    &&& v.cells.len() == rows.len()
    &&& forall|r: int, c: int|
        0 <= r < rows.len() && 0 <= c < TEAM_TABLE_COLUMNS ==> cell_key(#[trigger] v.cells[r][c])
            == club_goalie_cell(rows[r], c)
}

/// "<first> <last>".
fn name_string(first: &String, last: &String) -> (s: String)
    ensures
        s@ == player_name(first@, last@),
{
    let mut s = first.clone();
    s.append(" ");
    s.append(last.as_str());
    s
}

/// The cell of a skater in column `c`.
fn club_skater_cell_value(s: &ClubSkaterRow, c: usize) -> (v: CellValue)
    ensures
        cell_key(v) == club_skater_cell(*s, c as int),
{
    if c == 0 {
        CellValue::PlayerLink {
            display: name_string(&s.first_name, &s.last_name),
            player_id: s.player_id,
        }
    } else if c == 1 {
        CellValue::Text(s.position.clone())
    } else if c == 6 {
        CellValue::Text(plus_minus_string(s.plus_minus))
    } else {
        let n: i32 = if c == 2 {
            s.games_played
        } else if c == 3 {
            s.goals
        } else if c == 4 {
            s.assists
        } else if c == 5 {
            s.points
        } else {
            s.penalty_minutes
        };
        CellValue::Text(i64_to_string(n as i64))
    }
}

/// The cell of a goalie in column `c`.
fn club_goalie_cell_value(g: &ClubGoalieRow, c: usize) -> (v: CellValue)
    ensures
        cell_key(v) == club_goalie_cell(*g, c as int),
{
    if c == 0 {
        CellValue::PlayerLink {
            display: name_string(&g.first_name, &g.last_name),
            player_id: g.player_id,
        }
    } else if c == 5 {
        CellValue::Text(g.goals_against_average.clone())
    } else if c == 6 {
        CellValue::Text(g.save_percentage.clone())
    } else {
        let n: i32 = if c == 1 {
            g.games_played
        } else if c == 2 {
            g.wins
        } else if c == 3 {
            g.losses
        } else if c == 4 {
            g.overtime_losses
        } else {
            g.shutouts
        };
        CellValue::Text(i64_to_string(n as i64))
    }
}

/// The column headers, widths and alignments of a table.
fn table_columns(headers: &Vec<&str>) -> (r: Vec<String>)
    ensures
        r@.len() == headers@.len(),
        forall|k: int| 0 <= k < headers@.len() ==> (#[trigger] r@[k])@ == headers@[k]@,
{
    let mut out: Vec<String> = Vec::new();
    let mut c: usize = 0;
    while c < headers.len()
        invariant
            c <= headers@.len(),
            out@.len() == c,
            forall|k: int| 0 <= k < c ==> (#[trigger] out@[k])@ == headers@[k]@,
        decreases headers@.len() - c,
    {
        out.push(String::from_str(headers[c]));
        c = c + 1;
    }
    out
}

/// The skater table of the given skaters, in their order.
pub fn create_club_skater_table(skaters: &Vec<ClubSkaterRow>) -> (t: TableWidget)
    ensures
        club_skater_table(t@, skaters@),
        t@.header is None,
        t@.focused_row is None,
        t@.margin == 0,
{
    let headers: Vec<&str> = vec!["Player", "Pos", "GP", "G", "A", "PTS", "+/-", "PIM"];
    let widths: Vec<usize> = vec![20, 3, 4, 3, 3, 4, 4, 4];
    let aligns: Vec<Alignment> = vec![
        Alignment::Left, Alignment::Left, Alignment::Right, Alignment::Right, Alignment::Right,
        Alignment::Right, Alignment::Right, Alignment::Right,
    ];
    proof {
        reveal_strlit("Player");
        reveal_strlit("Pos");
        reveal_strlit("GP");
        reveal_strlit("G");
        reveal_strlit("A");
        reveal_strlit("PTS");
        reveal_strlit("+/-");
        reveal_strlit("PIM");
    }
    let column_headers = table_columns(&headers);
    assert forall|c: int| 0 <= c < TEAM_TABLE_COLUMNS implies (#[trigger] column_headers@[c])@
        == club_skater_column(c).0 && widths@[c] == club_skater_column(c).1 && aligns@[c]
        == club_skater_column(c).2 by {
        assert(column_headers@[c]@ == headers@[c]@);
    }
    let mut cell_data: Vec<Vec<CellValue>> = Vec::new();
    let n = skaters.len();
    let mut r: usize = 0;
    while r < n
        invariant
            r <= n,
            n == skaters@.len(),
            cell_data@.len() == r,
            forall|i: int| 0 <= i < r ==> (#[trigger] cell_data@[i])@.len() == TEAM_TABLE_COLUMNS,
            forall|i: int, k: int|
                0 <= i < r && 0 <= k < TEAM_TABLE_COLUMNS ==> cell_key(
                    #[trigger] cell_data@[i]@[k],
                ) == club_skater_cell(skaters@[i], k),
        decreases n - r,
    {
        let mut row: Vec<CellValue> = Vec::new();
        let mut k: usize = 0;
        while k < TEAM_TABLE_COLUMNS
            invariant
                k <= TEAM_TABLE_COLUMNS,
                r < n,
                n == skaters@.len(),
                row@.len() == k,
                forall|j: int|
                    0 <= j < k ==> cell_key(#[trigger] row@[j]) == club_skater_cell(
                        skaters@[r as int],
                        j,
                    ),
            decreases TEAM_TABLE_COLUMNS - k,
        {
            row.push(club_skater_cell_value(&skaters[r], k));
            k = k + 1;
        }
        cell_data.push(row);
        r = r + 1;
    }
    TableWidget::from_cells(column_headers, widths, aligns, cell_data)
}

/// The goalie table of the given goalies, in their order.
pub fn create_club_goalie_table(goalies: &Vec<ClubGoalieRow>) -> (t: TableWidget)
    ensures
        club_goalie_table(t@, goalies@),
        t@.header is None,
        t@.focused_row is None,
        t@.margin == 0,
{
    let headers: Vec<&str> = vec!["Player", "GP", "W", "L", "OTL", "GAA", "SV%", "SO"];
    let widths: Vec<usize> = vec![20, 4, 3, 3, 3, 5, 5, 3];
    let aligns: Vec<Alignment> = vec![
        Alignment::Left, Alignment::Right, Alignment::Right, Alignment::Right, Alignment::Right,
        Alignment::Right, Alignment::Right, Alignment::Right,
    ];
    proof {
        reveal_strlit("Player");
        reveal_strlit("GP");
        reveal_strlit("W");
        reveal_strlit("L");
        reveal_strlit("OTL");
        reveal_strlit("GAA");
        reveal_strlit("SV%");
        reveal_strlit("SO");
    }
    let column_headers = table_columns(&headers);
    assert forall|c: int| 0 <= c < TEAM_TABLE_COLUMNS implies (#[trigger] column_headers@[c])@
        == club_goalie_column(c).0 && widths@[c] == club_goalie_column(c).1 && aligns@[c]
        == club_goalie_column(c).2 by {
        assert(column_headers@[c]@ == headers@[c]@);
    }
    let mut cell_data: Vec<Vec<CellValue>> = Vec::new();
    let n = goalies.len();
    let mut r: usize = 0;
    while r < n
        invariant
            r <= n,
            n == goalies@.len(),
            cell_data@.len() == r,
            forall|i: int| 0 <= i < r ==> (#[trigger] cell_data@[i])@.len() == TEAM_TABLE_COLUMNS,
            forall|i: int, k: int|
                0 <= i < r && 0 <= k < TEAM_TABLE_COLUMNS ==> cell_key(
                    #[trigger] cell_data@[i]@[k],
                ) == club_goalie_cell(goalies@[i], k),
        decreases n - r,
    {
        let mut row: Vec<CellValue> = Vec::new();
        let mut k: usize = 0;
        while k < TEAM_TABLE_COLUMNS
            invariant
                k <= TEAM_TABLE_COLUMNS,
                r < n,
                n == goalies@.len(),
                row@.len() == k,
                forall|j: int|
                    0 <= j < k ==> cell_key(#[trigger] row@[j]) == club_goalie_cell(
                        goalies@[r as int],
                        j,
                    ),
            decreases TEAM_TABLE_COLUMNS - k,
        {
            row.push(club_goalie_cell_value(&goalies[r], k));
            k = k + 1;
        }
        cell_data.push(row);
        r = r + 1;
    }
    TableWidget::from_cells(column_headers, widths, aligns, cell_data)
}

// ---------------------------------------------------------------------------
// The team document
// ---------------------------------------------------------------------------

/// "<place> <common name>".
pub open spec fn team_heading(st: TeamStanding) -> Seq<char> {
    st.team_name@ + " "@ + st.team_common_name@
}

/// "Record: W-L-OTL (P pts) | Division: D | Conference: C", the
/// conference "Unknown" when missing.
pub open spec fn record_line(st: TeamStanding) -> Seq<char> {
    "Record: "@ + signed_decimal(st.wins as int) + "-"@ + signed_decimal(st.losses as int) + "-"@
        + signed_decimal(st.ot_losses as int) + " ("@ + signed_decimal(st.points as int)
        + " pts) | Division: "@ + st.division_name@ + " | Conference: "@ + match st.conference_name {
        Some(c) => c@,
        None => "Unknown"@,
    }
}

/// The record line.
pub fn format_record(st: &TeamStanding) -> (s: String)
    ensures
        s@ == record_line(*st),
{
    let mut s = String::from_str("Record: ");
    push_signed_decimal(&mut s, st.wins as i64);
    s.append("-");
    push_signed_decimal(&mut s, st.losses as i64);
    s.append("-");
    push_signed_decimal(&mut s, st.ot_losses as i64);
    s.append(" (");
    push_signed_decimal(&mut s, st.points as i64);
    s.append(" pts) | Division: ");
    s.append(st.division_name.as_str());
    s.append(" | Conference: ");
    match &st.conference_name {
        Some(c) => s.append(c.as_str()),
        None => s.append("Unknown"),
    }
    assert(s@ =~= record_line(*st));
    s
}

/// The header of a player table: "<KIND> (<n>) - Regular Season".
pub open spec fn roster_header(kind: Seq<char>, n: nat) -> Seq<char> {
    kind + " ("@ + decimal(n) + ") - Regular Season"@
}

/// The header of a player table.
pub(crate) fn format_roster_header(kind: &str, n: usize) -> (s: String)
    ensures
        s@ == roster_header(kind@, n as nat),
{
    let mut s = String::from_str(kind);
    s.append(" (");
    push_decimal(&mut s, n as u64);
    s.append(") - Regular Season");
    s
}

/// `e` is the table `name` headed `header`, without margin, its focused
/// row taken from the focus context.
pub open spec fn is_roster_table(
    e: DocumentElement,
    name: Seq<char>,
    header: Seq<char>,
    focus: FocusContext,
    n: nat,
) -> bool {
    e matches DocumentElement::Table { widget, focusable } && (widget@.header matches Some(h)
        && h@ == header) && widget@.margin == 0 && widget@.focused_row == focused_row_of(focus, name)
        && views(focusable@) == table_focus(name, widget@, n as int)
}

/// The skaters shown, by points, when the team has any.
pub open spec fn shown_skaters(stats: Option<ClubStatsRows>) -> Seq<ClubSkaterRow> {
    match stats {
        Some(s) => skaters_by_points(s.skaters@),
        None => Seq::empty(),
    }
}

/// The goalies shown, by games played, when the team has any.
pub open spec fn shown_goalies(stats: Option<ClubStatsRows>) -> Seq<ClubGoalieRow> {
    match stats {
        Some(s) => goalies_by_games(s.goalies@),
        None => Seq::empty(),
    }
}

/// The elements of a team's details: its name and record (its
/// abbreviation alone when its standing is unknown), a blank line, the
/// skaters by points in the table "skaters" and a blank line, and the
/// goalies by games played in the table "goalies".
pub open spec fn team_elements(
    r: Seq<DocumentElement>,
    abbrev: Seq<char>,
    standing: Option<TeamStanding>,
    stats: Option<ClubStatsRows>,
    focus: FocusContext,
) -> bool {
    let a: int = if standing is Some {
        3
    } else {
        2
    };
    let sk = shown_skaters(stats);
    let gl = shown_goalies(stats);
    let b: int = a + if sk.len() > 0 {
        2int
    } else {
        0int
    };
    &&& r.len() == b + if gl.len() > 0 {
        1int
    } else {
        0int
    }
    &&& match standing {
        Some(st) => is_heading(r[0], 1, team_heading(st)) && is_text(r[1], record_line(st)),
        None => is_heading(r[0], 1, abbrev),
    }
    &&& r[a - 1] == DocumentElement::Spacer { height: 1 }
    &&& (sk.len() > 0 ==> is_roster_table(
        r[a],
        "skaters"@,
        roster_header("SKATERS"@, sk.len()),
        focus,
        sk.len(),
    ) && (r[a] matches DocumentElement::Table { widget, .. } && club_skater_table(widget@, sk))
        && r[a + 1] == DocumentElement::Spacer { height: 1 })
    &&& (gl.len() > 0 ==> is_roster_table(
        r[b],
        "goalies"@,
        roster_header("GOALIES"@, gl.len()),
        focus,
        gl.len(),
    ) && (r[b] matches DocumentElement::Table { widget, .. } && club_goalie_table(widget@, gl)))
}

/// The content of a team's details document.
#[derive(Debug)]
pub struct TeamDetailDocumentContent {
    team_abbrev: String,
    standing: Option<TeamStanding>,
    club_stats: Option<ClubStatsRows>,
}

impl TeamDetailDocumentContent {
    #[verifier::type_invariant]
    closed spec fn fits(self) -> bool {
        self.club_stats matches Some(s) ==> s.skaters@.len() <= MAX_TABLE_ROWS
            && s.goalies@.len() <= MAX_TABLE_ROWS
    }

    /// The team's abbreviation.
    pub closed spec fn abbrev(self) -> Seq<char> {
        self.team_abbrev@
    }

    /// The team's standing, if known.
    pub closed spec fn standing(self) -> Option<TeamStanding> {
        self.standing
    }

    /// The team's players, if known.
    pub closed spec fn stats(self) -> Option<ClubStatsRows> {
        self.club_stats
    }

    /// The document of a team's details.
    pub fn new(team_abbrev: String, standing: Option<TeamStanding>, club_stats: Option<ClubStatsRows>) -> (d: Self)
        requires
            club_stats matches Some(s) ==> s.skaters@.len() <= MAX_TABLE_ROWS
                && s.goalies@.len() <= MAX_TABLE_ROWS,
        ensures
            d.abbrev() == team_abbrev@,
            d.standing() == standing,
            d.stats() == club_stats,
    {
        TeamDetailDocumentContent { team_abbrev, standing, club_stats }
    }

    /// The skaters by points in the table "skaters", when there are any.
    fn build_skaters_table(&self, focus: &FocusContext) -> (r: Option<DocumentElement>)
        ensures
            shown_skaters(self.stats()).len() > 0 <==> r is Some,
            r matches Some(e) ==> is_roster_table(
                e,
                "skaters"@,
                roster_header("SKATERS"@, shown_skaters(self.stats()).len()),
                *focus,
                shown_skaters(self.stats()).len(),
            ) && (e matches DocumentElement::Table { widget, .. } && club_skater_table(
                widget@,
                shown_skaters(self.stats()),
            )),
    {
        proof {
            use_type_invariant(self);
            reveal_strlit("skaters");
        }
        let stats = match &self.club_stats {
            Some(s) => s,
            None => {
                return None;
            },
        };
        proof {
            lemma_skaters_by_points_sorted(stats.skaters@);
        }
        if stats.skaters.len() == 0 {
            return None;
        }
        let sorted = sort_skaters_by_points(&stats.skaters);
        let header = format_roster_header("SKATERS", stats.skaters.len());
        let table = create_club_skater_table(&sorted).with_header(header.as_str()).with_focused_row(
            focus.focused_table_row("skaters"),
        ).with_margin(0);
        Some(DocumentElement::table("skaters", table))
    }

    /// The goalies by games played in the table "goalies", when there are
    /// any.
    fn build_goalies_table(&self, focus: &FocusContext) -> (r: Option<DocumentElement>)
        ensures
            shown_goalies(self.stats()).len() > 0 <==> r is Some,
            r matches Some(e) ==> is_roster_table(
                e,
                "goalies"@,
                roster_header("GOALIES"@, shown_goalies(self.stats()).len()),
                *focus,
                shown_goalies(self.stats()).len(),
            ) && (e matches DocumentElement::Table { widget, .. } && club_goalie_table(
                widget@,
                shown_goalies(self.stats()),
            )),
    {
        proof {
            use_type_invariant(self);
            reveal_strlit("goalies");
        }
        let stats = match &self.club_stats {
            Some(s) => s,
            None => {
                return None;
            },
        };
        proof {
            lemma_goalies_by_games_sorted(stats.goalies@);
        }
        if stats.goalies.len() == 0 {
            return None;
        }
        let sorted = sort_goalies_by_games(&stats.goalies);
        let header = format_roster_header("GOALIES", stats.goalies.len());
        let table = create_club_goalie_table(&sorted).with_header(header.as_str()).with_focused_row(
            focus.focused_table_row("goalies"),
        ).with_margin(0);
        Some(DocumentElement::table("goalies", table))
    }
}

impl Document for TeamDetailDocumentContent {
    /// The team's details.
    open spec fn built(&self, focus: FocusContext, r: Seq<DocumentElement>) -> bool {
        team_elements(r, self.abbrev(), self.standing(), self.stats(), focus)
    }

    /// Build the layout described above.
    fn build(&self, focus: &FocusContext) -> (r: Vec<DocumentElement>)
    {
        let head = match &self.standing {
            Some(st) => {
                let mut h = st.team_name.clone();
                h.append(" ");
                h.append(st.team_common_name.as_str());
                DocumentBuilder::new().heading(1, h.as_str()).text(format_record(st).as_str()).spacer(
                    1,
                ).build()
            },
            None => DocumentBuilder::new().heading(1, self.team_abbrev.as_str()).spacer(1).build(),
        };
        let mut skaters: Vec<DocumentElement> = Vec::new();
        if let Some(t) = self.build_skaters_table(focus) {
            skaters = DocumentBuilder::new().element(t).spacer(1).build();
        }
        let mut goalies: Vec<DocumentElement> = Vec::new();
        if let Some(t) = self.build_goalies_table(focus) {
            goalies = DocumentBuilder::new().element(t).build();
        }
        let ghost h = head@;
        let ghost sk = skaters@;
        let ghost gl = goalies@;
        let r = DocumentBuilder::new().elements(head).elements(skaters).elements(goalies).build();
        proof {
            let a: int = h.len() as int;
            let b: int = a + sk.len();
            assert(r@ == h + sk + gl);
            assert(r@[0] == h[0]);
            assert(r@[a - 1] == h[a - 1]);
            if self.standing() is Some {
                assert(r@[1] == h[1]);
            }
            if sk.len() > 0 {
                assert(r@[a] == sk[0]);
                assert(r@[a + 1] == sk[1]);
            }
            if gl.len() > 0 {
                assert(r@[b] == gl[0]);
            }
        }
        r
    }

    /// "<place> <common name>", or the abbreviation.
    fn title(&self) -> (s: String)
        ensures
            s@ == match self.standing() {
                Some(st) => team_heading(st),
                None => self.abbrev(),
            },
    {
        match &self.standing {
            Some(st) => {
                let mut h = st.team_name.clone();
                h.append(" ");
                h.append(st.team_common_name.as_str());
                h
            },
            None => self.team_abbrev.clone(),
        }
    }

    /// "team_detail_<abbrev>".
    fn id(&self) -> (s: String)
        ensures
            s@ == "team_detail_"@ + self.abbrev(),
    {
        let mut s = String::from_str("team_detail_");
        s.append(self.team_abbrev.as_str());
        s
    }
}

/// The team details component.
#[derive(Debug)]
pub struct TeamDetailDocument;

impl TeamDetailDocument {
    /// The message shown in place of the document: while the team loads,
    /// or when it has no stats; none when the document can be shown.
    pub fn placeholder(team_abbrev: &str, loading: bool, has_stats: bool) -> (r: Option<String>)
        ensures
            loading ==> (r matches Some(m) && m@ == "Loading "@ + team_abbrev@
                + " team details..."@),
            !loading && !has_stats ==> (r matches Some(m) && m@ == "No stats available for "@
                + team_abbrev@),
            !loading && has_stats ==> r is None,
    {
        if loading {
            let mut m = String::from_str("Loading ");
            m.append(team_abbrev);
            m.append(" team details...");
            Some(m)
        } else if !has_stats {
            let mut m = String::from_str("No stats available for ");
            m.append(team_abbrev);
            Some(m)
        } else {
            None
        }
    }
}


/// The position of the first team with the given abbreviation among the
/// standings' abbreviations, if any: the standing a team panel shows.
pub fn find_team_standing(abbrevs: &Vec<String>, abbrev: &str) -> (r: Option<usize>)
    ensures
        match r {
            Some(i) => i < abbrevs@.len() && abbrevs@[i as int]@ == abbrev@ && forall|j: int|
                0 <= j < i ==> (#[trigger] abbrevs@[j])@ != abbrev@,
            None => forall|j: int| 0 <= j < abbrevs@.len() ==> (#[trigger] abbrevs@[j])@ != abbrev@,
        },
{
    let n = abbrevs.len();
    let mut i: usize = 0;
    while i < n
        invariant
            i <= n,
            n == abbrevs@.len(),
            forall|j: int| 0 <= j < i ==> (#[trigger] abbrevs@[j])@ != abbrev@,
        decreases n - i,
    {
        if str_eq(abbrevs[i].as_str(), abbrev) {
            return Some(i);
        }
        i = i + 1;
    }
    None
}

} // verus!
