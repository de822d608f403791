//! League standings: the standings table, the order by points, and the
//! documents that group the teams by league, conference, division and
//! wildcard race.

use vstd::prelude::*;

use crate::builder::DocumentBuilder;
use crate::document::{Document, FocusContext, focused_row_of, opt_key};
use crate::elements::{DocumentElement, TABLE_COLUMN_HEADER_HEIGHT, table_focus, views};
use crate::focus::FocusKey;
use crate::stats_tables::{CellKey, cell_key};
use crate::table::{Alignment, CellValue, TableView, TableWidget};
use crate::text::{i64_to_string, signed_decimal};

verus! {

/// A team's line in the standings.
#[derive(Debug)]
pub struct StandingRow {
    /// Short team name ("Maple Leafs").
    pub team_common_name: String,
    /// Team abbreviation ("TOR").
    pub team_abbrev: String,
    pub division_name: String,
    pub conference_name: Option<String>,
    pub wins: i32,
    pub losses: i32,
    pub ot_losses: i32,
    pub points: i32,
}

impl Clone for StandingRow {
    fn clone(&self) -> (res: Self)
        ensures
            res == *self,
    {
        StandingRow {
            team_common_name: self.team_common_name.clone(),
            team_abbrev: self.team_abbrev.clone(),
            division_name: self.division_name.clone(),
            conference_name: match &self.conference_name {
                Some(c) => Some(c.clone()),
                None => None,
            },
            wins: self.wins,
            losses: self.losses,
            ot_losses: self.ot_losses,
            points: self.points,
        }
    }
}

/// Games played: wins, losses and overtime losses.
pub open spec fn games_played_of(r: StandingRow) -> int {
    r.wins + r.losses + r.ot_losses
}

/// Games played: wins, losses and overtime losses.
pub fn games_played(r: &StandingRow) -> (n: i64)
    ensures
        n == games_played_of(*r),
{
    r.wins as i64 + r.losses as i64 + r.ot_losses as i64
}

// ---------------------------------------------------------------------------
// The standings table
// ---------------------------------------------------------------------------

/// The number of standings columns.
pub const STANDINGS_COLUMNS: usize = 6;

/// The most rows a table of a document can have: its rows' lines must stay
/// within the 16-bit line range below its header and column headers.
pub const MAX_TABLE_ROWS: usize = 65530;

/// The standings columns: header, width and alignment.
pub open spec fn standings_column(c: int) -> (Seq<char>, usize, Alignment) {
    if c == 0 {
        ("Team"@, 26, Alignment::Left)
    } else if c == 1 {
        ("GP"@, 4, Alignment::Right)
    } else if c == 2 {
        ("W"@, 4, Alignment::Right)
    } else if c == 3 {
        ("L"@, 3, Alignment::Right)
    } else if c == 4 {
        ("OT"@, 3, Alignment::Right)
    } else {
        ("PTS"@, 5, Alignment::Right)
    }
}

/// The cell of a team in column `c`.
pub open spec fn standings_cell(r: StandingRow, c: int) -> CellKey {
    if c == 0 {
        CellKey::Team(r.team_common_name@, r.team_abbrev@)
    } else {
        CellKey::Text(
            signed_decimal(
                if c == 1 {
                    games_played_of(r)
                } else if c == 2 {
                    r.wins as int
                } else if c == 3 {
                    r.losses as int
                } else if c == 4 {
                    r.ot_losses as int
                } else {
                    r.points as int
                },
            ),
        )
    }
}

/// Whether a table holds the standings columns and the lines of the given
/// teams, with nothing set but possibly a header, a focused row and the
/// margin.
pub open spec fn standings_table(v: TableView, rows: Seq<StandingRow>) -> bool {
    &&& v.headers.len() == STANDINGS_COLUMNS
    &&& forall|c: int|
        0 <= c < STANDINGS_COLUMNS ==> (#[trigger] v.headers[c])@ == standings_column(c).0
            && v.widths[c] == standings_column(c).1 && v.aligns[c] == standings_column(c).2
    &&& v.cells.len() == rows.len()
    &&& forall|r: int, c: int|
        0 <= r < rows.len() && 0 <= c < STANDINGS_COLUMNS ==> cell_key(#[trigger] v.cells[r][c])
            == standings_cell(rows[r], c)
}

/// A standings column: its header, width and alignment.
#[derive(Debug)]
pub struct StandingsColumn {
    pub header: String,
    pub width: usize,
    pub align: Alignment,
}

/// The standings columns: team, games played, wins, losses, overtime
/// losses and points.
pub fn standings_columns() -> (v: Vec<StandingsColumn>)
    ensures
        v@.len() == STANDINGS_COLUMNS,
        forall|c: int|
            0 <= c < STANDINGS_COLUMNS ==> (#[trigger] v@[c]).header@ == standings_column(c).0
                && v@[c].width == standings_column(c).1 && v@[c].align == standings_column(c).2,
{
    proof {
        reveal_strlit("Team");
        reveal_strlit("GP");
        reveal_strlit("W");
        reveal_strlit("L");
        reveal_strlit("OT");
        reveal_strlit("PTS");
    }
    vec![
        StandingsColumn { header: String::from_str("Team"), width: 26, align: Alignment::Left },
        StandingsColumn { header: String::from_str("GP"), width: 4, align: Alignment::Right },
        StandingsColumn { header: String::from_str("W"), width: 4, align: Alignment::Right },
        StandingsColumn { header: String::from_str("L"), width: 3, align: Alignment::Right },
        StandingsColumn { header: String::from_str("OT"), width: 3, align: Alignment::Right },
        StandingsColumn { header: String::from_str("PTS"), width: 5, align: Alignment::Right },
    ]
}

/// The cell of a team in column `c`.
fn standings_cell_value(r: &StandingRow, c: usize) -> (v: CellValue)
    ensures
        cell_key(v) == standings_cell(*r, c as int),
{
    if c == 0 {
        CellValue::TeamLink { display: r.team_common_name.clone(), team_abbrev: r.team_abbrev.clone() }
    } else {
        let n: i64 = if c == 1 {
            games_played(r)
        } else if c == 2 {
            r.wins as i64
        } else if c == 3 {
            r.losses as i64
        } else if c == 4 {
            r.ot_losses as i64
        } else {
            r.points as i64
        };
        CellValue::Text(i64_to_string(n))
    }
}

/// A standings table of the given teams, in the given order.
pub fn create_standings_table(standings: Vec<StandingRow>) -> (t: TableWidget)
    ensures
        standings_table(t@, standings@),
        t@.header is None,
        t@.focused_row is None,
        t@.margin == 0,
{
    let headers: Vec<&str> = vec!["Team", "GP", "W", "L", "OT", "PTS"];
    let widths: Vec<usize> = vec![26, 4, 4, 3, 3, 5];
    let aligns: Vec<Alignment> = vec![
        Alignment::Left, Alignment::Right, Alignment::Right, Alignment::Right, Alignment::Right,
        Alignment::Right,
    ];
    proof {
        reveal_strlit("Team");
        reveal_strlit("GP");
        reveal_strlit("W");
        reveal_strlit("L");
        reveal_strlit("OT");
        reveal_strlit("PTS");
        assert forall|c: int| 0 <= c < STANDINGS_COLUMNS implies headers@[c]@ == standings_column(c).0
            && widths@[c] == standings_column(c).1 && aligns@[c] == standings_column(c).2 by {}
    }
    let mut column_headers: Vec<String> = Vec::new();
    let mut c: usize = 0;
    while c < STANDINGS_COLUMNS
        invariant
            c <= STANDINGS_COLUMNS,
            headers@.len() == STANDINGS_COLUMNS,
            forall|k: int|
                0 <= k < STANDINGS_COLUMNS ==> (#[trigger] headers@[k])@ == standings_column(k).0,
            column_headers@.len() == c,
            forall|k: int| 0 <= k < c ==> (#[trigger] column_headers@[k])@ == standings_column(k).0,
        decreases STANDINGS_COLUMNS - c,
    {
        column_headers.push(String::from_str(headers[c]));
        c = c + 1;
    }
    let mut cell_data: Vec<Vec<CellValue>> = Vec::new();
    let n = standings.len();
    let mut r: usize = 0;
    while r < n
        invariant
            r <= n,
            n == standings@.len(),
            cell_data@.len() == r,
            forall|i: int| 0 <= i < r ==> (#[trigger] cell_data@[i])@.len() == STANDINGS_COLUMNS,
            forall|i: int, k: int|
                0 <= i < r && 0 <= k < STANDINGS_COLUMNS ==> cell_key(#[trigger] cell_data@[i]@[k])
                    == standings_cell(standings@[i], k),
        decreases n - r,
    {
        let mut row: Vec<CellValue> = Vec::new();
        let mut k: usize = 0;
        while k < STANDINGS_COLUMNS
            invariant
                k <= STANDINGS_COLUMNS,
                r < n,
                n == standings@.len(),
                row@.len() == k,
                forall|j: int|
                    0 <= j < k ==> cell_key(#[trigger] row@[j]) == standings_cell(
                        standings@[r as int],
                        j,
                    ),
            decreases STANDINGS_COLUMNS - k,
        {
            row.push(standings_cell_value(&standings[r], k));
            k = k + 1;
        }
        cell_data.push(row);
        r = r + 1;
    }
    TableWidget::from_cells(column_headers, widths, aligns, cell_data)
}

/// A standings table of the given teams with a focused row.
pub fn create_standings_table_with_selection(
    standings: Vec<StandingRow>,
    focused_row: Option<usize>,
) -> (t: TableWidget)
    ensures
        standings_table(t@, standings@),
        t@.header is None,
        t@.focused_row == focused_row,
        t@.margin == 0,
{
    let ghost rows = standings@;
    let table = create_standings_table(standings);
    let r = table.with_focused_row(focused_row);
    assert(standings_table(r@, rows)) by {
        assert(r@.headers == table@.headers);
        assert(r@.cells == table@.cells);
    }
    r
}

// ---------------------------------------------------------------------------
// Order by points
// ---------------------------------------------------------------------------

/// The first position in `s` whose team has fewer than `p` points (the
/// length of `s` when there is none).
pub open spec fn first_below(s: Seq<StandingRow>, p: i32) -> int
    decreases s.len(),
{
    if s.len() == 0 {
        0
    } else if s[0].points < p {
        0
    } else {
        1 + first_below(s.drop_first(), p)
    }
}

/// The teams ordered by points, most first; teams with equal points keep
/// their order.
pub open spec fn by_points(s: Seq<StandingRow>) -> Seq<StandingRow>
    decreases s.len(),
{
    if s.len() == 0 {
        s
    } else {
        let rest = by_points(s.drop_last());
        rest.insert(first_below(rest, s.last().points), s.last())
    }
}

/// Whether teams are in order of points, most first.
pub open spec fn points_descending(s: Seq<StandingRow>) -> bool {
    forall|i: int, j: int| 0 <= i <= j < s.len() ==> s[i].points >= s[j].points
}

/// `first_below` is the position found by a scan from the front.
proof fn lemma_first_below(s: Seq<StandingRow>, p: i32, k: int)
    requires
        0 <= k <= s.len(),
        forall|j: int| 0 <= j < k ==> (#[trigger] s[j]).points >= p,
        k == s.len() || s[k].points < p,
    ensures
        first_below(s, p) == k,
    decreases k,
{
    if k > 0 {
        lemma_first_below(s.drop_first(), p, k - 1);
    }
}

/// `first_below` lies within the sequence, after every team with at least
/// `p` points of a descending sequence and before every team with fewer.
proof fn lemma_first_below_bounds(s: Seq<StandingRow>, p: i32)
    ensures
        0 <= first_below(s, p) <= s.len(),
        forall|j: int| 0 <= j < first_below(s, p) ==> (#[trigger] s[j]).points >= p,
        first_below(s, p) < s.len() ==> s[first_below(s, p)].points < p,
    decreases s.len(),
{
    if s.len() > 0 && s[0].points >= p {
        lemma_first_below_bounds(s.drop_first(), p);
        assert forall|j: int| 0 <= j < first_below(s, p) implies (#[trigger] s[j]).points >= p by {
            if j > 0 {
                assert(s[j] == s.drop_first()[j - 1]);
            }
        }
    }
}

/// Ordering by points gives the same teams, in order of points.
pub proof fn lemma_by_points_sorted(s: Seq<StandingRow>)
    ensures
        points_descending(by_points(s)),
        by_points(s).to_multiset() == s.to_multiset(),
        by_points(s).len() == s.len(),
    decreases s.len(),
{
    broadcast use vstd::seq_lib::group_to_multiset_ensures;

    if s.len() > 0 {
        let rest = by_points(s.drop_last());
        let x = s.last();
        lemma_by_points_sorted(s.drop_last());
        lemma_first_below_bounds(rest, x.points);
        let k = first_below(rest, x.points);
        vstd::seq_lib::to_multiset_insert(rest, k, x);
        assert(s.drop_last().push(x) =~= s);
        let r = rest.insert(k, x);
        assert forall|i: int, j: int| 0 <= i <= j < r.len() implies r[i].points >= r[j].points by {
            if i < k && j < k {
            } else if i < k && j == k {
            } else if i < k && j > k {
                assert(r[j] == rest[j - 1]);
            } else if i == k && j > k {
                assert(r[j] == rest[j - 1]);
            } else if i > k {
                assert(r[i] == rest[i - 1]);
                assert(r[j] == rest[j - 1]);
            }
        }
    }
}

/// The teams ordered by points, most first; teams with equal points keep
/// their order.
pub fn sort_by_points_desc(standings: Vec<StandingRow>) -> (r: Vec<StandingRow>)
    ensures
        r@ == by_points(standings@),
{
    let mut out: Vec<StandingRow> = Vec::new();
    let n = standings.len();
    let mut i: usize = 0;
    while i < n
        invariant
            i <= n,
            n == standings@.len(),
            out@ == by_points(standings@.take(i as int)),
        decreases n - i,
    {
        let x = standings[i].clone();
        let p = x.points;
        let m = out.len();
        let mut k: usize = 0;
        while k < m && out[k].points >= p
            invariant
                k <= m,
                m == out@.len(),
                forall|j: int| 0 <= j < k ==> (#[trigger] out@[j]).points >= p,
            decreases m - k,
        {
            k = k + 1;
        }
        proof {
            lemma_first_below(out@, p, k as int);
            assert(standings@.take(i + 1).drop_last() =~= standings@.take(i as int));
        }
        out.insert(k, x);
        i = i + 1;
    }
    assert(standings@.take(n as int) =~= standings@);
    out
}

// ---------------------------------------------------------------------------
// Grouping
// ---------------------------------------------------------------------------

/// The teams of a division, in their order.
pub open spec fn division_teams(s: Seq<StandingRow>, division: Seq<char>) -> Seq<StandingRow>
    decreases s.len(),
{
    if s.len() == 0 {
        s
    } else if s.last().division_name@ == division {
        division_teams(s.drop_last(), division).push(s.last())
    } else {
        division_teams(s.drop_last(), division)
    }
}

/// The teams of a conference, in their order.
pub open spec fn conference_teams(s: Seq<StandingRow>, conference: Seq<char>) -> Seq<StandingRow>
    decreases s.len(),
{
    if s.len() == 0 {
        s
    } else if s.last().conference_name matches Some(c) && c@ == conference {
        conference_teams(s.drop_last(), conference).push(s.last())
    } else {
        conference_teams(s.drop_last(), conference)
    }
}

/// A selection of teams has no more teams than it was taken from.
proof fn lemma_teams_len(s: Seq<StandingRow>, name: Seq<char>)
    ensures
        division_teams(s, name).len() <= s.len(),
        conference_teams(s, name).len() <= s.len(),
    decreases s.len(),
{
    if s.len() > 0 {
        lemma_teams_len(s.drop_last(), name);
    }
}

/// The teams of a division, in their order.
pub fn teams_in_division(standings: &[StandingRow], division: &str) -> (r: Vec<StandingRow>)
    ensures
        r@ == division_teams(standings@, division@),
{
    let mut out: Vec<StandingRow> = Vec::new();
    let n = standings.len();
    let mut i: usize = 0;
    while i < n
        invariant
            i <= n,
            n == standings@.len(),
            out@ == division_teams(standings@.take(i as int), division@),
        decreases n - i,
    {
        proof {
            assert(standings@.take(i + 1).drop_last() =~= standings@.take(i as int));
        }
        if crate::text::str_eq(standings[i].division_name.as_str(), division) {
            out.push(standings[i].clone());
        }
        i = i + 1;
    }
    assert(standings@.take(n as int) =~= standings@);
    out
}

/// The teams of a conference, in their order.
pub fn teams_in_conference(standings: &[StandingRow], conference: &str) -> (r: Vec<StandingRow>)
    ensures
        r@ == conference_teams(standings@, conference@),
{
    let mut out: Vec<StandingRow> = Vec::new();
    let n = standings.len();
    let mut i: usize = 0;
    while i < n
        invariant
            i <= n,
            n == standings@.len(),
            out@ == conference_teams(standings@.take(i as int), conference@),
        decreases n - i,
    {
        proof {
            assert(standings@.take(i + 1).drop_last() =~= standings@.take(i as int));
        }
        let member = match &standings[i].conference_name {
            Some(c) => crate::text::str_eq(c.as_str(), conference),
            None => false,
        };
        if member {
            out.push(standings[i].clone());
        }
        i = i + 1;
    }
    assert(standings@.take(n as int) =~= standings@);
    out
}

// ---------------------------------------------------------------------------
// Standings documents
// ---------------------------------------------------------------------------

/// `e` is the standings table `name` with the given header and teams, its
/// focused row taken from the focus context, and a focusable element per
/// team cell.
pub open spec fn is_standings_table(
    e: DocumentElement,
    name: Seq<char>,
    header: Seq<char>,
    teams: Seq<StandingRow>,
    focus: FocusContext,
) -> bool {
    e matches DocumentElement::Table { widget, focusable } && standings_table(widget@, teams)
        && (widget@.header matches Some(h) && h@ == header) && widget@.focused_row
        == focused_row_of(focus, name) && widget@.margin == 0 && views(focusable@) == table_focus(
        name,
        widget@,
        teams.len() as int,
    )
}

/// The standings table `name` with a header, for the given teams.
pub fn standings_table_element(
    name: &str,
    header: &str,
    teams: Vec<StandingRow>,
    focus: &FocusContext,
) -> (e: DocumentElement)
    requires
        teams@.len() <= MAX_TABLE_ROWS,
    ensures
        is_standings_table(e, name@, header@, teams@, *focus),
{
    let ghost t = teams@;
    let table = create_standings_table(teams).with_header(header).with_focused_row(
        focus.focused_table_row(name),
    ).with_margin(0);
    DocumentElement::table(name, table)
}

/// `prefix` + "_" + `suffix`.
fn table_name(prefix: &str, suffix: &str) -> (s: String)
    ensures
        s@ == prefix@ + "_"@ + suffix@,
{
    let mut s = String::from_str(prefix);
    s.append("_");
    s.append(suffix);
    proof {
        reveal_strlit("_");
    }
    s
}

/// A division: its name, the lower-case name used in table names, and its
/// teams.
pub struct Division {
    pub name: String,
    pub key: String,
    pub teams: Vec<StandingRow>,
}

impl View for Division {
    type V = (Seq<char>, Seq<char>, Seq<StandingRow>);

    open spec fn view(&self) -> (Seq<char>, Seq<char>, Seq<StandingRow>) {
        (self.name@, self.key@, self.teams@)
    }
}

/// The divisions by their views.
pub open spec fn division_views(s: Seq<Division>) -> Seq<(Seq<char>, Seq<char>, Seq<StandingRow>)> {
    s.map_values(|d: Division| d@)
}

/// The elements of a column of divisions: for each division its table
/// "<prefix>_<key>" headed by its name, with a one-line spacer between two
/// divisions.
pub open spec fn division_column(
    children: Seq<DocumentElement>,
    prefix: Seq<char>,
    divisions: Seq<(Seq<char>, Seq<char>, Seq<StandingRow>)>,
    focus: FocusContext,
) -> bool {
    &&& children.len() == if divisions.len() == 0 {
        0
    } else {
        2 * divisions.len() - 1
    }
    &&& forall|i: int|
        #![trigger divisions[i]]
        0 <= i < divisions.len() ==> is_standings_table(
            children[2 * i],
            prefix + "_"@ + divisions[i].1,
            divisions[i].0,
            divisions[i].2,
            focus,
        ) && (i + 1 < divisions.len() ==> children[2 * i + 1] == DocumentElement::Spacer {
            height: 1,
        })
}

/// The first `n` divisions of a column are in place: each one's table,
/// and the spacer after it when another division follows within the
/// first `n`.
pub open spec fn column_prefix(
    children: Seq<DocumentElement>,
    prefix: Seq<char>,
    divisions: Seq<(Seq<char>, Seq<char>, Seq<StandingRow>)>,
    focus: FocusContext,
    n: int,
) -> bool {
    forall|k: int|
        #![trigger divisions[k]]
        0 <= k < n ==> is_standings_table(
            children[2 * k],
            prefix + "_"@ + divisions[k].1,
            divisions[k].0,
            divisions[k].2,
            focus,
        ) && (k + 1 < n ==> children[2 * k + 1] == DocumentElement::Spacer { height: 1 })
}

/// Adding the next division's table (after a spacer, unless it is the
/// first) keeps the column's divisions in place.
proof fn lemma_column_step(
    before: Seq<DocumentElement>,
    children: Seq<DocumentElement>,
    table: DocumentElement,
    prefix: Seq<char>,
    divisions: Seq<(Seq<char>, Seq<char>, Seq<StandingRow>)>,
    focus: FocusContext,
    i: int,
)
    requires
        0 <= i < divisions.len(),
        before.len() == if i == 0 {
            0
        } else {
            2 * i - 1
        },
        column_prefix(before, prefix, divisions, focus, i),
        children == (if i > 0 {
            before.push(DocumentElement::Spacer { height: 1 })
        } else {
            before
        }).push(table),
        is_standings_table(
            table,
            prefix + "_"@ + divisions[i].1,
            divisions[i].0,
            divisions[i].2,
            focus,
        ),
    ensures
        column_prefix(children, prefix, divisions, focus, i + 1),
        children.len() == 2 * (i + 1) - 1,
{
    let sp = DocumentElement::Spacer { height: 1 };
    let mid = if i > 0 {
        before.push(sp)
    } else {
        before
    };
    assert(children.len() == mid.len() + 1);
    assert(mid.len() == 2 * i);
    assert(children[2 * i] == table);
    assert forall|j: int| 0 <= j < before.len() implies children[j] == before[j] by {
        assert(children[j] == mid[j]);
    }
    if i > 0 {
        assert(children[2 * i - 1] == sp);
    }
    assert forall|k: int|
        #![trigger divisions[k]]
        0 <= k < i + 1 implies is_standings_table(
        children[2 * k],
        prefix + "_"@ + divisions[k].1,
        divisions[k].0,
        divisions[k].2,
        focus,
    ) && (k + 1 < i + 1 ==> children[2 * k + 1] == sp) by {
        if k < i {
            assert(children[2 * k] == before[2 * k]);
            if k + 1 < i {
                assert(children[2 * k + 1] == before[2 * k + 1]);
            } else if k + 1 == i {
                assert(children[2 * k + 1] == sp);
            }
        } else {
            assert(k == i);
            assert(children[2 * k] == table);
        }
    }
    assert(column_prefix(children, prefix, divisions, focus, i + 1));
}

/// A column of divisions, one under another: each division's table headed
/// by its name, a blank line between two divisions.
pub fn build_division_group(divisions: &Vec<Division>, prefix: &str, focus: &FocusContext) -> (e:
    DocumentElement)
    requires
        forall|i: int|
            0 <= i < divisions@.len() ==> (#[trigger] divisions@[i]).teams@.len() <= MAX_TABLE_ROWS,
    ensures
        e matches DocumentElement::Group { children, style } && style is None && division_column(
            children@,
            prefix@,
            division_views(divisions@),
            *focus,
        ),
{
    let ghost dv = division_views(divisions@);
    let mut children: Vec<DocumentElement> = Vec::new();
    let n = divisions.len();
    let mut i: usize = 0;
    while i < n
        invariant
            i <= n,
            n == divisions@.len(),
            dv == division_views(divisions@),
            forall|k: int|
                0 <= k < divisions@.len() ==> (#[trigger] divisions@[k]).teams@.len()
                    <= MAX_TABLE_ROWS,
            children@.len() == if i == 0 {
                0
            } else {
                2 * i - 1
            },
            column_prefix(children@, prefix@, dv, *focus, i as int),
        decreases n - i,
    {
        let ghost before = children@;
        if i > 0 {
            children.push(DocumentElement::spacer(1));
        }
        let d = &divisions[i];
        let name = table_name(prefix, d.key.as_str());
        let table = standings_table_element(name.as_str(), d.name.as_str(), d.teams.clone(), focus);
        children.push(table);
        proof {
            assert(dv[i as int] == divisions@[i as int]@);
            lemma_column_step(before, children@, table, prefix@, dv, *focus, i as int);
        }
        i = i + 1;
    }
    assert(column_prefix(children@, prefix@, dv, *focus, n as int));
    DocumentElement::group(children)
}

/// A division with its name, key and teams.
pub open spec fn is_division(
    d: (Seq<char>, Seq<char>, Seq<StandingRow>),
    name: Seq<char>,
    key: Seq<char>,
    all: Seq<StandingRow>,
) -> bool {
    d.0 == name && d.1 == key && d.2 == by_points(division_teams(all, name))
}

/// The division `name` of the given teams, ordered by points.
fn division_of(all: &Vec<StandingRow>, name: &str, key: &str) -> (d: Division)
    ensures
        is_division(d@, name@, key@, all@),
{
    Division {
        name: String::from_str(name),
        key: String::from_str(key),
        teams: sort_by_points_desc(teams_in_division(all.as_slice(), name)),
    }
}

/// League standings: one table of all teams.
#[derive(Debug)]
pub struct LeagueStandingsDocument {
    standings: Vec<StandingRow>,
}

impl LeagueStandingsDocument {
    #[verifier::type_invariant]
    closed spec fn fits(self) -> bool {
        self.standings@.len() <= MAX_TABLE_ROWS
    }

    /// The teams shown.
    pub closed spec fn teams(self) -> Seq<StandingRow> {
        self.standings@
    }

    /// A league standings document of the given teams, in their order.
    pub fn new(standings: Vec<StandingRow>) -> (d: Self)
        requires
            standings@.len() <= MAX_TABLE_ROWS,
        ensures
            d.teams() == standings@,
    {
        LeagueStandingsDocument { standings }
    }
}

impl Document for LeagueStandingsDocument {
    /// One table, "league_standings", of all teams.
    open spec fn built(&self, focus: FocusContext, r: Seq<DocumentElement>) -> bool {
        &&& r.len() == 1
        &&& r[0] matches DocumentElement::Table { widget, focusable } && standings_table(
            widget@,
            self.teams(),
        ) && widget@.header is None && widget@.focused_row == focused_row_of(
            focus,
            "league_standings"@,
        ) && widget@.margin == 0
    }

    /// Build the layout described above.
    fn build(&self, focus: &FocusContext) -> (r: Vec<DocumentElement>)
    {
        proof {
            use_type_invariant(self);
            reveal_strlit("league_standings");
        }
        let teams = self.standings.clone();
        let plain = create_standings_table(teams);
        let row = focus.focused_table_row("league_standings");
        let table = plain.with_focused_row(row).with_margin(0);
        let ghost tv = table@;
        assert(standings_table(tv, self.teams()));
        assert(tv.header is None && tv.margin == 0);
        assert(tv.focused_row == focused_row_of(*focus, "league_standings"@));
        let b = DocumentBuilder::new().table("league_standings", table);
        assert(b@.len() == 1);
        let r = b.build();
        assert(r@[0] matches DocumentElement::Table { widget, focusable } && widget@ == tv);
        r
    }

    fn title(&self) -> (s: String)
        ensures
            s@ == "League Standings"@,
    {
        String::from_str("League Standings")
    }

    fn id(&self) -> (s: String)
        ensures
            s@ == "league_standings"@,
    {
        String::from_str("league_standings")
    }
}

/// Conference standings: the two conferences side by side.
#[derive(Debug)]
pub struct ConferenceStandingsDocument {
    standings: Vec<StandingRow>,
    western_first: bool,
}

impl ConferenceStandingsDocument {
    #[verifier::type_invariant]
    closed spec fn fits(self) -> bool {
        self.standings@.len() <= MAX_TABLE_ROWS
    }

    /// The teams shown.
    pub closed spec fn teams(self) -> Seq<StandingRow> {
        self.standings@
    }

    /// Whether the Western conference comes first.
    pub closed spec fn west_first(self) -> bool {
        self.western_first
    }

    /// A conference standings document.
    pub fn new(standings: Vec<StandingRow>, western_first: bool) -> (d: Self)
        requires
            standings@.len() <= MAX_TABLE_ROWS,
        ensures
            d.teams() == standings@,
            d.west_first() == western_first,
    {
        ConferenceStandingsDocument { standings, western_first }
    }

    /// The Eastern and Western conferences, each ordered by points.
    pub fn group_by_conference(&self) -> (r: (Vec<StandingRow>, Vec<StandingRow>))
        ensures
            r.0@ == by_points(conference_teams(self.teams(), "Eastern"@)),
            r.1@ == by_points(conference_teams(self.teams(), "Western"@)),
    {
        proof {
            reveal_strlit("Eastern");
            reveal_strlit("Western");
        }
        let eastern = sort_by_points_desc(teams_in_conference(self.standings.as_slice(), "Eastern"));
        let western = sort_by_points_desc(teams_in_conference(self.standings.as_slice(), "Western"));
        (eastern, western)
    }
}

impl Document for ConferenceStandingsDocument {
    /// The two conferences side by side, each in a table ordered by points
    /// ("conference_left", "conference_right"); the Eastern conference on
    /// the left unless the Western one comes first.
    open spec fn built(&self, focus: FocusContext, r: Seq<DocumentElement>) -> bool {
        ({
            let east = by_points(conference_teams(self.teams(), "Eastern"@));
            let west = by_points(conference_teams(self.teams(), "Western"@));
            let (lt, rt, lh, rh) = if self.west_first() {
                (west, east, "Western"@, "Eastern"@)
            } else {
                (east, west, "Eastern"@, "Western"@)
            };
            &&& r.len() == 1
            &&& r[0] matches DocumentElement::Row { children, gap } && gap == 2
                && children@.len() == 2 && is_standings_table(
                children@[0],
                "conference_left"@,
                lh,
                lt,
                focus,
            ) && is_standings_table(children@[1], "conference_right"@, rh, rt, focus)
        })
    }

    /// Build the layout described above.
    fn build(&self, focus: &FocusContext) -> (r: Vec<DocumentElement>)
    {
        proof {
            use_type_invariant(self);
            reveal_strlit("Eastern");
            reveal_strlit("Western");
            lemma_teams_len(self.standings@, "Eastern"@);
            lemma_teams_len(self.standings@, "Western"@);
            lemma_by_points_sorted(conference_teams(self.standings@, "Eastern"@));
            lemma_by_points_sorted(conference_teams(self.standings@, "Western"@));
        }
        let (eastern, western) = self.group_by_conference();
        let (left_teams, right_teams, left_header, right_header) = if self.western_first {
            (western, eastern, "Western", "Eastern")
        } else {
            (eastern, western, "Eastern", "Western")
        };
        let left = standings_table_element("conference_left", left_header, left_teams, focus);
        let right = standings_table_element("conference_right", right_header, right_teams, focus);
        DocumentBuilder::new().row(vec![left, right]).build()
    }

    fn title(&self) -> (s: String)
        ensures
            s@ == "Conference Standings"@,
    {
        String::from_str("Conference Standings")
    }

    fn id(&self) -> (s: String)
        ensures
            s@ == "conference_standings"@,
    {
        String::from_str("conference_standings")
    }
}

/// Division standings: two columns of two divisions each, one conference
/// per column.
#[derive(Debug)]
pub struct DivisionStandingsDocument {
    standings: Vec<StandingRow>,
    western_first: bool,
}

impl DivisionStandingsDocument {
    #[verifier::type_invariant]
    closed spec fn fits(self) -> bool {
        self.standings@.len() <= MAX_TABLE_ROWS
    }

    /// The teams shown.
    pub closed spec fn teams(self) -> Seq<StandingRow> {
        self.standings@
    }

    /// Whether the Western conference comes first.
    pub closed spec fn west_first(self) -> bool {
        self.western_first
    }

    /// A division standings document.
    pub fn new(standings: Vec<StandingRow>, western_first: bool) -> (d: Self)
        requires
            standings@.len() <= MAX_TABLE_ROWS,
        ensures
            d.teams() == standings@,
            d.west_first() == western_first,
    {
        DivisionStandingsDocument { standings, western_first }
    }

    /// The Eastern divisions (Atlantic, Metropolitan) and the Western ones
    /// (Central, Pacific), each ordered by points.
    pub fn group_by_division(&self) -> (r: (Vec<Division>, Vec<Division>))
        ensures
            r.0@.len() == 2,
            is_division(r.0@[0]@, "Atlantic"@, "atlantic"@, self.teams()),
            is_division(r.0@[1]@, "Metropolitan"@, "metropolitan"@, self.teams()),
            r.1@.len() == 2,
            is_division(r.1@[0]@, "Central"@, "central"@, self.teams()),
            is_division(r.1@[1]@, "Pacific"@, "pacific"@, self.teams()),
    {
        let eastern = vec![
            division_of(&self.standings, "Atlantic", "atlantic"),
            division_of(&self.standings, "Metropolitan", "metropolitan"),
        ];
        let western = vec![
            division_of(&self.standings, "Central", "central"),
            division_of(&self.standings, "Pacific", "pacific"),
        ];
        (eastern, western)
    }
}

/// Each division of the pair has no more teams than the document.
proof fn lemma_divisions_fit(divs: Seq<Division>, all: Seq<StandingRow>)
    requires
        all.len() <= MAX_TABLE_ROWS,
        forall|i: int|
            0 <= i < divs.len() ==> exists|name: Seq<char>, key: Seq<char>|
                is_division(#[trigger] divs[i]@, name, key, all),
    ensures
        forall|i: int| 0 <= i < divs.len() ==> (#[trigger] divs[i]).teams@.len() <= MAX_TABLE_ROWS,
{
    assert forall|i: int| 0 <= i < divs.len() implies (#[trigger] divs[i]).teams@.len()
        <= MAX_TABLE_ROWS by {
        let (name, key) = choose|name: Seq<char>, key: Seq<char>| is_division(divs[i]@, name, key, all);
        lemma_teams_len(all, name);
        lemma_by_points_sorted(division_teams(all, name));
    }
}

/// The divisions of a conference: the two given names, each ordered by
/// points.
pub open spec fn conference_divisions(
    all: Seq<StandingRow>,
    n1: Seq<char>,
    k1: Seq<char>,
    n2: Seq<char>,
    k2: Seq<char>,
) -> Seq<(Seq<char>, Seq<char>, Seq<StandingRow>)> {
    seq![
        (n1, k1, by_points(division_teams(all, n1))),
        (n2, k2, by_points(division_teams(all, n2))),
    ]
}

impl Document for DivisionStandingsDocument {
    /// Two columns side by side, "division_left" and "division_right": the
    /// Eastern divisions (Atlantic, Metropolitan) on the left unless the
    /// Western ones (Central, Pacific) come first.
    open spec fn built(&self, focus: FocusContext, r: Seq<DocumentElement>) -> bool {
        ({
            let east = conference_divisions(
                self.teams(),
                "Atlantic"@,
                "atlantic"@,
                "Metropolitan"@,
                "metropolitan"@,
            );
            let west = conference_divisions(
                self.teams(),
                "Central"@,
                "central"@,
                "Pacific"@,
                "pacific"@,
            );
            let (ld, rd) = if self.west_first() {
                (west, east)
            } else {
                (east, west)
            };
            &&& r.len() == 1
            &&& r[0] matches DocumentElement::Row { children, gap } && gap == 2
                && children@.len() == 2 && (children@[0] matches DocumentElement::Group {
                children: lc,
                style: ls,
            } && ls is None && division_column(lc@, "division_left"@, ld, focus)) && (
            children@[1] matches DocumentElement::Group { children: rc, style: rs }
                && rs is None && division_column(rc@, "division_right"@, rd, focus))
        })
    }

    /// Build the layout described above.
    fn build(&self, focus: &FocusContext) -> (r: Vec<DocumentElement>)
    {
        proof {
            use_type_invariant(self);
        }
        let (eastern, western) = self.group_by_division();
        proof {
            reveal_strlit("Atlantic");
            reveal_strlit("Metropolitan");
            reveal_strlit("Central");
            reveal_strlit("Pacific");
            lemma_divisions_fit(eastern@, self.standings@);
            lemma_divisions_fit(western@, self.standings@);
            assert(division_views(eastern@) =~= conference_divisions(
                self.teams(),
                "Atlantic"@,
                "atlantic"@,
                "Metropolitan"@,
                "metropolitan"@,
            ));
            assert(division_views(western@) =~= conference_divisions(
                self.teams(),
                "Central"@,
                "central"@,
                "Pacific"@,
                "pacific"@,
            ));
        }
        let (left_divs, right_divs) = if self.western_first {
            (western, eastern)
        } else {
            (eastern, western)
        };
        let left = build_division_group(&left_divs, "division_left", focus);
        let right = build_division_group(&right_divs, "division_right", focus);
        DocumentBuilder::new().row(vec![left, right]).build()
    }

    fn title(&self) -> (s: String)
        ensures
            s@ == "Division Standings"@,
    {
        String::from_str("Division Standings")
    }

    fn id(&self) -> (s: String)
        ensures
            s@ == "division_standings"@,
    {
        String::from_str("division_standings")
    }
}

// ---------------------------------------------------------------------------
// Wildcard standings
// ---------------------------------------------------------------------------

/// The number of teams of a division sure of a playoff place.
pub const DIVISION_LEADERS: usize = 3;

/// The division leaders: the first three teams (all when fewer).
pub open spec fn leaders(s: Seq<StandingRow>) -> Seq<StandingRow> {
    if s.len() <= DIVISION_LEADERS {
        s
    } else {
        s.take(DIVISION_LEADERS as int)
    }
}

/// The teams after the division leaders.
pub open spec fn chasers(s: Seq<StandingRow>) -> Seq<StandingRow> {
    if s.len() <= DIVISION_LEADERS {
        Seq::empty()
    } else {
        s.skip(DIVISION_LEADERS as int)
    }
}

/// The wildcard race of two divisions: the teams after their leaders,
/// ordered by points.
pub open spec fn wildcard_teams(d1: Seq<StandingRow>, d2: Seq<StandingRow>) -> Seq<StandingRow> {
    by_points(chasers(d1) + chasers(d2))
}

/// The elements of a division's leaders: none for a division without
/// teams, else the table "<prefix>_<key>" of its leaders headed by its name,
/// and a one-line spacer.
pub open spec fn leaders_section(
    children: Seq<DocumentElement>,
    prefix: Seq<char>,
    d: (Seq<char>, Seq<char>, Seq<StandingRow>),
    focus: FocusContext,
) -> bool {
    if d.2.len() == 0 {
        children.len() == 0
    } else {
        &&& children.len() == 2
        &&& is_standings_table(children[0], prefix + "_"@ + d.1, d.0, leaders(d.2), focus)
        &&& children[1] == DocumentElement::Spacer { height: 1 }
    }
}

/// The elements of the wildcard race: none without teams, else the table
/// "<prefix>_wildcard" headed "Wildcard".
pub open spec fn wildcard_section(
    children: Seq<DocumentElement>,
    prefix: Seq<char>,
    teams: Seq<StandingRow>,
    focus: FocusContext,
) -> bool {
    if teams.len() == 0 {
        children.len() == 0
    } else {
        &&& children.len() == 1
        &&& is_standings_table(children[0], prefix + "_wildcard"@, "Wildcard"@, teams, focus)
    }
}

/// A division splits into its leaders, then the teams chasing them; the
/// wildcard race holds exactly the chasers of both divisions, ordered by
/// points: every team of the two divisions is shown once.
pub proof fn lemma_wildcard_partition(d1: Seq<StandingRow>, d2: Seq<StandingRow>)
    ensures
        leaders(d1) + chasers(d1) == d1,
        leaders(d2) + chasers(d2) == d2,
        wildcard_teams(d1, d2).to_multiset() == (chasers(d1) + chasers(d2)).to_multiset(),
        points_descending(wildcard_teams(d1, d2)),
        leaders(d1).len() <= DIVISION_LEADERS,
{
    assert(leaders(d1) + chasers(d1) =~= d1);
    assert(leaders(d2) + chasers(d2) =~= d2);
    lemma_by_points_sorted(chasers(d1) + chasers(d2));
}

/// The number of elements of a division's leaders.
pub open spec fn leaders_len(s: Seq<StandingRow>) -> int {
    if s.len() == 0 {
        0
    } else {
        2
    }
}

/// The elements of a conference's wildcard column: the leaders of each
/// division, then the wildcard race.
pub open spec fn wildcard_column(
    children: Seq<DocumentElement>,
    prefix: Seq<char>,
    d1: (Seq<char>, Seq<char>, Seq<StandingRow>),
    d2: (Seq<char>, Seq<char>, Seq<StandingRow>),
    focus: FocusContext,
) -> bool {
    let a = leaders_len(d1.2);
    let b = leaders_len(d2.2);
    &&& a + b <= children.len()
    &&& leaders_section(children.subrange(0, a), prefix, d1, focus)
    &&& leaders_section(children.subrange(a, a + b), prefix, d2, focus)
    &&& wildcard_section(
        children.subrange(a + b, children.len() as int),
        prefix,
        wildcard_teams(d1.2, d2.2),
        focus,
    )
}

/// The division leaders.
fn leading_teams(teams: &Vec<StandingRow>) -> (r: Vec<StandingRow>)
    ensures
        r@ == leaders(teams@),
{
    let mut out: Vec<StandingRow> = Vec::new();
    let mut i: usize = 0;
    while i < teams.len() && i < DIVISION_LEADERS
        invariant
            i <= teams@.len(),
            i <= DIVISION_LEADERS,
            out@ == teams@.take(i as int),
        decreases DIVISION_LEADERS - i,
    {
        out.push(teams[i].clone());
        i = i + 1;
        proof {
            assert(out@ =~= teams@.take(i as int));
        }
    }
    proof {
        if teams@.len() <= DIVISION_LEADERS {
            assert(teams@.take(i as int) =~= teams@);
        }
    }
    out
}

/// The teams after the division leaders, appended to `out`.
fn push_chasers(out: &mut Vec<StandingRow>, teams: &Vec<StandingRow>)
    ensures
        final(out)@ == old(out)@ + chasers(teams@),
{
    let ghost start = out@;
    let n = teams.len();
    let mut i: usize = DIVISION_LEADERS;
    if n <= DIVISION_LEADERS {
        assert(start + chasers(teams@) =~= start);
        return;
    }
    while i < n
        invariant
            DIVISION_LEADERS <= i <= n,
            n == teams@.len(),
            out@ == start + teams@.subrange(DIVISION_LEADERS as int, i as int),
        decreases n - i,
    {
        out.push(teams[i].clone());
        i = i + 1;
        proof {
            assert(out@ =~= start + teams@.subrange(DIVISION_LEADERS as int, i as int));
        }
    }
    assert(teams@.subrange(DIVISION_LEADERS as int, n as int) =~= chasers(teams@));
}

/// The elements of a division's leaders.
fn build_leaders_section(d: &Division, prefix: &str, focus: &FocusContext) -> (r: Vec<
    DocumentElement,
>)
    requires
        d.teams@.len() <= MAX_TABLE_ROWS,
    ensures
        leaders_section(r@, prefix@, d@, *focus),
{
    let mut out: Vec<DocumentElement> = Vec::new();
    let top = leading_teams(&d.teams);
    if top.len() > 0 {
        let name = table_name(prefix, d.key.as_str());
        out.push(standings_table_element(name.as_str(), d.name.as_str(), top, focus));
        out.push(DocumentElement::spacer(1));
    }
    out
}

/// The wildcard column of a conference: each division's leaders, then
/// the other teams of both divisions ordered by points.
pub fn build_wildcard_group(d1: &Division, d2: &Division, prefix: &str, focus: &FocusContext) -> (e:
    DocumentElement)
    requires
        d1.teams@.len() + d2.teams@.len() <= MAX_TABLE_ROWS,
    ensures
        e matches DocumentElement::Group { children, style } && style is None && wildcard_column(
            children@,
            prefix@,
            d1@,
            d2@,
            *focus,
        ),
{
    let mut children = build_leaders_section(d1, prefix, focus);
    let mut second = build_leaders_section(d2, prefix, focus);
    let ghost a = children@;
    let ghost b = second@;
    children.append(&mut second);
    let mut rest: Vec<StandingRow> = Vec::new();
    push_chasers(&mut rest, &d1.teams);
    push_chasers(&mut rest, &d2.teams);
    proof {
        assert(Seq::<StandingRow>::empty() + chasers(d1.teams@) + chasers(d2.teams@) =~= chasers(
            d1.teams@,
        ) + chasers(d2.teams@));
        lemma_by_points_sorted(rest@);
    }
    let wildcard = sort_by_points_desc(rest);
    let ghost ab = children@;
    if wildcard.len() > 0 {
        let name = table_name(prefix, "wildcard");
        proof {
            reveal_strlit("wildcard");
            reveal_strlit("_wildcard");
            reveal_strlit("_");
            assert(prefix@ + "_"@ + "wildcard"@ =~= prefix@ + "_wildcard"@);
        }
        children.push(standings_table_element(name.as_str(), "Wildcard", wildcard, focus));
    }
    proof {
        let la = leaders_len(d1.teams@);
        let lb = leaders_len(d2.teams@);
        assert(children@.subrange(0, la) =~= a);
        assert(children@.subrange(la, la + lb) =~= b);
    }
    DocumentElement::group(children)
}

/// Wildcard standings: for each conference, the leaders of its two
/// divisions and the race for the remaining playoff places.
#[derive(Debug)]
pub struct WildcardStandingsDocument {
    standings: Vec<StandingRow>,
    western_first: bool,
}

impl WildcardStandingsDocument {
    #[verifier::type_invariant]
    closed spec fn fits(self) -> bool {
        self.standings@.len() <= MAX_TABLE_ROWS
    }

    /// The teams shown.
    pub closed spec fn teams(self) -> Seq<StandingRow> {
        self.standings@
    }

    /// Whether the Western conference comes first.
    pub closed spec fn west_first(self) -> bool {
        self.western_first
    }

    /// A wildcard standings document.
    pub fn new(standings: Vec<StandingRow>, western_first: bool) -> (d: Self)
        requires
            standings@.len() <= MAX_TABLE_ROWS,
        ensures
            d.teams() == standings@,
            d.west_first() == western_first,
    {
        WildcardStandingsDocument { standings, western_first }
    }

    /// The Atlantic, Metropolitan, Central and Pacific divisions, each
    /// ordered by points.
    pub fn group_by_division(&self) -> (r: (Division, Division, Division, Division))
        ensures
            is_division(r.0@, "Atlantic"@, "atlantic"@, self.teams()),
            is_division(r.1@, "Metropolitan"@, "metropolitan"@, self.teams()),
            is_division(r.2@, "Central"@, "central"@, self.teams()),
            is_division(r.3@, "Pacific"@, "pacific"@, self.teams()),
    {
        (
            division_of(&self.standings, "Atlantic", "atlantic"),
            division_of(&self.standings, "Metropolitan", "metropolitan"),
            division_of(&self.standings, "Central", "central"),
            division_of(&self.standings, "Pacific", "pacific"),
        )
    }
}

/// The teams of two distinct divisions are no more than all teams.
proof fn lemma_two_divisions_fit(all: Seq<StandingRow>, n1: Seq<char>, n2: Seq<char>)
    requires
        n1 != n2,
    ensures
        division_teams(all, n1).len() + division_teams(all, n2).len() <= all.len(),
    decreases all.len(),
{
    if all.len() > 0 {
        lemma_two_divisions_fit(all.drop_last(), n1, n2);
    }
}

/// A division of a conference, by its name and key.
pub open spec fn division_spec(all: Seq<StandingRow>, name: Seq<char>, key: Seq<char>) -> (
    Seq<char>,
    Seq<char>,
    Seq<StandingRow>,
) {
    (name, key, by_points(division_teams(all, name)))
}

impl Document for WildcardStandingsDocument {
    /// Two wildcard columns side by side, "wildcard_left" and
    /// "wildcard_right": the Eastern conference (Atlantic, Metropolitan) on
    /// the left unless the Western one (Central, Pacific) comes first.
    open spec fn built(&self, focus: FocusContext, r: Seq<DocumentElement>) -> bool {
        ({
            let atl = division_spec(self.teams(), "Atlantic"@, "atlantic"@);
            let met = division_spec(self.teams(), "Metropolitan"@, "metropolitan"@);
            let cen = division_spec(self.teams(), "Central"@, "central"@);
            let pac = division_spec(self.teams(), "Pacific"@, "pacific"@);
            let (l1, l2, r1, r2) = if self.west_first() {
                (cen, pac, atl, met)
            } else {
                (atl, met, cen, pac)
            };
            &&& r.len() == 1
            &&& r[0] matches DocumentElement::Row { children, gap } && gap == 2
                && children@.len() == 2 && (children@[0] matches DocumentElement::Group {
                children: lc,
                style: ls,
            } && ls is None && wildcard_column(lc@, "wildcard_left"@, l1, l2, focus)) && (
            children@[1] matches DocumentElement::Group { children: rc, style: rs }
                && rs is None && wildcard_column(rc@, "wildcard_right"@, r1, r2, focus))
        })
    }

    /// Build the layout described above.
    fn build(&self, focus: &FocusContext) -> (r: Vec<DocumentElement>)
    {
        proof {
            use_type_invariant(self);
        }
        let (atlantic, metropolitan, central, pacific) = self.group_by_division();
        proof {
            reveal_strlit("Atlantic");
            reveal_strlit("Metropolitan");
            reveal_strlit("Central");
            reveal_strlit("Pacific");
            let all = self.standings@;
            assert("Atlantic"@.len() != "Metropolitan"@.len());
            assert("Central"@[0] != "Pacific"@[0]);
            lemma_two_divisions_fit(all, "Atlantic"@, "Metropolitan"@);
            lemma_two_divisions_fit(all, "Central"@, "Pacific"@);
            lemma_by_points_sorted(division_teams(all, "Atlantic"@));
            lemma_by_points_sorted(division_teams(all, "Metropolitan"@));
            lemma_by_points_sorted(division_teams(all, "Central"@));
            lemma_by_points_sorted(division_teams(all, "Pacific"@));
        }
        let (left, right) = if self.western_first {
            (
                build_wildcard_group(&central, &pacific, "wildcard_left", focus),
                build_wildcard_group(&atlantic, &metropolitan, "wildcard_right", focus),
            )
        } else {
            (
                build_wildcard_group(&atlantic, &metropolitan, "wildcard_left", focus),
                build_wildcard_group(&central, &pacific, "wildcard_right", focus),
            )
        };
        DocumentBuilder::new().row(vec![left, right]).build()
    }

    fn title(&self) -> (s: String)
        ensures
            s@ == "Wildcard Standings"@,
    {
        String::from_str("Wildcard Standings")
    }

    fn id(&self) -> (s: String)
        ensures
            s@ == "wildcard_standings"@,
    {
        String::from_str("wildcard_standings")
    }
}

} // verus!
