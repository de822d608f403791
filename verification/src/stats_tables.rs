//! Tables of skater and goalie game statistics, built on the generic table.

use vstd::prelude::*;

use crate::table::{Alignment, CellValue, TableView, TableWidget, column_has_link};
use crate::text::{decimal, i64_to_string, push_decimal, signed_decimal};

verus! {

/// The value of a cell: its kind, text, and what it links to.
pub enum CellKey {
    Text(Seq<char>),
    Player(Seq<char>, i64),
    Team(Seq<char>, Seq<char>),
}

/// The value of a cell.
pub open spec fn cell_key(c: CellValue) -> CellKey {
    match c {
        CellValue::Text(s) => CellKey::Text(s@),
        CellValue::PlayerLink { display, player_id } => CellKey::Player(display@, player_id),
        CellValue::TeamLink { display, team_abbrev } => CellKey::Team(display@, team_abbrev@),
    }
}

/// A number with its sign always shown ("+2", "-1", "+0").
pub open spec fn plus_minus_text(n: i32) -> Seq<char> {
    if n >= 0 {
        "+"@ + decimal(n as nat)
    } else {
        signed_decimal(n as int)
    }
}

/// `r` is the first link column after `current_col`.
pub open spec fn is_next_link_column(v: TableView, current_col: usize, r: Option<usize>) -> bool {
    match r {
        Some(c) => current_col < c < v.headers.len() && column_has_link(v.cells, c as int) && forall|
            k: int,
        | current_col < k < c ==> !column_has_link(v.cells, k),
        None => forall|k: int| current_col < k < v.headers.len() ==> !column_has_link(v.cells, k),
    }
}

/// `r` is the last link column before `current_col`.
pub open spec fn is_prev_link_column(v: TableView, current_col: usize, r: Option<usize>) -> bool {
    match r {
        Some(c) => c < current_col && column_has_link(v.cells, c as int) && forall|k: int|
            c < k < current_col ==> !column_has_link(v.cells, k),
        None => forall|k: int| 0 <= k < current_col ==> !column_has_link(v.cells, k),
    }
}

/// `r` is the first link column.
pub open spec fn is_first_link_column(v: TableView, r: Option<usize>) -> bool {
    match r {
        Some(c) => c < v.headers.len() && column_has_link(v.cells, c as int) && forall|k: int|
            0 <= k < c ==> !column_has_link(v.cells, k),
        None => forall|k: int| 0 <= k < v.headers.len() ==> !column_has_link(v.cells, k),
    }
}

// ---------------------------------------------------------------------------
// Skaters
// ---------------------------------------------------------------------------

/// A skater's statistics for one game, as shown in a table.
#[derive(Debug)]
pub struct SkaterRow {
    pub player_id: i64,
    pub name: String,
    /// Position code ("C", "L", "R", "D").
    pub position: String,
    pub goals: i32,
    pub assists: i32,
    pub points: i32,
    pub plus_minus: i32,
    pub sog: i32,
    pub hits: i32,
    pub blocked_shots: i32,
    pub pim: i32,
    /// Faceoff percentage already formatted ("55.0"); None when the skater
    /// took no faceoffs.
    pub faceoff_pct: Option<String>,
    pub toi: String,
    pub shifts: i32,
    pub giveaways: i32,
    pub takeaways: i32,
}

/// The skater columns: header, width and alignment.
pub open spec fn skater_column(c: int) -> (Seq<char>, usize, Alignment) {
    if c == 0 {
        ("Player"@, 20, Alignment::Left)
    } else if c == 1 {
        ("Pos"@, 3, Alignment::Center)
    } else if c == 2 {
        ("G"@, 2, Alignment::Right)
    } else if c == 3 {
        ("A"@, 2, Alignment::Right)
    } else if c == 4 {
        ("PTS"@, 3, Alignment::Right)
    } else if c == 5 {
        ("+/-"@, 3, Alignment::Right)
    } else if c == 6 {
        ("SOG"@, 3, Alignment::Right)
    } else if c == 7 {
        ("Hits"@, 4, Alignment::Right)
    } else if c == 8 {
        ("Blk"@, 3, Alignment::Right)
    } else if c == 9 {
        ("PIM"@, 3, Alignment::Right)
    } else if c == 10 {
        ("FO%"@, 5, Alignment::Right)
    } else if c == 11 {
        ("TOI"@, 5, Alignment::Right)
    } else if c == 12 {
        ("Shft"@, 4, Alignment::Right)
    } else if c == 13 {
        ("Give"@, 4, Alignment::Right)
    } else {
        ("Take"@, 4, Alignment::Right)
    }
}

/// The number of skater columns.
pub const SKATER_COLUMNS: usize = 15;

/// The cell of a skater in column `c`.
pub open spec fn skater_cell(s: SkaterRow, c: int) -> CellKey {
    if c == 0 {
        CellKey::Player(s.name@, s.player_id)
    } else {
        CellKey::Text(
            if c == 1 {
                s.position@
            } else if c == 2 {
                signed_decimal(s.goals as int)
            } else if c == 3 {
                signed_decimal(s.assists as int)
            } else if c == 4 {
                signed_decimal(s.points as int)
            } else if c == 5 {
                plus_minus_text(s.plus_minus)
            } else if c == 6 {
                signed_decimal(s.sog as int)
            } else if c == 7 {
                signed_decimal(s.hits as int)
            } else if c == 8 {
                signed_decimal(s.blocked_shots as int)
            } else if c == 9 {
                signed_decimal(s.pim as int)
            } else if c == 10 {
                match s.faceoff_pct {
                    Some(p) => p@,
                    None => "-"@,
                }
            } else if c == 11 {
                s.toi@
            } else if c == 12 {
                signed_decimal(s.shifts as int)
            } else if c == 13 {
                signed_decimal(s.giveaways as int)
            } else {
                signed_decimal(s.takeaways as int)
            },
        )
    }
}

/// A number with its sign always shown.
pub fn plus_minus_string(n: i32) -> (s: String)
    ensures
        s@ == plus_minus_text(n),
{
    if n >= 0 {
        let mut s = String::from_str("+");
        push_decimal(&mut s, n as u64);
        proof {
            reveal_strlit("+");
        }
        s
    } else {
        i64_to_string(n as i64)
    }
}

/// The cell of a skater in column `c`.
fn skater_cell_value(s: &SkaterRow, c: usize) -> (v: CellValue)
    ensures
        cell_key(v) == skater_cell(*s, c as int),
{
    proof {
        reveal_strlit("-");
    }
    if c == 0 {
        CellValue::PlayerLink { display: s.name.clone(), player_id: s.player_id }
    } else {
        let text = if c == 1 {
            s.position.clone()
        } else if c == 2 {
            i64_to_string(s.goals as i64)
        } else if c == 3 {
            i64_to_string(s.assists as i64)
        } else if c == 4 {
            i64_to_string(s.points as i64)
        } else if c == 5 {
            plus_minus_string(s.plus_minus)
        } else if c == 6 {
            i64_to_string(s.sog as i64)
        } else if c == 7 {
            i64_to_string(s.hits as i64)
        } else if c == 8 {
            i64_to_string(s.blocked_shots as i64)
        } else if c == 9 {
            i64_to_string(s.pim as i64)
        } else if c == 10 {
            match &s.faceoff_pct {
                Some(p) => p.clone(),
                None => String::from_str("-"),
            }
        } else if c == 11 {
            s.toi.clone()
        } else if c == 12 {
            i64_to_string(s.shifts as i64)
        } else if c == 13 {
            i64_to_string(s.giveaways as i64)
        } else {
            i64_to_string(s.takeaways as i64)
        };
        CellValue::Text(text)
    }
}

/// Whether a table holds the skater columns and the cells of the given
/// skaters, with nothing else set.
pub open spec fn skater_table(v: TableView, rows: Seq<SkaterRow>) -> bool {
    &&& v.headers.len() == SKATER_COLUMNS
    &&& forall|c: int|
        0 <= c < SKATER_COLUMNS ==> (#[trigger] v.headers[c])@ == skater_column(c).0 && v.widths[c]
            == skater_column(c).1 && v.aligns[c] == skater_column(c).2
    &&& v.cells.len() == rows.len()
    &&& forall|r: int, c: int|
        0 <= r < rows.len() && 0 <= c < SKATER_COLUMNS ==> cell_key(#[trigger] v.cells[r][c])
            == skater_cell(rows[r], c)
    &&& v.header is None
    &&& v.margin == 0
    &&& v.focused_row is None
}

/// Table of skater game statistics, with the selection and focus set on it.
#[derive(Debug)]
pub struct SkaterStatsTableWidget {
    inner: TableWidget,
    selected_row: Option<usize>,
    selected_col: Option<usize>,
    focused: bool,
}

/// The value of a skater table: its table, and the selection and focus set
/// on it.
pub struct SkaterTableView {
    pub table: TableView,
    pub selected_row: Option<usize>,
    pub selected_col: Option<usize>,
    pub focused: bool,
}

impl View for SkaterStatsTableWidget {
    type V = SkaterTableView;

    closed spec fn view(&self) -> SkaterTableView {
        SkaterTableView {
            table: self.inner@,
            selected_row: self.selected_row,
            selected_col: self.selected_col,
            focused: self.focused,
        }
    }
}

impl SkaterStatsTableWidget {
    /// A table of the given skaters' game statistics: Player, Pos, G, A,
    /// PTS, +/-, SOG, Hits, Blk, PIM, FO%, TOI, Shft, Give, Take.
    pub fn from_game_stats(data: Vec<SkaterRow>) -> (t: Self)
        ensures
            skater_table(t@.table, data@),
            t@.selected_row is None,
            t@.selected_col is None,
            !t@.focused,
    {
        let headers: Vec<&str> = vec![
            "Player", "Pos", "G", "A", "PTS", "+/-", "SOG", "Hits", "Blk", "PIM", "FO%", "TOI",
            "Shft", "Give", "Take",
        ];
        let widths: Vec<usize> = vec![20, 3, 2, 2, 3, 3, 3, 4, 3, 3, 5, 5, 4, 4, 4];
        let aligns: Vec<Alignment> = vec![
            Alignment::Left, Alignment::Center, Alignment::Right, Alignment::Right,
            Alignment::Right, Alignment::Right, Alignment::Right, Alignment::Right,
            Alignment::Right, Alignment::Right, Alignment::Right, Alignment::Right,
            Alignment::Right, Alignment::Right, Alignment::Right,
        ];
        proof {
            reveal_strlit("Player");
            reveal_strlit("Pos");
            reveal_strlit("G");
            reveal_strlit("A");
            reveal_strlit("PTS");
            reveal_strlit("+/-");
            reveal_strlit("SOG");
            reveal_strlit("Hits");
            reveal_strlit("Blk");
            reveal_strlit("PIM");
            reveal_strlit("FO%");
            reveal_strlit("TOI");
            reveal_strlit("Shft");
            reveal_strlit("Give");
            reveal_strlit("Take");
            assert forall|c: int| 0 <= c < SKATER_COLUMNS implies headers@[c]@ == skater_column(c).0
                && widths@[c] == skater_column(c).1 && aligns@[c] == skater_column(c).2 by {}
        }
        let mut column_headers: Vec<String> = Vec::new();
        let mut c: usize = 0;
        while c < SKATER_COLUMNS
            invariant
                c <= SKATER_COLUMNS,
                headers@.len() == SKATER_COLUMNS,
                forall|k: int|
                    0 <= k < SKATER_COLUMNS ==> (#[trigger] headers@[k])@ == skater_column(k).0,
                column_headers@.len() == c,
                forall|k: int| 0 <= k < c ==> (#[trigger] column_headers@[k])@ == skater_column(k).0,
            decreases SKATER_COLUMNS - c,
        {
            column_headers.push(String::from_str(headers[c]));
            c = c + 1;
        }
        let mut cell_data: Vec<Vec<CellValue>> = Vec::new();
        let n = data.len();
        let mut r: usize = 0;
        while r < n
            invariant
                r <= n,
                n == data@.len(),
                cell_data@.len() == r,
                forall|i: int| 0 <= i < r ==> (#[trigger] cell_data@[i])@.len() == SKATER_COLUMNS,
                forall|i: int, k: int|
                    0 <= i < r && 0 <= k < SKATER_COLUMNS ==> cell_key(
                        #[trigger] cell_data@[i]@[k],
                    ) == skater_cell(data@[i], k),
            decreases n - r,
        {
            let mut row: Vec<CellValue> = Vec::new();
            let mut k: usize = 0;
            while k < SKATER_COLUMNS
                invariant
                    k <= SKATER_COLUMNS,
                    r < n,
                    n == data@.len(),
                    row@.len() == k,
                    forall|j: int| 0 <= j < k ==> cell_key(#[trigger] row@[j]) == skater_cell(
                        data@[r as int],
                        j,
                    ),
                decreases SKATER_COLUMNS - k,
            {
                row.push(skater_cell_value(&data[r], k));
                k = k + 1;
            }
            cell_data.push(row);
            r = r + 1;
        }
        let inner = TableWidget::from_cells(column_headers, widths, aligns, cell_data);
        SkaterStatsTableWidget { inner, selected_row: None, selected_col: None, focused: false }
    }

    /// Set the table header.
    pub fn with_header(self, header: &str) -> (t: Self)
        ensures
            t@ == (SkaterTableView {
                table: TableView { header: t@.table.header, ..self@.table },
                ..self@
            }),
            t@.table.header matches Some(h) && h@ == header@,
    {
        let inner = self.inner.with_header(header);
        SkaterStatsTableWidget { inner, ..self }
    }

    /// Select a cell.
    pub fn with_selection(self, row: usize, col: usize) -> (t: Self)
        ensures
            t@ == (SkaterTableView { selected_row: Some(row), selected_col: Some(col), ..self@ }),
    {
        SkaterStatsTableWidget { selected_row: Some(row), selected_col: Some(col), ..self }
    }

    /// Select a cell, or nothing.
    pub fn with_selection_opt(self, row: Option<usize>, col: Option<usize>) -> (t: Self)
        ensures
            t@ == (SkaterTableView { selected_row: row, selected_col: col, ..self@ }),
    {
        SkaterStatsTableWidget { selected_row: row, selected_col: col, ..self }
    }

    /// Set whether the table has the focus.
    pub fn with_focused(self, focused: bool) -> (t: Self)
        ensures
            t@ == (SkaterTableView { focused, ..self@ }),
    {
        SkaterStatsTableWidget { focused, ..self }
    }

    /// Set the left margin.
    pub fn with_margin(self, margin: u16) -> (t: Self)
        ensures
            t@ == (SkaterTableView { table: TableView { margin, ..self@.table }, ..self@ }),
    {
        let inner = self.inner.with_margin(margin);
        SkaterStatsTableWidget { inner, ..self }
    }

    /// The first column holding a link.
    pub fn find_first_link_column(&self) -> (r: Option<usize>)
        ensures
            is_first_link_column(self@.table, r),
    {
        self.inner.find_first_link_column()
    }

    /// The first column after `current_col` holding a link.
    pub fn find_next_link_column(&self, current_col: usize) -> (r: Option<usize>)
        requires
            current_col < usize::MAX,
        ensures
            is_next_link_column(self@.table, current_col, r),
    {
        self.inner.find_next_link_column(current_col)
    }

    /// The last column before `current_col` holding a link.
    pub fn find_previous_link_column(&self, current_col: usize) -> (r: Option<usize>)
        ensures
            is_prev_link_column(self@.table, current_col, r),
    {
        self.inner.find_prev_link_column(current_col)
    }

    /// The table drawn.
    pub fn table(&self) -> (t: &TableWidget)
        ensures
            t@ == self@.table,
    {
        &self.inner
    }

    /// The height the table needs.
    pub fn preferred_height(&self) -> (h: Option<u16>)
        requires
            crate::table::header_lines(self@.table) + (if self@.table.headers.len() > 0 {
                2int
            } else {
                0
            }) + (self@.table.cells.len() as u16) <= u16::MAX,
        ensures
            h == Some(
                (crate::table::header_lines(self@.table) + (if self@.table.headers.len() > 0 {
                    2int
                } else {
                    0
                }) + (self@.table.cells.len() as u16)) as u16,
            ),
    {
        self.inner.preferred_height()
    }

    /// The width the table needs.
    pub fn preferred_width(&self) -> (w: Option<u16>)
        requires
            self@.table.margin + crate::table::columns_width(self@.table) <= usize::MAX,
        ensures
            w == Some(
                if self@.table.widths.len() == 0 {
                    0u16
                } else {
                    (self@.table.margin + crate::table::columns_width(self@.table)) as u16
                },
            ),
    {
        self.inner.preferred_width()
    }

    /// A boxed copy of the widget.
    pub fn clone_box(&self) -> (b: Box<Self>)
        ensures
            b@ == self@,
    {
        Box::new(
            SkaterStatsTableWidget {
                inner: self.inner.clone(),
                selected_row: self.selected_row,
                selected_col: self.selected_col,
                focused: self.focused,
            },
        )
    }
}


// ---------------------------------------------------------------------------
// Goalies
// ---------------------------------------------------------------------------

/// A goalie's decision in a game.
#[derive(Clone, Copy, Debug, PartialEq, Eq, Structural)]
pub enum GoalieDecision {
    Win,
    Loss,
    OvertimeLoss,
}

/// A goalie's statistics for one game, as shown in a table.
#[derive(Debug)]
pub struct GoalieRow {
    pub player_id: i64,
    pub name: String,
    pub decision: Option<GoalieDecision>,
    pub shots_against: i32,
    pub saves: i32,
    pub goals_against: i32,
    /// Save percentage already formatted ("0.917"); None when not known.
    pub save_pct: Option<String>,
    pub toi: String,
    pub even_strength_shots_against: String,
    pub power_play_shots_against: String,
    pub shorthanded_shots_against: String,
}

/// The number of goalie columns.
pub const GOALIE_COLUMNS: usize = 10;

/// The goalie columns: header, width and alignment.
pub open spec fn goalie_column(c: int) -> (Seq<char>, usize, Alignment) {
    if c == 0 {
        ("Player"@, 20, Alignment::Left)
    } else if c == 1 {
        ("Dec"@, 3, Alignment::Center)
    } else if c == 2 {
        ("SA"@, 3, Alignment::Right)
    } else if c == 3 {
        ("Saves"@, 5, Alignment::Right)
    } else if c == 4 {
        ("GA"@, 2, Alignment::Right)
    } else if c == 5 {
        ("SV%"@, 5, Alignment::Right)
    } else if c == 6 {
        ("TOI"@, 5, Alignment::Right)
    } else if c == 7 {
        ("EV SA"@, 5, Alignment::Right)
    } else if c == 8 {
        ("PP SA"@, 5, Alignment::Right)
    } else {
        ("SH SA"@, 5, Alignment::Right)
    }
}

/// The text of a decision: "W", "L", "OT", or "-" without one.
pub open spec fn decision_text(d: Option<GoalieDecision>) -> Seq<char> {
    match d {
        Some(GoalieDecision::Win) => "W"@,
        Some(GoalieDecision::Loss) => "L"@,
        Some(GoalieDecision::OvertimeLoss) => "OT"@,
        None => "-"@,
    }
}

/// The cell of a goalie in column `c`.
pub open spec fn goalie_cell(g: GoalieRow, c: int) -> CellKey {
    if c == 0 {
        CellKey::Player(g.name@, g.player_id)
    } else {
        CellKey::Text(
            if c == 1 {
                decision_text(g.decision)
            } else if c == 2 {
                signed_decimal(g.shots_against as int)
            } else if c == 3 {
                signed_decimal(g.saves as int)
            } else if c == 4 {
                signed_decimal(g.goals_against as int)
            } else if c == 5 {
                match g.save_pct {
                    Some(p) => p@,
                    None => "-"@,
                }
            } else if c == 6 {
                g.toi@
            } else if c == 7 {
                g.even_strength_shots_against@
            } else if c == 8 {
                g.power_play_shots_against@
            } else {
                g.shorthanded_shots_against@
            },
        )
    }
}

/// The cell of a goalie in column `c`.
fn goalie_cell_value(g: &GoalieRow, c: usize) -> (v: CellValue)
    ensures
        cell_key(v) == goalie_cell(*g, c as int),
{
    proof {
        reveal_strlit("W");
        reveal_strlit("L");
        reveal_strlit("OT");
        reveal_strlit("-");
    }
    if c == 0 {
        CellValue::PlayerLink { display: g.name.clone(), player_id: g.player_id }
    } else {
        let text = if c == 1 {
            match g.decision {
                Some(GoalieDecision::Win) => String::from_str("W"),
                Some(GoalieDecision::Loss) => String::from_str("L"),
                Some(GoalieDecision::OvertimeLoss) => String::from_str("OT"),
                None => String::from_str("-"),
            }
        } else if c == 2 {
            i64_to_string(g.shots_against as i64)
        } else if c == 3 {
            i64_to_string(g.saves as i64)
        } else if c == 4 {
            i64_to_string(g.goals_against as i64)
        } else if c == 5 {
            match &g.save_pct {
                Some(p) => p.clone(),
                None => String::from_str("-"),
            }
        } else if c == 6 {
            g.toi.clone()
        } else if c == 7 {
            g.even_strength_shots_against.clone()
        } else if c == 8 {
            g.power_play_shots_against.clone()
        } else {
            g.shorthanded_shots_against.clone()
        };
        CellValue::Text(text)
    }
}

/// Whether a table holds the goalie columns and the cells of the given
/// goalies, with nothing else set.
pub open spec fn goalie_table(v: TableView, rows: Seq<GoalieRow>) -> bool {
    &&& v.headers.len() == GOALIE_COLUMNS
    &&& forall|c: int|
        0 <= c < GOALIE_COLUMNS ==> (#[trigger] v.headers[c])@ == goalie_column(c).0 && v.widths[c]
            == goalie_column(c).1 && v.aligns[c] == goalie_column(c).2
    &&& v.cells.len() == rows.len()
    &&& forall|r: int, c: int|
        0 <= r < rows.len() && 0 <= c < GOALIE_COLUMNS ==> cell_key(#[trigger] v.cells[r][c])
            == goalie_cell(rows[r], c)
    &&& v.header is None
    &&& v.margin == 0
    &&& v.focused_row is None
}

/// Table of goalie game statistics.
#[derive(Debug)]
pub struct GoalieStatsTableWidget {
    inner: TableWidget,
}

impl View for GoalieStatsTableWidget {
    type V = TableView;

    closed spec fn view(&self) -> TableView {
        self.inner@
    }
}

impl GoalieStatsTableWidget {
    /// A table of the given goalies' game statistics: Player, Dec, SA,
    /// Saves, GA, SV%, TOI, EV SA, PP SA, SH SA.
    pub fn from_game_stats(data: Vec<GoalieRow>) -> (t: Self)
        ensures
            goalie_table(t@, data@),
    {
        let headers: Vec<&str> = vec![
            "Player", "Dec", "SA", "Saves", "GA", "SV%", "TOI", "EV SA", "PP SA", "SH SA",
        ];
        let widths: Vec<usize> = vec![20, 3, 3, 5, 2, 5, 5, 5, 5, 5];
        let aligns: Vec<Alignment> = vec![
            Alignment::Left, Alignment::Center, Alignment::Right, Alignment::Right,
            Alignment::Right, Alignment::Right, Alignment::Right, Alignment::Right,
            Alignment::Right, Alignment::Right,
        ];
        proof {
            reveal_strlit("Player");
            reveal_strlit("Dec");
            reveal_strlit("SA");
            reveal_strlit("Saves");
            reveal_strlit("GA");
            reveal_strlit("SV%");
            reveal_strlit("TOI");
            reveal_strlit("EV SA");
            reveal_strlit("PP SA");
            reveal_strlit("SH SA");
            assert forall|c: int| 0 <= c < GOALIE_COLUMNS implies headers@[c]@ == goalie_column(c).0
                && widths@[c] == goalie_column(c).1 && aligns@[c] == goalie_column(c).2 by {}
        }
        let mut column_headers: Vec<String> = Vec::new();
        let mut c: usize = 0;
        while c < GOALIE_COLUMNS
            invariant
                c <= GOALIE_COLUMNS,
                headers@.len() == GOALIE_COLUMNS,
                forall|k: int|
                    0 <= k < GOALIE_COLUMNS ==> (#[trigger] headers@[k])@ == goalie_column(k).0,
                column_headers@.len() == c,
                forall|k: int| 0 <= k < c ==> (#[trigger] column_headers@[k])@ == goalie_column(k).0,
            decreases GOALIE_COLUMNS - c,
        {
            column_headers.push(String::from_str(headers[c]));
            c = c + 1;
        }
        let mut cell_data: Vec<Vec<CellValue>> = Vec::new();
        let n = data.len();
        let mut r: usize = 0;
        while r < n
            invariant
                r <= n,
                n == data@.len(),
                cell_data@.len() == r,
                forall|i: int| 0 <= i < r ==> (#[trigger] cell_data@[i])@.len() == GOALIE_COLUMNS,
                forall|i: int, k: int|
                    0 <= i < r && 0 <= k < GOALIE_COLUMNS ==> cell_key(
                        #[trigger] cell_data@[i]@[k],
                    ) == goalie_cell(data@[i], k),
            decreases n - r,
        {
            let mut row: Vec<CellValue> = Vec::new();
            let mut k: usize = 0;
            while k < GOALIE_COLUMNS
                invariant
                    k <= GOALIE_COLUMNS,
                    r < n,
                    n == data@.len(),
                    row@.len() == k,
                    forall|j: int| 0 <= j < k ==> cell_key(#[trigger] row@[j]) == goalie_cell(
                        data@[r as int],
                        j,
                    ),
                decreases GOALIE_COLUMNS - k,
            {
                row.push(goalie_cell_value(&data[r], k));
                k = k + 1;
            }
            cell_data.push(row);
            r = r + 1;
        }
        let inner = TableWidget::from_cells(column_headers, widths, aligns, cell_data);
        GoalieStatsTableWidget { inner }
    }

    /// Set the table header.
    pub fn with_header(self, header: &str) -> (t: Self)
        ensures
            t@ == (TableView { header: t@.header, ..self@ }),
            t@.header matches Some(h) && h@ == header@,
    {
        GoalieStatsTableWidget { inner: self.inner.with_header(header) }
    }

    /// Set which row is focused.
    pub fn with_focused_row(self, row: Option<usize>) -> (t: Self)
        ensures
            t@ == (TableView { focused_row: row, ..self@ }),
    {
        GoalieStatsTableWidget { inner: self.inner.with_focused_row(row) }
    }

    /// The first column holding a link.
    pub fn find_first_link_column(&self) -> (r: Option<usize>)
        ensures
            is_first_link_column(self@, r),
    {
        self.inner.find_first_link_column()
    }

    /// The first column after `current_col` holding a link.
    pub fn find_next_link_column(&self, current_col: usize) -> (r: Option<usize>)
        requires
            current_col < usize::MAX,
        ensures
            is_next_link_column(self@, current_col, r),
    {
        self.inner.find_next_link_column(current_col)
    }

    /// The last column before `current_col` holding a link.
    pub fn find_previous_link_column(&self, current_col: usize) -> (r: Option<usize>)
        ensures
            is_prev_link_column(self@, current_col, r),
    {
        self.inner.find_prev_link_column(current_col)
    }

    /// The table drawn.
    pub fn table(&self) -> (t: &TableWidget)
        ensures
            t@ == self@,
    {
        &self.inner
    }

    /// The height the table needs.
    pub fn preferred_height(&self) -> (h: Option<u16>)
        requires
            crate::table::header_lines(self@) + (if self@.headers.len() > 0 {
                2int
            } else {
                0
            }) + (self@.cells.len() as u16) <= u16::MAX,
        ensures
            h == Some(
                (crate::table::header_lines(self@) + (if self@.headers.len() > 0 {
                    2int
                } else {
                    0
                }) + (self@.cells.len() as u16)) as u16,
            ),
    {
        self.inner.preferred_height()
    }

    /// The width the table needs.
    pub fn preferred_width(&self) -> (w: Option<u16>)
        requires
            self@.margin + crate::table::columns_width(self@) <= usize::MAX,
        ensures
            w == Some(
                if self@.widths.len() == 0 {
                    0u16
                } else {
                    (self@.margin + crate::table::columns_width(self@)) as u16
                },
            ),
    {
        self.inner.preferred_width()
    }

    /// A boxed copy of the widget.
    pub fn clone_box(&self) -> (b: Box<Self>)
        ensures
            b@ == self@,
    {
        Box::new(GoalieStatsTableWidget { inner: self.inner.clone() })
    }
}

} // verus!
