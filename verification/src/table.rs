//! Generic table of mixed cells (text, player links, team links), with
//! column layout, alignment, a focused row, and navigation between the
//! columns that hold links.

use vstd::prelude::*;

use crate::text::{
    decimal, push_char, push_repeat, push_signed_decimal, push_spaces, repeat, signed_decimal,
    spaces,
};

verus! {

/// Column alignment.
#[derive(Clone, Copy, Debug, PartialEq, Eq, Hash, Structural)]
pub enum Alignment {
    Left,
    Right,
    Center,
}

/// The value of a table cell.
#[derive(Debug)]
pub enum CellValue {
    /// Plain text.
    Text(String),
    /// A link to a player.
    PlayerLink { display: String, player_id: i64 },
    /// A link to a team.
    TeamLink { display: String, team_abbrev: String },
}

impl Clone for CellValue {
    fn clone(&self) -> (res: Self)
        ensures
            res == *self,
    {
        match self {
            CellValue::Text(s) => CellValue::Text(s.clone()),
            CellValue::PlayerLink { display, player_id } => CellValue::PlayerLink {
                display: display.clone(),
                player_id: *player_id,
            },
            CellValue::TeamLink { display, team_abbrev } => CellValue::TeamLink {
                display: display.clone(),
                team_abbrev: team_abbrev.clone(),
            },
        }
    }
}

/// The text a cell shows.
pub open spec fn cell_text(c: CellValue) -> Seq<char> {
    match c {
        CellValue::Text(s) => s@,
        CellValue::PlayerLink { display, .. } => display@,
        CellValue::TeamLink { display, .. } => display@,
    }
}

/// Whether a cell is a link.
pub open spec fn cell_is_link(c: CellValue) -> bool {
    !(c is Text)
}

/// A description of a cell for logging.
pub open spec fn cell_info(c: CellValue) -> Seq<char> {
    match c {
        CellValue::Text(s) => "Text: "@ + s@,
        CellValue::PlayerLink { display, player_id } => "PlayerLink: "@ + display@ + " (id: "@
            + signed_decimal(player_id as int) + ")"@,
        CellValue::TeamLink { display, team_abbrev } => "TeamLink: "@ + display@ + " ("@
            + team_abbrev@ + ")"@,
    }
}

impl CellValue {
    /// Whether this cell is a link (player or team).
    pub fn is_link(&self) -> (b: bool)
        ensures
            b == cell_is_link(*self),
    {
        match self {
            CellValue::Text(_) => false,
            _ => true,
        }
    }

    /// The text this cell shows.
    pub fn display_text(&self) -> (s: &str)
        ensures
            s@ == cell_text(*self),
    {
        match self {
            CellValue::Text(s) => s.as_str(),
            CellValue::PlayerLink { display, .. } => display.as_str(),
            CellValue::TeamLink { display, .. } => display.as_str(),
        }
    }

    /// A description of the cell and its link for logging: the kind of cell,
    /// its text, and the player id or team abbreviation it links to.
    pub fn link_info(&self) -> (s: String)
        ensures
            s@ == cell_info(*self),
    {
        match self {
            CellValue::Text(t) => {
                let mut s = String::from_str("Text: ");
                s.append(t.as_str());
                s
            },
            CellValue::PlayerLink { display, player_id } => {
                let mut s = String::from_str("PlayerLink: ");
                s.append(display.as_str());
                s.append(" (id: ");
                push_signed_decimal(&mut s, *player_id);
                s.append(")");
                s
            },
            CellValue::TeamLink { display, team_abbrev } => {
                let mut s = String::from_str("TeamLink: ");
                s.append(display.as_str());
                s.append(" (");
                s.append(team_abbrev.as_str());
                s.append(")");
                s
            },
        }
    }
}

/// A column definition: header, width in characters, alignment, and the
/// function that extracts a row's cell.
pub struct ColumnDef<T, F: Fn(&T) -> CellValue> {
    pub header: String,
    pub width: usize,
    pub align: Alignment,
    pub cell_fn: F,
    pub rows: core::marker::PhantomData<T>,
}

impl<T, F: Fn(&T) -> CellValue> ColumnDef<T, F> {
    /// A new column definition.
    pub fn new(header: &str, width: usize, align: Alignment, cell_fn: F) -> (c: Self)
        ensures
            c.header@ == header@,
            c.width == width,
            c.align == align,
            c.cell_fn == cell_fn,
    {
        ColumnDef {
            header: String::from_str(header),
            width,
            align,
            cell_fn,
            rows: core::marker::PhantomData,
        }
    }
}

/// Width of the selector indicator ("▶ " or two spaces).
pub const SELECTOR_WIDTH: usize = 2;

/// Gap between two columns.
pub const COLUMN_GAP: usize = 2;

/// The abstract content of a table widget.
pub struct TableView {
    pub headers: Seq<String>,
    pub widths: Seq<usize>,
    pub aligns: Seq<Alignment>,
    pub cells: Seq<Seq<CellValue>>,
    pub header: Option<String>,
    pub margin: u16,
    pub focused_row: Option<usize>,
}

/// The table component: a marker, with no content of its own; tables are
/// shown through `TableWidget`.
#[derive(Debug)]
pub struct Table;

/// The table widget: all cell data is extracted when it is built.
#[derive(Debug)]
pub struct TableWidget {
    column_headers: Vec<String>,
    column_widths: Vec<usize>,
    column_aligns: Vec<Alignment>,
    cell_data: Vec<Vec<CellValue>>,
    header: Option<String>,
    margin: u16,
    focused_row: Option<usize>,
}

impl View for TableWidget {
    type V = TableView;

    closed spec fn view(&self) -> TableView {
        TableView {
            headers: self.column_headers@,
            widths: self.column_widths@,
            aligns: self.column_aligns@,
            cells: self.cell_data@.map_values(|r: Vec<CellValue>| r@),
            header: self.header,
            margin: self.margin,
            focused_row: self.focused_row,
        }
    }
}

impl Clone for TableWidget {
    fn clone(&self) -> (res: Self)
        ensures
            res@ == self@,
    {
        proof {
            use_type_invariant(self);
        }
        let headers = clone_strings(&self.column_headers);
        let widths = clone_copy(&self.column_widths);
        let aligns = clone_copy(&self.column_aligns);
        let n = self.cell_data.len();
        let mut cells: Vec<Vec<CellValue>> = Vec::new();
        let mut i: usize = 0;
        while i < n
            invariant
                i <= n,
                n == self.cell_data@.len(),
                cells@.len() == i,
                forall|k: int| 0 <= k < i ==> (#[trigger] cells@[k])@ == self.cell_data@[k]@,
            decreases n - i,
        {
            let row = clone_cells(&self.cell_data[i]);
            cells.push(row);
            i = i + 1;
        }
        let header = match &self.header {
            Some(h) => Some(h.clone()),
            None => None,
        };
        assert(cells@.map_values(|r: Vec<CellValue>| r@) =~= self.cell_data@.map_values(
            |r: Vec<CellValue>| r@,
        ));
        let t = TableWidget {
            column_headers: headers,
            column_widths: widths,
            column_aligns: aligns,
            cell_data: cells,
            header,
            margin: self.margin,
            focused_row: self.focused_row,
        };
        assert(t@.cells =~= self@.cells);
        t
    }
}

fn clone_strings(v: &Vec<String>) -> (r: Vec<String>)
    ensures
        r@ == v@,
{
    let mut out: Vec<String> = Vec::new();
    let n = v.len();
    let mut i: usize = 0;
    while i < n
        invariant
            i <= n,
            n == v@.len(),
            out@ == v@.take(i as int),
        decreases n - i,
    {
        out.push(v[i].clone());
        i = i + 1;
        assert(out@ =~= v@.take(i as int));
    }
    assert(v@.take(n as int) =~= v@);
    out
}

fn clone_copy<T: Copy>(v: &Vec<T>) -> (r: Vec<T>)
    ensures
        r@ == v@,
{
    let mut out: Vec<T> = Vec::new();
    let n = v.len();
    let mut i: usize = 0;
    while i < n
        invariant
            i <= n,
            n == v@.len(),
            out@ == v@.take(i as int),
        decreases n - i,
    {
        out.push(v[i]);
        i = i + 1;
        assert(out@ =~= v@.take(i as int));
    }
    assert(v@.take(n as int) =~= v@);
    out
}

fn clone_cells(v: &Vec<CellValue>) -> (r: Vec<CellValue>)
    ensures
        r@ == v@,
{
    let mut out: Vec<CellValue> = Vec::new();
    let n = v.len();
    let mut i: usize = 0;
    while i < n
        invariant
            i <= n,
            n == v@.len(),
            out@ == v@.take(i as int),
        decreases n - i,
    {
        out.push(v[i].clone());
        i = i + 1;
        assert(out@ =~= v@.take(i as int));
    }
    assert(v@.take(n as int) =~= v@);
    out
}

/// Whether column `c` holds at least one link.
pub open spec fn column_has_link(cells: Seq<Seq<CellValue>>, c: int) -> bool {
    exists|r: int| 0 <= r < cells.len() && 0 <= c < cells[r].len() && cell_is_link(#[trigger] cells[r][c])
}

/// Total of a sequence of widths.
pub open spec fn width_sum(w: Seq<usize>) -> int
    decreases w.len(),
{
    if w.len() == 0 {
        0
    } else {
        width_sum(w.drop_last()) + w.last()
    }
}

/// A cell's text fitted to `width` characters: truncated with "..." (or cut
/// when the width is at most 3) when it does not fit, padded by its
/// alignment otherwise.
pub open spec fn fit_cell(text: Seq<char>, width: nat, align: Alignment) -> Seq<char> {
    if text.len() >= width {
        if width > 3 {
            text.take(width - 3) + "..."@
        } else {
            text.take(width as int)
        }
    } else {
        let pad = (width - text.len()) as nat;
        match align {
            Alignment::Left => text + spaces(pad),
            Alignment::Right => spaces(pad) + text,
            Alignment::Center => spaces(pad / 2) + text + spaces((pad - pad / 2) as nat),
        }
    }
}

/// The well-formed shape of a table: one width and alignment per column
/// header, and one cell per column in every row.
pub open spec fn table_shape(v: TableView) -> bool {
    &&& v.widths.len() == v.headers.len()
    &&& v.aligns.len() == v.headers.len()
    &&& forall|r: int| 0 <= r < v.cells.len() ==> (#[trigger] v.cells[r]).len() == v.headers.len()
}

impl TableWidget {
    #[verifier::type_invariant]
    closed spec fn shape(self) -> bool {
        table_shape(self@)
    }

    /// Build a table from column definitions and rows; every cell is
    /// extracted now, by the column's function applied to the row.
    pub fn from_data<T, F: Fn(&T) -> CellValue>(columns: &[ColumnDef<T, F>], rows: Vec<T>) -> (t: Self)
        requires
            forall|r: int, c: int|
                0 <= r < rows.len() && 0 <= c < columns.len() ==> columns[c].cell_fn.requires(
                    (&rows[r],),
                ),
        ensures
            t@.headers.len() == columns.len(),
            forall|c: int|
                0 <= c < columns.len() ==> #[trigger] t@.headers[c] == columns[c].header
                    && t@.widths[c] == columns[c].width && t@.aligns[c] == columns[c].align,
            t@.cells.len() == rows.len(),
            forall|r: int, c: int|
                0 <= r < rows.len() && 0 <= c < columns.len() ==> columns[c].cell_fn.ensures(
                    (&rows[r],),
                    #[trigger] t@.cells[r][c],
                ),
            t@.header is None,
            t@.margin == 0,
            t@.focused_row is None,
    {
        let ncols = columns.len();
        let mut cell_data: Vec<Vec<CellValue>> = Vec::new();
        let nrows = rows.len();
        let mut r: usize = 0;
        while r < nrows
            invariant
                r <= nrows,
                nrows == rows.len(),
                ncols == columns.len(),
                cell_data.len() == r,
                forall|i: int, c: int|
                    0 <= i < rows.len() && 0 <= c < columns.len() ==> columns[c].cell_fn.requires(
                        (&rows[i],),
                    ),
                forall|i: int| 0 <= i < r ==> (#[trigger] cell_data@[i]).len() == ncols,
                forall|i: int, c: int|
                    0 <= i < r && 0 <= c < ncols ==> columns[c].cell_fn.ensures(
                        (&rows[i],),
                        #[trigger] cell_data@[i]@[c],
                    ),
            decreases nrows - r,
        {
            let mut row_cells: Vec<CellValue> = Vec::new();
            let mut c: usize = 0;
            while c < ncols
                invariant
                    c <= ncols,
                    r < nrows,
                    nrows == rows.len(),
                    ncols == columns.len(),
                    row_cells.len() == c,
                    forall|i: int, k: int|
                        0 <= i < rows.len() && 0 <= k < columns.len() ==> columns[k].cell_fn.requires(
                            (&rows[i],),
                        ),
                    forall|k: int|
                        0 <= k < c ==> columns[k].cell_fn.ensures(
                            (&rows[r as int],),
                            #[trigger] row_cells@[k],
                        ),
                decreases ncols - c,
            {
                let cell = (columns[c].cell_fn)(&rows[r]);
                row_cells.push(cell);
                c = c + 1;
            }
            cell_data.push(row_cells);
            r = r + 1;
        }
        let mut column_headers: Vec<String> = Vec::new();
        let mut column_widths: Vec<usize> = Vec::new();
        let mut column_aligns: Vec<Alignment> = Vec::new();
        let mut c: usize = 0;
        while c < ncols
            invariant
                c <= ncols,
                ncols == columns.len(),
                column_headers.len() == c,
                column_widths.len() == c,
                column_aligns.len() == c,
                forall|k: int| 0 <= k < c ==> #[trigger] column_headers@[k] == columns[k].header,
                forall|k: int| 0 <= k < c ==> #[trigger] column_widths@[k] == columns[k].width,
                forall|k: int| 0 <= k < c ==> #[trigger] column_aligns@[k] == columns[k].align,
            decreases ncols - c,
        {
            let h = columns[c].header.clone();
            column_headers.push(h);
            column_widths.push(columns[c].width);
            column_aligns.push(columns[c].align);
            c = c + 1;
        }
        TableWidget {
            column_headers,
            column_widths,
            column_aligns,
            cell_data,
            header: None,
            margin: 0,
            focused_row: None,
        }
    }

    /// Build a table from its columns (headers, widths, alignments) and the
    /// cells of each row.
    pub fn from_cells(
        column_headers: Vec<String>,
        column_widths: Vec<usize>,
        column_aligns: Vec<Alignment>,
        cell_data: Vec<Vec<CellValue>>,
    ) -> (t: Self)
        requires
            column_widths@.len() == column_headers@.len(),
            column_aligns@.len() == column_headers@.len(),
            forall|r: int|
                0 <= r < cell_data@.len() ==> (#[trigger] cell_data@[r])@.len()
                    == column_headers@.len(),
        ensures
            t@ == (TableView {
                headers: column_headers@,
                widths: column_widths@,
                aligns: column_aligns@,
                cells: cell_data@.map_values(|r: Vec<CellValue>| r@),
                header: None,
                margin: 0,
                focused_row: None,
            }),
    {
        TableWidget {
            column_headers,
            column_widths,
            column_aligns,
            cell_data,
            header: None,
            margin: 0,
            focused_row: None,
        }
    }

    /// Set the table header.
    pub fn with_header(self, header: &str) -> (t: Self)
        ensures
            t@.header matches Some(h) && h@ == header@,
            t@.headers == self@.headers,
            t@.widths == self@.widths,
            t@.aligns == self@.aligns,
            t@.cells == self@.cells,
            t@.margin == self@.margin,
            t@.focused_row == self@.focused_row,
    {
        let h = String::from_str(header);
        proof {
            use_type_invariant(&self);
        }
        assert(table_shape(self@));
        assert(table_shape(TableView { header: Some(h), ..self@ }));
        let t = TableWidget { header: Some(h), ..self };
        t
    }

    /// Set the left margin.
    pub fn with_margin(self, margin: u16) -> (t: Self)
        ensures
            t@ == (TableView { margin, ..self@ }),
    {
        proof {
            use_type_invariant(&self);
        }
        TableWidget { margin, ..self }
    }

    /// Set the width of one column.
    pub fn with_column_width(self, col: usize, width: usize) -> (t: Self)
        requires
            col < self@.headers.len(),
        ensures
            t@ == (TableView { widths: self@.widths.update(col as int, width), ..self@ }),
            table_shape(t@),
    {
        proof {
            use_type_invariant(&self);
        }
        let mut column_widths = self.column_widths;
        column_widths.set(col, width);
        TableWidget { column_widths, ..self }
    }

    /// Set which row is focused.
    pub fn with_focused_row(self, row: Option<usize>) -> (t: Self)
        ensures
            t@ == (TableView { focused_row: row, ..self@ }),
            table_shape(t@),
    {
        proof {
            use_type_invariant(&self);
        }
        TableWidget { focused_row: row, ..self }
    }

    /// Fit a text to a column: truncated with "..." when too long, padded
    /// by the alignment when too short.
    pub fn format_cell(&self, text: &str, width: usize, align: Alignment) -> (s: String)
        ensures
            s@ == fit_cell(text@, width as nat, align),
    {
        format_cell(text, width, align)
    }

    fn column_has_link_exec(&self, col: usize) -> (b: bool)
        ensures
            b == column_has_link(self@.cells, col as int),
    {
        let n = self.cell_data.len();
        let mut r: usize = 0;
        while r < n
            invariant
                r <= n,
                n == self.cell_data@.len(),
                forall|i: int|
                    0 <= i < r ==> !(0 <= col < (#[trigger] self@.cells[i]).len() && cell_is_link(
                        self@.cells[i][col as int],
                    )),
            decreases n - r,
        {
            if col < self.cell_data[r].len() && self.cell_data[r][col].is_link() {
                assert(self@.cells[r as int] == self.cell_data@[r as int]@);
                assert(0 <= col < self@.cells[r as int].len() && cell_is_link(
                    self@.cells[r as int][col as int],
                ));
                return true;
            }
            assert(self@.cells[r as int] == self.cell_data@[r as int]@);
            r = r + 1;
        }
        false
    }

    /// The first link column after `current_col`, if any.  A link column is
    /// one with at least one link cell.
    pub fn find_next_link_column(&self, current_col: usize) -> (r: Option<usize>)
        requires
            current_col < usize::MAX,
        ensures
            r matches Some(c) ==> current_col < c < self@.headers.len() && column_has_link(
                self@.cells,
                c as int,
            ) && forall|k: int| current_col < k < c ==> !column_has_link(self@.cells, k),
            r is None ==> forall|k: int|
                current_col < k < self@.headers.len() ==> !column_has_link(self@.cells, k),
    {
        let n = self.column_headers.len();
        let mut c: usize = current_col + 1;
        while c < n
            invariant
                current_col < c,
                n == self@.headers.len(),
                forall|k: int| current_col < k < c ==> !column_has_link(self@.cells, k),
            decreases n - c,
        {
            if self.column_has_link_exec(c) {
                return Some(c);
            }
            c = c + 1;
        }
        None
    }

    /// The last link column before `current_col`, if any.
    pub fn find_prev_link_column(&self, current_col: usize) -> (r: Option<usize>)
        ensures
            r matches Some(c) ==> c < current_col && column_has_link(self@.cells, c as int)
                && forall|k: int| c < k < current_col ==> !column_has_link(self@.cells, k),
            r is None ==> forall|k: int| 0 <= k < current_col ==> !column_has_link(self@.cells, k),
    {
        if current_col == 0 {
            return None;
        }
        let mut c: usize = current_col;
        while c > 0
            invariant
                c <= current_col,
                forall|k: int| c <= k < current_col ==> !column_has_link(self@.cells, k),
            decreases c,
        {
            if self.column_has_link_exec(c - 1) {
                return Some(c - 1);
            }
            c = c - 1;
        }
        None
    }

    /// The first link column, if any.
    pub fn find_first_link_column(&self) -> (r: Option<usize>)
        ensures
            r matches Some(c) ==> c < self@.headers.len() && column_has_link(self@.cells, c as int)
                && forall|k: int| 0 <= k < c ==> !column_has_link(self@.cells, k),
            r is None ==> forall|k: int|
                0 <= k < self@.headers.len() ==> !column_has_link(self@.cells, k),
    {
        let n = self.column_headers.len();
        let mut c: usize = 0;
        while c < n
            invariant
                n == self@.headers.len(),
                forall|k: int| 0 <= k < c ==> !column_has_link(self@.cells, k),
            decreases n - c,
        {
            if self.column_has_link_exec(c) {
                return Some(c);
            }
            c = c + 1;
        }
        None
    }

    /// The cell at `row`, `col`, or None out of bounds.
    pub fn get_cell_value(&self, row: usize, col: usize) -> (r: Option<CellValue>)
        ensures
            r == (if row < self@.cells.len() && col < self@.cells[row as int].len() {
                Some(self@.cells[row as int][col as int])
            } else {
                None
            }),
    {
        if row < self.cell_data.len() && col < self.cell_data[row].len() {
            Some(self.cell_data[row][col].clone())
        } else {
            None
        }
    }

    /// The number of rows.
    pub fn row_count(&self) -> (n: usize)
        ensures
            n == self@.cells.len(),
    {
        self.cell_data.len()
    }

    /// The number of columns.
    pub fn column_count(&self) -> (n: usize)
        ensures
            n == self@.headers.len(),
            table_shape(self@),
    {
        proof {
            use_type_invariant(self);
        }
        self.column_headers.len()
    }

    /// Whether the table has a header.
    pub fn has_header(&self) -> (b: bool)
        ensures
            b == self@.header is Some,
    {
        self.header.is_some()
    }

    /// The height the table needs: 3 lines of header when there is one, the
    /// column headers and their separator when there are columns, and one
    /// line per row (the row count taken modulo 2^16).
    pub fn preferred_height(&self) -> (h: Option<u16>)
        requires
            header_lines(self@) + (if self@.headers.len() > 0 { 2int } else { 0 })
                + (self@.cells.len() as u16) <= u16::MAX,
        ensures
            h == Some(
                (header_lines(self@) + (if self@.headers.len() > 0 { 2int } else { 0 })
                    + (self@.cells.len() as u16)) as u16,
            ),
    {
        let header_height: u16 = if self.header.is_some() { 3 } else { 0 };
        let col_header_height: u16 = if self.column_headers.len() > 0 { 1 } else { 0 };
        let separator_height: u16 = if self.column_headers.len() > 0 { 1 } else { 0 };
        let rows_height: u16 = self.cell_data.len() as u16;
        Some(header_height + col_header_height + separator_height + rows_height)
    }

    /// The width the table needs: margin, columns and the gaps between them
    /// (taken modulo 2^16); 0 without columns.
    pub fn preferred_width(&self) -> (w: Option<u16>)
        requires
            self@.margin + columns_width(self@) <= usize::MAX,
        ensures
            w == Some(
                if self@.widths.len() == 0 {
                    0u16
                } else {
                    (self@.margin + columns_width(self@)) as u16
                },
            ),
    {
        proof {
            use_type_invariant(self);
        }
        if self.column_widths.len() == 0 {
            return Some(0);
        }
        let total = self.sum_widths();
        let spacing = (self.column_widths.len() - 1) * 2;
        Some((self.margin as usize + total + spacing) as u16)
    }

    /// Whether the table's lines can be laid out: its margin, selector,
    /// columns and gaps fit in `usize`.
    pub fn layout_fits(&self) -> (b: bool)
        ensures
            b == (self@.margin + SELECTOR_WIDTH + columns_width(self@) <= usize::MAX),
    {
        let n = self.column_widths.len();
        let mut total: usize = self.margin as usize + SELECTOR_WIDTH;
        let mut i: usize = 0;
        while i < n
            invariant
                i <= n,
                n == self@.widths.len(),
                total == self@.margin + SELECTOR_WIDTH + width_sum(self@.widths.take(i as int)),
            decreases n - i,
        {
            proof {
                lemma_width_sum_step(self@.widths, i as int);
                lemma_width_sum_prefix(self@.widths, i + 1);
            }
            match total.checked_add(self.column_widths[i]) {
                Some(t) => {
                    total = t;
                },
                None => {
                    proof {
                        lemma_width_sum_prefix(self@.widths, i + 1);
                    }
                    return false;
                },
            }
            i = i + 1;
        }
        assert(self@.widths.take(n as int) =~= self@.widths);
        if n == 0 {
            return true;
        }
        let gaps = n - 1;
        let room: usize = usize::MAX - total;
        let half: usize = room / 2;
        if gaps > half {
            assert(2 * gaps > room) by (nonlinear_arith)
                requires
                    gaps > half,
                    half == room / 2,
            ;
            false
        } else {
            assert(2 * gaps <= room) by (nonlinear_arith)
                requires
                    gaps <= half,
                    half == room / 2,
            ;
            true
        }
    }

    fn sum_widths(&self) -> (total: usize)
        requires
            width_sum(self@.widths) <= usize::MAX,
        ensures
            total == width_sum(self@.widths),
    {
        let n = self.column_widths.len();
        let mut total: usize = 0;
        let mut i: usize = 0;
        while i < n
            invariant
                i <= n,
                n == self@.widths.len(),
                total == width_sum(self@.widths.take(i as int)),
                width_sum(self@.widths) <= usize::MAX,
            decreases n - i,
        {
            proof {
                lemma_width_sum_step(self@.widths, i as int);
                lemma_width_sum_prefix(self@.widths, i + 1);
            }
            total = total + self.column_widths[i];
            i = i + 1;
        }
        assert(self@.widths.take(n as int) =~= self@.widths);
        total
    }

    /// Lay out the table as lines of positioned, styled text: what drawing
    /// the table writes, with `selector` in front of the focused row and
    /// `horizontal` repeated under the column headers.
    pub fn layout_lines(&self, selector: &str, horizontal: &str) -> (lines: Vec<Vec<Segment>>)
        requires
            self@.margin + SELECTOR_WIDTH + columns_width(self@) <= usize::MAX,
        ensures
            table_lines_ok(self@, selector@, horizontal@, lines@),
    {
        proof {
            use_type_invariant(self);
        }
        let ghost v = self@;
        let margin = self.margin as usize;
        let indent = margin + SELECTOR_WIDTH;
        let mut lines: Vec<Vec<Segment>> = Vec::new();
        match &self.header {
            Some(t) => {
                let mut s = String::new();
                push_spaces(&mut s, indent);
                s.append(t.as_str());
                let mut l0: Vec<Segment> = Vec::new();
                l0.push(Segment { x: 0, text: s, style: SegmentStyle::Header });
                let mut u = String::new();
                push_spaces(&mut u, indent);
                push_repeat(&mut u, "═", t.unicode_len());
                let mut l1: Vec<Segment> = Vec::new();
                l1.push(Segment { x: 0, text: u, style: SegmentStyle::HeaderUnderline });
                lines.push(l0);
                lines.push(l1);
                lines.push(Vec::new());
            },
            None => {},
        }
        let ghost h = header_lines(v);
        assert(lines@.len() == h);
        let total = self.sum_widths();
        proof {
            lemma_width_sum_prefix(v.widths, 0);
        }
        let n = self.column_widths.len();
        // Column headers.
        let mut header_line: Vec<Segment> = Vec::new();
        let mut x: usize = indent;
        let mut j: usize = 0;
        while j < n
            invariant
                j <= n,
                n == v.headers.len(),
                n == v.widths.len(),
                v == self@,
                table_shape(v),
                v.margin + SELECTOR_WIDTH + columns_width(v) <= usize::MAX,
                indent == v.margin + SELECTOR_WIDTH,
                j < n ==> x == column_x(v, j as int),
                header_line@.len() == j,
                forall|k: int|
                    0 <= k < j ==> segment_is(
                        #[trigger] header_line@[k],
                        column_x(v, k),
                        fit_cell(v.headers[k]@, v.widths[k] as nat, Alignment::Left),
                        SegmentStyle::ColumnHeader,
                    ),
            decreases n - j,
        {
            let w = self.column_widths[j];
            let text = format_cell(self.column_headers[j].as_str(), w, Alignment::Left);
            let ghost before = header_line@;
            let seg = Segment { x, text, style: SegmentStyle::ColumnHeader };
            header_line.push(seg);
            proof {
                assert(header_line@ == before.push(seg));
                assert forall|k: int|
                    0 <= k < j + 1 implies segment_is(
                    #[trigger] header_line@[k],
                    column_x(v, k),
                    fit_cell(v.headers[k]@, v.widths[k] as nat, Alignment::Left),
                    SegmentStyle::ColumnHeader,
                ) by {
                    if k < j {
                        assert(header_line@[k] == before[k]);
                    }
                }
            }
            proof {
                lemma_width_sum_step(v.widths, j as int);
                lemma_width_sum_prefix(v.widths, j + 1);
            }
            if j + 1 < n {
                x = x + w + COLUMN_GAP;
            }
            j = j + 1;
        }
        lines.push(header_line);
        // Separator.
        let sep_width = total + if n == 0 { 0 } else { (n - 1) * COLUMN_GAP };
        let mut sep = String::new();
        push_spaces(&mut sep, indent);
        push_repeat(&mut sep, horizontal, sep_width);
        let mut sep_line: Vec<Segment> = Vec::new();
        sep_line.push(Segment { x: 0, text: sep, style: SegmentStyle::Separator });
        lines.push(sep_line);
        // Rows.
        let ghost prefix = lines@;
        assert(prefix.len() == h + 2);
        let nrows = self.cell_data.len();
        let mut r: usize = 0;
        while r < nrows
            invariant
                r <= nrows,
                nrows == v.cells.len(),
                v == self@,
                table_shape(v),
                v.margin + SELECTOR_WIDTH + columns_width(v) <= usize::MAX,
                lines@.len() == h + 2 + r,
                h == header_lines(v),
                prefix.len() == h + 2,
                forall|k: int| 0 <= k < h + 2 ==> #[trigger] lines@[k] == prefix[k],
                forall|k: int| 0 <= k < r ==> row_line_ok(v, k, selector@, #[trigger] lines@[h + 2 + k]@),
            decreases nrows - r,
        {
            let line = self.row_line(r, selector);
            let ghost before = lines@;
            lines.push(line);
            proof {
                assert(lines@ == before.push(line));
                assert forall|k: int| 0 <= k < r + 1 implies row_line_ok(
                    v,
                    k,
                    selector@,
                    #[trigger] lines@[h + 2 + k]@,
                ) by {
                    if k < r {
                        assert(0 <= h + 2 + k < before.len());
                        assert(lines@[h + 2 + k] == before[h + 2 + k]);
                    }
                }
                assert forall|k: int| 0 <= k < h + 2 implies #[trigger] lines@[k] == prefix[k] by {
                    assert(lines@[k] == before[k]);
                }
            }
            r = r + 1;
        }
        assert(lines@[h] == prefix[h]);
        assert(lines@[h + 1] == prefix[h + 1]);
        proof {
            if v.header is Some {
                assert(lines@[0] == prefix[0]);
                assert(lines@[1] == prefix[1]);
                assert(lines@[2] == prefix[2]);
            }
        }
        lines
    }

    fn row_line(&self, r: usize, selector: &str) -> (line: Vec<Segment>)
        requires
            r < self@.cells.len(),
            self@.margin + SELECTOR_WIDTH + columns_width(self@) <= usize::MAX,
        ensures
            row_line_ok(self@, r as int, selector@, line@),
    {
        proof {
            use_type_invariant(self);
        }
        let ghost v = self@;
        let margin = self.margin as usize;
        let focused = match self.focused_row {
            Some(f) => f == r,
            None => false,
        };
        let mut line: Vec<Segment> = Vec::new();
        if margin > 0 {
            let mut m = String::new();
            push_spaces(&mut m, margin);
            line.push(Segment { x: 0, text: m, style: SegmentStyle::Margin });
        }
        let mut sel = String::new();
        if focused {
            sel.append(selector);
            sel.append(" ");
        } else {
            push_spaces(&mut sel, SELECTOR_WIDTH);
        }
        proof {
            reveal_strlit(" ");
        }
        line.push(Segment { x: margin, text: sel, style: SegmentStyle::Selector });
        let ghost lead: int = if v.margin > 0 { 1 } else { 0 };
        let ghost start = line@;
        let n = self.column_widths.len();
        let row = &self.cell_data[r];
        assert(v.cells[r as int] == row@);
        proof {
            lemma_width_sum_prefix(v.widths, 0);
        }
        let mut x: usize = margin + SELECTOR_WIDTH;
        let mut j: usize = 0;
        while j < n
            invariant
                j <= n,
                n == v.headers.len(),
                n == v.widths.len(),
                n == v.aligns.len(),
                row@.len() == n,
                v == self@,
                r < v.cells.len(),
                v.cells[r as int] == row@,
                focused == (v.focused_row == Some(r)),
                v.margin + SELECTOR_WIDTH + columns_width(v) <= usize::MAX,
                j < n ==> x == column_x(v, j as int),
                line@.len() == lead + 1 + j,
                lead == (if v.margin > 0 { 1int } else { 0int }),
                start.len() == lead + 1,
                forall|k: int| 0 <= k < lead + 1 ==> #[trigger] line@[k] == start[k],
                forall|k: int|
                    0 <= k < j ==> segment_is(
                        #[trigger] line@[lead + 1 + k],
                        column_x(v, k),
                        fit_cell(cell_text(v.cells[r as int][k]), v.widths[k] as nat, v.aligns[k]),
                        SegmentStyle::Cell {
                            focused_link: focused && cell_is_link(v.cells[r as int][k]),
                        },
                    ),
            decreases n - j,
        {
            let w = self.column_widths[j];
            let cell = &row[j];
            let text = format_cell(cell.display_text(), w, self.column_aligns[j]);
            let link = cell.is_link();
            let ghost before = line@;
            let seg = Segment { x, text, style: SegmentStyle::Cell { focused_link: focused && link } };
            line.push(seg);
            proof {
                assert(line@ == before.push(seg));
                assert forall|k: int| 0 <= k < lead + 1 implies #[trigger] line@[k] == start[k] by {
                    assert(line@[k] == before[k]);
                }
                assert forall|k: int|
                    0 <= k < j + 1 implies segment_is(
                    #[trigger] line@[lead + 1 + k],
                    column_x(v, k),
                    fit_cell(cell_text(v.cells[r as int][k]), v.widths[k] as nat, v.aligns[k]),
                    SegmentStyle::Cell {
                        focused_link: focused && cell_is_link(v.cells[r as int][k]),
                    },
                ) by {
                    if k < j {
                        assert(line@[lead + 1 + k] == before[lead + 1 + k]);
                    }
                }
            }
            proof {
                lemma_width_sum_step(v.widths, j as int);
                lemma_width_sum_prefix(v.widths, j + 1);
            }
            if j + 1 < n {
                x = x + w + COLUMN_GAP;
            }
            j = j + 1;
        }
        assert(line@[lead] == start[lead]);
        proof {
            if v.margin > 0 {
                assert(line@[0] == start[0]);
            }
        }
        line
    }
}

/// How a piece of a rendered table line is styled.
#[derive(Clone, Copy, Debug, PartialEq, Eq, Structural)]
pub enum SegmentStyle {
    /// The table header text.
    Header,
    /// The double line under the table header.
    HeaderUnderline,
    /// A column header.
    ColumnHeader,
    /// The line under the column headers.
    Separator,
    /// The left margin of a row.
    Margin,
    /// The selector in front of a row ("▶ " on the focused row).
    Selector,
    /// A cell; `focused_link` when it is a link cell of the focused row.
    Cell { focused_link: bool },
}

/// A piece of text placed `x` columns right of the table's left edge.
#[derive(Debug)]
pub struct Segment {
    pub x: usize,
    pub text: String,
    pub style: SegmentStyle,
}

/// Whether a segment has the given position, text and style.
pub open spec fn segment_is(seg: Segment, x: int, text: Seq<char>, style: SegmentStyle) -> bool {
    seg.x == x && seg.text@ == text && seg.style == style
}

/// Left edge of column `j`: after the margin, the selector, the earlier
/// columns and their gaps.
pub open spec fn column_x(v: TableView, j: int) -> int {
    v.margin + SELECTOR_WIDTH + width_sum(v.widths.take(j)) + COLUMN_GAP * j
}

/// Width of all columns with the gaps between them.
pub open spec fn columns_width(v: TableView) -> int {
    width_sum(v.widths) + if v.widths.len() == 0 {
        0
    } else {
        COLUMN_GAP * (v.widths.len() - 1)
    }
}

/// Number of lines the header takes (text, underline, blank line).
pub open spec fn header_lines(v: TableView) -> int {
    if v.header is Some {
        3
    } else {
        0
    }
}

/// The rendered lines of a table: header (when present), column headers,
/// separator, and one line per row.
pub open spec fn table_lines_ok(
    v: TableView,
    selector: Seq<char>,
    horizontal: Seq<char>,
    lines: Seq<Vec<Segment>>,
) -> bool {
    let h = header_lines(v);
    let indent = spaces((v.margin + SELECTOR_WIDTH) as nat);
    &&& lines.len() == h + 2 + v.cells.len()
    &&& (v.header matches Some(t) ==> {
        &&& lines[0]@.len() == 1
        &&& segment_is(lines[0]@[0], 0, indent + t@, SegmentStyle::Header)
        &&& lines[1]@.len() == 1
        &&& segment_is(
            lines[1]@[0],
            0,
            indent + repeat("═"@, t@.len()),
            SegmentStyle::HeaderUnderline,
        )
        &&& lines[2]@.len() == 0
    })
    &&& lines[h]@.len() == v.headers.len()
    &&& forall|j: int|
        0 <= j < v.headers.len() ==> segment_is(
            #[trigger] lines[h]@[j],
            column_x(v, j),
            fit_cell(v.headers[j]@, v.widths[j] as nat, Alignment::Left),
            SegmentStyle::ColumnHeader,
        )
    &&& lines[h + 1]@.len() == 1
    &&& segment_is(
        lines[h + 1]@[0],
        0,
        indent + repeat(horizontal, columns_width(v) as nat),
        SegmentStyle::Separator,
    )
    &&& forall|r: int| 0 <= r < v.cells.len() ==> row_line_ok(v, r, selector, #[trigger] lines[h + 2 + r]@)
}

/// The rendered line of row `r`: margin, selector, then each cell fitted to
/// its column.
pub open spec fn row_line_ok(v: TableView, r: int, selector: Seq<char>, line: Seq<Segment>) -> bool {
    let focused = v.focused_row == Some(r as usize);
    let lead: int = if v.margin > 0 { 1 } else { 0 };
    &&& line.len() == lead + 1 + v.headers.len()
    &&& (v.margin > 0 ==> segment_is(line[0], 0, spaces(v.margin as nat), SegmentStyle::Margin))
    &&& segment_is(
        line[lead],
        v.margin as int,
        if focused { selector + " "@ } else { spaces(SELECTOR_WIDTH as nat) },
        SegmentStyle::Selector,
    )
    &&& forall|j: int|
        0 <= j < v.headers.len() ==> segment_is(
            #[trigger] line[lead + 1 + j],
            column_x(v, j),
            fit_cell(cell_text(v.cells[r][j]), v.widths[j] as nat, v.aligns[j]),
            SegmentStyle::Cell { focused_link: focused && cell_is_link(v.cells[r][j]) },
        )
}

/// The total of a prefix grows by the next width.
pub proof fn lemma_width_sum_step(w: Seq<usize>, i: int)
    requires
        0 <= i < w.len(),
    ensures
        width_sum(w.take(i + 1)) == width_sum(w.take(i)) + w[i],
{
    assert(w.take(i + 1).drop_last() =~= w.take(i));
}

/// A prefix never totals more than the whole sequence.
pub proof fn lemma_width_sum_prefix(w: Seq<usize>, i: int)
    requires
        0 <= i <= w.len(),
    ensures
        0 <= width_sum(w.take(i)) <= width_sum(w),
    decreases w.len() - i,
{
    if i < w.len() {
        lemma_width_sum_step(w, i);
        lemma_width_sum_prefix(w, i + 1);
        lemma_width_sum_nonneg(w.take(i));
    } else {
        assert(w.take(i) =~= w);
        lemma_width_sum_nonneg(w);
    }
}

proof fn lemma_width_sum_nonneg(w: Seq<usize>)
    ensures
        width_sum(w) >= 0,
    decreases w.len(),
{
    if w.len() > 0 {
        lemma_width_sum_nonneg(w.drop_last());
    }
}

/// Fit a text to a column of `width` characters.
pub fn format_cell(text: &str, width: usize, align: Alignment) -> (s: String)
    ensures
        s@ == fit_cell(text@, width as nat, align),
{
    let text_len = text.unicode_len();
    if text_len >= width {
        if width > 3 {
            let mut s = String::from_str(text.substring_char(0, width - 3));
            s.append("...");
            proof {
                reveal_strlit("...");
            }
            assert(s@ =~= fit_cell(text@, width as nat, align));
            s
        } else {
            let s = String::from_str(text.substring_char(0, width));
            assert(s@ =~= fit_cell(text@, width as nat, align));
            s
        }
    } else {
        let pad = width - text_len;
        let mut s = String::new();
        match align {
            Alignment::Left => {
                s.append(text);
                push_spaces(&mut s, pad);
            },
            Alignment::Right => {
                push_spaces(&mut s, pad);
                s.append(text);
            },
            Alignment::Center => {
                let left_pad = pad / 2;
                let right_pad = pad - left_pad;
                push_spaces(&mut s, left_pad);
                s.append(text);
                push_spaces(&mut s, right_pad);
            },
        }
        assert(s@ =~= fit_cell(text@, width as nat, align));
        s
    }
}

} // verus!
