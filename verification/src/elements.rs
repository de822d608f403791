//! Document elements: the tree a document is built from, the height each
//! element takes, and the focusable elements it contributes.

use vstd::prelude::*;

use crate::focus::{FocusKey, FocusView, FocusableElement, FocusableId, Rect, RowPosition};
use crate::link::{LinkTarget, TargetView};
use crate::table::{CellValue, TableView, TableWidget, cell_is_link, cell_text, header_lines, table_shape};
use crate::text::{decimal, push_char, push_decimal, push_signed_decimal, signed_decimal};

verus! {

#[verifier::external_type_specification]
#[verifier::external_body]
pub struct ExStyle(ratatui::style::Style);

/// Height of the column headers of an embedded table (names and separator).
pub const TABLE_COLUMN_HEADER_HEIGHT: u16 = 2;

/// Height of a score box (status line and a box with double borders).
pub const SCORE_BOX_HEIGHT: u16 = 6;

/// Width of a score box.
pub const SCORE_BOX_WIDTH: u16 = 25;

/// How far a game shown in a score box has got.
#[derive(Debug)]
pub enum ScoreBoxStatus {
    /// Over, possibly after overtime or a shootout.
    Final { overtime: bool, shootout: bool },
    /// Being played: the period, the time left on the clock if known, and
    /// whether the game is in an intermission.
    Live { period: String, time: Option<String>, intermission: bool },
    /// Not started yet, with its start time.
    Scheduled { start_time: String },
}

/// The content of a score box: the two teams, their scores if known, and
/// the state of the game.
#[derive(Debug)]
pub struct ScoreBox {
    pub away_team: String,
    pub home_team: String,
    pub away_score: Option<i32>,
    pub home_score: Option<i32>,
    pub status: ScoreBoxStatus,
}

impl ScoreBox {
    /// A score box with the given content.
    pub fn new(
        away_team: String,
        home_team: String,
        away_score: Option<i32>,
        home_score: Option<i32>,
        status: ScoreBoxStatus,
    ) -> (b: Self)
        ensures
            b == (ScoreBox { away_team, home_team, away_score, home_score, status }),
    {
        ScoreBox { away_team, home_team, away_score, home_score, status }
    }
}

/// Elements that can be part of a document.
#[derive(Debug)]
pub enum DocumentElement {
    /// Plain text paragraph.
    Text { content: String, style: Option<ratatui::style::Style> },
    /// Heading (levels 1 to 6).
    Heading { level: u8, content: String },
    /// Section title: bold text, optionally underlined, then a blank line.
    SectionTitle { content: String, underline: bool },
    /// A link that can be focused and activated.
    Link { display: String, target: LinkTarget, id: String, focused: bool },
    /// Horizontal separator.
    Separator,
    /// Vertical spacing.
    Spacer { height: u16 },
    /// Container grouping elements one under another.
    Group { children: Vec<DocumentElement>, style: Option<ratatui::style::Style> },
    /// A table rendered at its natural height, with the focusable cells
    /// extracted from its link cells.
    Table { widget: TableWidget, focusable: Vec<FocusableElement> },
    /// Elements side by side; as tall as the tallest.
    Row { children: Vec<DocumentElement>, gap: u16 },
    /// A compact score box for one game.
    ScoreBoxElement { id: String, game_id: i64, score_box: ScoreBox, focused: bool },
    /// An element drawn with a left margin.
    Indented { element: Box<DocumentElement>, margin: u16 },
}

// ---------------------------------------------------------------------------
// Heights
// ---------------------------------------------------------------------------

/// Number of '\n' characters.
pub open spec fn newline_count(s: Seq<char>) -> nat
    decreases s.len(),
{
    if s.len() == 0 {
        0
    } else {
        newline_count(s.drop_last()) + if s.last() == '\n' {
            1nat
        } else {
            0nat
        }
    }
}

/// Number of lines of a text as `str::lines` counts them: a final line
/// ending does not start another line, and the empty text has none.
pub open spec fn line_count(s: Seq<char>) -> nat {
    if s.len() == 0 {
        0
    } else {
        newline_count(s) + if s.last() == '\n' {
            0nat
        } else {
            1nat
        }
    }
}

/// Height of a text paragraph: its line count, at least 1, taken modulo 2^16.
pub open spec fn text_height(s: Seq<char>) -> u16 {
    (if line_count(s) >= 1 {
        line_count(s)
    } else {
        1
    }) as u16
}

/// Height of a table: 3 lines of header when there is one, 2 for the column
/// headers and separator when there are columns, and one line per row.
pub open spec fn table_height(v: TableView) -> nat {
    (header_lines(v) + (if v.headers.len() > 0 {
        2int
    } else {
        0
    }) + (v.cells.len() as u16)) as nat
}

/// The height of an element.
pub open spec fn elem_height(e: DocumentElement) -> nat
    decreases e,
{
    match e {
        DocumentElement::Text { content, .. } => text_height(content@) as nat,
        DocumentElement::Heading { level, .. } => if level == 1 {
            2
        } else {
            1
        },
        DocumentElement::SectionTitle { underline, .. } => if underline {
            3
        } else {
            2
        },
        DocumentElement::Link { .. } => 1,
        DocumentElement::Separator => 1,
        DocumentElement::Spacer { height } => height as nat,
        DocumentElement::Group { children, .. } => seq_height(children@),
        DocumentElement::Table { widget, .. } => table_height(widget@),
        DocumentElement::Row { children, .. } => seq_max_height(children@),
        DocumentElement::ScoreBoxElement { .. } => SCORE_BOX_HEIGHT as nat,
        DocumentElement::Indented { element, .. } => elem_height(*element),
    }
}

/// Total height of elements stacked one under another.
pub open spec fn seq_height(s: Seq<DocumentElement>) -> nat
    decreases s,
{
    if s.len() == 0 {
        0
    } else {
        seq_height(s.subrange(0, s.len() - 1)) + elem_height(s[s.len() - 1])
    }
}

/// Height of the tallest of elements side by side (0 for none).
pub open spec fn seq_max_height(s: Seq<DocumentElement>) -> nat
    decreases s,
{
    if s.len() == 0 {
        0
    } else {
        let rest = seq_max_height(s.subrange(0, s.len() - 1));
        let h = elem_height(s[s.len() - 1]);
        if rest >= h {
            rest
        } else {
            h
        }
    }
}

/// Whether the height of an element can be computed in 16 bits: every group
/// totals at most `u16::MAX`, and every table's height fits.
pub open spec fn elem_ok(e: DocumentElement) -> bool
    decreases e,
{
    match e {
        DocumentElement::Group { children, .. } => seq_ok(children@) && seq_height(children@)
            <= u16::MAX,
        DocumentElement::Table { widget, .. } => table_height_fits(widget@),
        DocumentElement::Row { children, .. } => seq_ok(children@),
        DocumentElement::Indented { element, .. } => elem_ok(*element),
        _ => true,
    }
}

/// Every element of a sequence satisfies `elem_ok`.
pub open spec fn seq_ok(s: Seq<DocumentElement>) -> bool
    decreases s,
{
    if s.len() == 0 {
        true
    } else {
        seq_ok(s.subrange(0, s.len() - 1)) && elem_ok(s[s.len() - 1])
    }
}

/// Whether the table's height fits in 16 bits.
pub open spec fn table_height_fits(v: TableView) -> bool {
    header_lines(v) + (if v.headers.len() > 0 {
        2int
    } else {
        0
    }) + (v.cells.len() as u16) <= u16::MAX
}


// ---------------------------------------------------------------------------
// Focusable elements
// ---------------------------------------------------------------------------

/// The values of a list of focusable elements.
pub open spec fn views(s: Seq<FocusableElement>) -> Seq<FocusView> {
    s.map_values(|e: FocusableElement| e@)
}

/// The action a score box activates: "open_boxscore_<game id>".
pub open spec fn score_box_action(game_id: i64) -> Seq<char> {
    "open_boxscore_"@ + signed_decimal(game_id as int)
}

/// A focusable element moved down by `y` lines.
pub open spec fn shift_one(f: FocusView, y: int) -> FocusView {
    FocusView { y: (f.y + y) as u16, rect: Rect { y: (f.rect.y + y) as u16, ..f.rect }, ..f }
}

/// Focusable elements moved down by `y` lines.
pub open spec fn shifted(fs: Seq<FocusView>, y: int) -> Seq<FocusView> {
    fs.map_values(|f: FocusView| shift_one(f, y))
}

/// Moving a list down moves its last element down.
proof fn lemma_shifted_push(s: Seq<FocusView>, v: FocusView, y: int)
    ensures
        shifted(s.push(v), y) == shifted(s, y).push(shift_one(v, y)),
{
    assert(shifted(s.push(v), y) =~= shifted(s, y).push(shift_one(v, y)));
}

/// Focusable elements tagged as belonging to child `child_idx` of the Row at
/// `row_y`, numbered within the child.
pub open spec fn tagged(fs: Seq<FocusView>, row_y: int, child_idx: int) -> Seq<FocusView> {
    Seq::new(
        fs.len(),
        |i: int|
            FocusView {
                row_position: Some(
                    RowPosition {
                        row_y: row_y as u16,
                        child_idx: child_idx as usize,
                        idx_within_child: i as usize,
                    },
                ),
                ..fs[i]
            },
    )
}

/// The focusable elements an element contributes, in tab order, when it
/// starts at line `y` of the document.
pub open spec fn collected(e: DocumentElement, y: int) -> Seq<FocusView>
    decreases e,
{
    match e {
        DocumentElement::Link { display, target, id, .. } => seq![
            FocusView {
                id: FocusKey::Link(id@),
                y: y as u16,
                height: 1,
                rect: Rect { x: 0, y: y as u16, width: display@.len() as u16, height: 1 },
                link_target: Some(target@),
                row_position: None,
            },
        ],
        DocumentElement::Group { children, .. } => group_collected(children@, y),
        DocumentElement::Table { focusable, .. } => shifted(views(focusable@), y),
        DocumentElement::Row { children, .. } => row_collected(children@, y),
        DocumentElement::ScoreBoxElement { game_id, .. } => seq![
            FocusView {
                id: FocusKey::GameLink(game_id),
                y: y as u16,
                height: SCORE_BOX_HEIGHT,
                rect: Rect { x: 0, y: y as u16, width: SCORE_BOX_WIDTH, height: SCORE_BOX_HEIGHT },
                link_target: Some(TargetView::Action(score_box_action(game_id))),
                row_position: None,
            },
        ],
        DocumentElement::Indented { element, .. } => collected(*element, y),
        _ => Seq::empty(),
    }
}

/// Focusable elements of elements stacked from line `y`: each child starts
/// where the ones before it end.
pub open spec fn group_collected(s: Seq<DocumentElement>, y: int) -> Seq<FocusView>
    decreases s,
{
    if s.len() == 0 {
        Seq::empty()
    } else {
        let prefix = s.subrange(0, s.len() - 1);
        group_collected(prefix, y) + collected(s[s.len() - 1], y + seq_height(prefix))
    }
}

/// Focusable elements of elements side by side at line `y`, left to right,
/// tagged with their place in the row.
pub open spec fn row_collected(s: Seq<DocumentElement>, y: int) -> Seq<FocusView>
    decreases s,
{
    if s.len() == 0 {
        Seq::empty()
    } else {
        let prefix = s.subrange(0, s.len() - 1);
        row_collected(prefix, y) + tagged(collected(s[s.len() - 1], y), y, s.len() - 1)
    }
}

/// Whether collecting the focusable elements of `e` from line `y` stays
/// within 16-bit positions: groups end by line `u16::MAX`, and, where
/// `cells` is set, the table cells moved down still fit.
pub open spec fn collect_ok(e: DocumentElement, y: int, cells: bool) -> bool
    decreases e,
{
    match e {
        DocumentElement::Group { children, .. } => group_ok(children@, y, cells),
        DocumentElement::Table { focusable, .. } => cells ==> forall|i: int|
            0 <= i < focusable@.len() ==> (#[trigger] focusable@[i]).y + y <= u16::MAX
                && focusable@[i].rect.y + y <= u16::MAX,
        DocumentElement::Row { children, .. } => row_ok(children@, y, cells),
        DocumentElement::Indented { element, .. } => collect_ok(*element, y, cells),
        _ => true,
    }
}

/// `collect_ok` for stacked elements.
pub open spec fn group_ok(s: Seq<DocumentElement>, y: int, cells: bool) -> bool
    decreases s,
{
    if s.len() == 0 {
        true
    } else {
        let prefix = s.subrange(0, s.len() - 1);
        group_ok(prefix, y, cells) && elem_ok(s[s.len() - 1]) && y + seq_height(s) <= u16::MAX
            && collect_ok(s[s.len() - 1], y + seq_height(prefix), cells)
    }
}

/// `collect_ok` for elements side by side.
pub open spec fn row_ok(s: Seq<DocumentElement>, y: int, cells: bool) -> bool
    decreases s,
{
    if s.len() == 0 {
        true
    } else {
        row_ok(s.subrange(0, s.len() - 1), y, cells) && collect_ok(s[s.len() - 1], y, cells)
    }
}

/// The action a link cell activates: "player:<id>" or "team:<abbrev>".
pub open spec fn cell_action(c: CellValue) -> Seq<char> {
    match c {
        CellValue::PlayerLink { player_id, .. } => "player:"@ + signed_decimal(player_id as int),
        CellValue::TeamLink { team_abbrev, .. } => "team:"@ + team_abbrev@,
        CellValue::Text(_) => Seq::empty(),
    }
}

/// The focusable element of the link cell at `row`, `col` of a table named
/// `name` whose header takes `header` lines: one line at the row's line
/// under the header and the column headers, as wide as the cell text's
/// UTF-8 length.
pub open spec fn cell_focus(name: Seq<char>, header: int, row: int, col: int, c: CellValue) -> FocusView {
    let y = (header + TABLE_COLUMN_HEADER_HEIGHT + row) as u16;
    FocusView {
        id: FocusKey::TableCell { table_name: name, row: row as usize, col: col as usize },
        y,
        height: 1,
        rect: Rect {
            x: 0,
            y,
            width: (vstd::utf8::encode_utf8(cell_text(c)).len() as usize) as u16,
            height: 1,
        },
        link_target: Some(TargetView::Action(cell_action(c))),
        row_position: None,
    }
}

/// The focusable link cells among the first `n` cells of row `row`, left to
/// right.
pub open spec fn row_focus(name: Seq<char>, v: TableView, row: int, n: int) -> Seq<FocusView>
    decreases n,
{
    if n <= 0 {
        Seq::empty()
    } else {
        let prev = row_focus(name, v, row, n - 1);
        let c = v.cells[row][n - 1];
        if cell_is_link(c) {
            prev.push(cell_focus(name, header_lines(v), row, n - 1, c))
        } else {
            prev
        }
    }
}

/// The focusable link cells of the first `n` rows of a table, row by row.
pub open spec fn table_focus(name: Seq<char>, v: TableView, n: int) -> Seq<FocusView>
    decreases n,
{
    if n <= 0 {
        Seq::empty()
    } else {
        table_focus(name, v, n - 1) + row_focus(name, v, n - 1, v.headers.len() as int)
    }
}

/// Extending a prefix of stacked or side-by-side elements by one element.
pub proof fn lemma_collect_step(s: Seq<DocumentElement>, y: int, i: int, cells: bool)
    requires
        0 <= i < s.len(),
    ensures
        group_collected(s.take(i + 1), y) == group_collected(s.take(i), y) + collected(
            s[i],
            y + seq_height(s.take(i)),
        ),
        group_ok(s.take(i + 1), y, cells) == (group_ok(s.take(i), y, cells) && elem_ok(s[i]) && y + seq_height(
            s.take(i + 1),
        ) <= u16::MAX && collect_ok(s[i], y + seq_height(s.take(i)), cells)),
        row_collected(s.take(i + 1), y) == row_collected(s.take(i), y) + tagged(
            collected(s[i], y),
            y,
            i,
        ),
        row_ok(s.take(i + 1), y, cells) == (row_ok(s.take(i), y, cells) && collect_ok(s[i], y, cells)),
{
    assert(s.take(i + 1).subrange(0, i) =~= s.take(i));
    assert(s.take(i + 1)[i] == s[i]);
}

/// The conditions for collecting hold of every prefix when they hold of the
/// whole sequence.
pub proof fn lemma_collect_ok_prefix(s: Seq<DocumentElement>, y: int, i: int, cells: bool)
    requires
        0 <= i <= s.len(),
    ensures
        group_ok(s, y, cells) ==> group_ok(s.take(i), y, cells),
        row_ok(s, y, cells) ==> row_ok(s.take(i), y, cells),
    decreases s.len() - i,
{
    if i < s.len() {
        lemma_collect_step(s, y, i, cells);
        lemma_collect_ok_prefix(s, y, i + 1, cells);
    } else {
        assert(s.take(i) =~= s);
    }
}

/// A prefix of a sequence one element shorter.
pub proof fn lemma_seq_height_step(s: Seq<DocumentElement>, i: int)
    requires
        0 <= i < s.len(),
    ensures
        seq_height(s.take(i + 1)) == seq_height(s.take(i)) + elem_height(s[i]),
        seq_max_height(s.take(i + 1)) == (if seq_max_height(s.take(i)) >= elem_height(s[i]) {
            seq_max_height(s.take(i))
        } else {
            elem_height(s[i])
        }),
        seq_ok(s.take(i + 1)) == (seq_ok(s.take(i)) && elem_ok(s[i])),
{
    assert(s.take(i + 1).subrange(0, i) =~= s.take(i));
}

/// Heights of prefixes grow with the prefix.
pub proof fn lemma_seq_height_prefix(s: Seq<DocumentElement>, i: int)
    requires
        0 <= i <= s.len(),
    ensures
        seq_height(s.take(i)) <= seq_height(s),
        seq_ok(s) ==> seq_ok(s.take(i)),
    decreases s.len() - i,
{
    if i < s.len() {
        lemma_seq_height_step(s, i);
        lemma_seq_height_prefix(s, i + 1);
    } else {
        assert(s.take(i) =~= s);
    }
}

/// Every element of an ok sequence is ok.
pub proof fn lemma_seq_ok_elem(s: Seq<DocumentElement>, i: int)
    requires
        0 <= i < s.len(),
        seq_ok(s),
    ensures
        elem_ok(s[i]),
        elem_height(s[i]) <= seq_height(s),
{
    lemma_seq_height_prefix(s, i + 1);
    lemma_seq_height_step(s, i);
}

/// Number of lines of a text, as `str::lines` counts them.
pub fn count_lines(content: &str) -> (n: usize)
    ensures
        n == line_count(content@),
{
    let len = content.unicode_len();
    if len == 0 {
        return 0;
    }
    let mut newlines: usize = 0;
    let mut i: usize = 0;
    while i < len
        invariant
            i <= len,
            len == content@.len(),
            newlines == newline_count(content@.take(i as int)),
            newlines <= i,
        decreases len - i,
    {
        let c = content.get_char(i);
        assert(content@.take(i + 1).drop_last() =~= content@.take(i as int));
        if c == '\n' {
            newlines = newlines + 1;
        }
        i = i + 1;
    }
    assert(content@.take(len as int) =~= content@);
    let last = content.get_char(len - 1);
    if last == '\n' {
        newlines
    } else {
        proof {
            lemma_newline_count_bound(content@);
        }
        newlines + 1
    }
}

proof fn lemma_newline_count_bound(s: Seq<char>)
    ensures
        newline_count(s) <= s.len(),
        s.len() > 0 && s.last() != '\n' ==> newline_count(s) < s.len(),
    decreases s.len(),
{
    if s.len() > 0 {
        lemma_newline_count_bound(s.drop_last());
    }
}

/// Tag the elements of `out` from index `first` on as belonging to child
/// `child_idx` of the Row at line `row_y`.
fn tag_row(
    out: &mut Vec<FocusableElement>,
    first: usize,
    row_y: u16,
    child_idx: usize,
    Ghost(added): Ghost<Seq<FocusView>>,
)
    requires
        first <= old(out)@.len(),
        views(old(out)@).subrange(first as int, old(out)@.len() as int) == added,
    ensures
        views(final(out)@) == views(old(out)@).subrange(0, first as int) + tagged(
            added,
            row_y as int,
            child_idx as int,
        ),
{
    let n = out.len();
    let ghost orig = out@;
    assert forall|j: int| first <= j < n implies added[j - first] == (#[trigger] orig[j])@ by {
        assert(views(orig).subrange(first as int, n as int)[j - first] == views(orig)[j]);
    }
    let mut k: usize = first;
    while k < n
        invariant
            first <= k <= n,
            n == out@.len(),
            n == orig.len(),
            added.len() == n - first,
            forall|j: int| first <= j < n ==> added[j - first] == (#[trigger] orig[j])@,
            forall|j: int| 0 <= j < first ==> (#[trigger] out@[j]) == orig[j],
            forall|j: int| k <= j < n ==> (#[trigger] out@[j]) == orig[j],
            forall|j: int|
                first <= j < k ==> (#[trigger] out@[j])@ == tagged(
                    added,
                    row_y as int,
                    child_idx as int,
                )[j - first],
        decreases n - k,
    {
        let mut e = out[k].clone();
        e.row_position = Some(RowPosition { row_y, child_idx, idx_within_child: k - first });
        assert(orig[k as int]@ == added[k - first]);
        out.set(k, e);
        k = k + 1;
    }
    assert(views(out@) =~= views(orig).subrange(0, first as int) + tagged(
        added,
        row_y as int,
        child_idx as int,
    ));
}

/// Appending to a list of focusable elements appends its value.
proof fn lemma_views_push(s: Seq<FocusableElement>, x: FocusableElement)
    ensures
        views(s.push(x)) == views(s).push(x@),
{
    assert(views(s.push(x)) =~= views(s).push(x@));
}

/// The values of a list of identifiers.
pub open spec fn keys(s: Seq<FocusableId>) -> Seq<FocusKey> {
    s.map_values(|x: FocusableId| x@)
}

/// The identifiers of a list of focusable elements.
pub open spec fn ids_of(fs: Seq<FocusView>) -> Seq<FocusKey> {
    fs.map_values(|f: FocusView| f.id)
}

/// Moving or tagging focusable elements keeps their identifiers, and the
/// identifiers of two lists put together are those of each in turn.
proof fn lemma_ids_of(a: Seq<FocusView>, b: Seq<FocusView>, y: int, row_y: int, child_idx: int)
    ensures
        ids_of(a + b) == ids_of(a) + ids_of(b),
        ids_of(shifted(a, y)) == ids_of(a),
        ids_of(tagged(a, row_y, child_idx)) == ids_of(a),
{
    assert(ids_of(a + b) =~= ids_of(a) + ids_of(b));
    assert(ids_of(shifted(a, y)) =~= ids_of(a));
    assert(ids_of(tagged(a, row_y, child_idx)) =~= ids_of(a));
}

/// Stacked elements whose focusable elements can be collected from line `y`
/// also have a total height that fits below line `y`.
pub proof fn lemma_group_ok_heights(s: Seq<DocumentElement>, y: int, cells: bool)
    requires
        group_ok(s, y, cells),
        0 <= y <= u16::MAX,
    ensures
        seq_ok(s),
        y + seq_height(s) <= u16::MAX,
    decreases s.len(),
{
    if s.len() > 0 {
        lemma_group_ok_heights(s.subrange(0, s.len() - 1), y, cells);
    }
}

/// Whether the focusable elements of a document's elements, stacked from
/// the top, can be collected with 16-bit line positions.
pub fn layout_fits(elements: &[DocumentElement]) -> (b: bool)
    ensures
        b == group_ok(elements@, 0, true),
{
    let n = elements.len();
    let mut offset: u32 = 0;
    let mut i: usize = 0;
    assert(elements@.take(0) =~= Seq::<DocumentElement>::empty());
    while i < n
        invariant
            i <= n,
            n == elements@.len(),
            group_ok(elements@.take(i as int), 0, true),
            offset == seq_height(elements@.take(i as int)),
            offset <= u16::MAX,
        decreases n - i,
    {
        proof {
            lemma_collect_step(elements@, 0, i as int, true);
            lemma_collect_ok_prefix(elements@, 0, i + 1, true);
            lemma_seq_height_step(elements@, i as int);
        }
        if !elements[i].fits() {
            return false;
        }
        if !elements[i].fits_at(offset as u16) {
            return false;
        }
        let h = elements[i].height();
        if offset + h as u32 > 0xffff {
            return false;
        }
        offset = offset + h as u32;
        i = i + 1;
    }
    assert(elements@.take(n as int) =~= elements@);
    true
}

/// The total height of a document's elements stacked from the top, or None
/// where it cannot be computed in 16 bits.
pub fn layout_height(elements: &[DocumentElement]) -> (r: Option<u16>)
    ensures
        r == (if seq_ok(elements@) && seq_height(elements@) <= u16::MAX {
            Some(seq_height(elements@) as u16)
        } else {
            None
        }),
{
    let n = elements.len();
    let mut total: u32 = 0;
    let mut i: usize = 0;
    while i < n
        invariant
            i <= n,
            n == elements@.len(),
            seq_ok(elements@.take(i as int)),
            total == seq_height(elements@.take(i as int)),
            total <= u16::MAX,
        decreases n - i,
    {
        proof {
            lemma_seq_height_step(elements@, i as int);
            lemma_seq_height_prefix(elements@, i + 1);
        }
        if !elements[i].fits() {
            proof {
                if seq_ok(elements@) {
                    lemma_seq_ok_elem(elements@, i as int);
                }
            }
            return None;
        }
        total = total + elements[i].height() as u32;
        i = i + 1;
        if total > 0xffff {
            return None;
        }
    }
    assert(elements@.take(n as int) =~= elements@);
    Some(total as u16)
}

impl DocumentElement {
    /// A text element.
    pub fn text(content: &str) -> (e: Self)
        ensures
            e matches DocumentElement::Text { content: c, style } && c@ == content@ && style is None,
    {
        DocumentElement::Text { content: String::from_str(content), style: None }
    }

    /// A styled text element.
    pub fn styled_text(content: &str, style: ratatui::style::Style) -> (e: Self)
        ensures
            e matches DocumentElement::Text { content: c, style: s } && c@ == content@ && s
                == Some(style),
    {
        DocumentElement::Text { content: String::from_str(content), style: Some(style) }
    }

    /// A heading; the level is clamped to 1 ..= 6.
    pub fn heading(level: u8, content: &str) -> (e: Self)
        ensures
            e matches DocumentElement::Heading { level: l, content: c } && c@ == content@ && l == (
            if level < 1 {
                1
            } else if level > 6 {
                6
            } else {
                level
            }),
    {
        let l = if level < 1 {
            1
        } else if level > 6 {
            6
        } else {
            level
        };
        DocumentElement::Heading { level: l, content: String::from_str(content) }
    }

    /// A section title (bold text with an optional underline).
    pub fn section_title(content: &str, underline: bool) -> (e: Self)
        ensures
            e matches DocumentElement::SectionTitle { content: c, underline: u } && c@ == content@
                && u == underline,
    {
        DocumentElement::SectionTitle { content: String::from_str(content), underline }
    }

    /// An unfocused link.
    pub fn link(id: &str, display: &str, target: LinkTarget) -> (e: Self)
        ensures
            e matches DocumentElement::Link { display: d, target: t, id: i, focused } && d@
                == display@ && t == target && i@ == id@ && !focused,
    {
        DocumentElement::Link {
            id: String::from_str(id),
            display: String::from_str(display),
            target,
            focused: false,
        }
    }

    /// A focused link.
    pub fn focused_link(id: &str, display: &str, target: LinkTarget) -> (e: Self)
        ensures
            e matches DocumentElement::Link { display: d, target: t, id: i, focused } && d@
                == display@ && t == target && i@ == id@ && focused,
    {
        DocumentElement::Link {
            id: String::from_str(id),
            display: String::from_str(display),
            target,
            focused: true,
        }
    }

    /// A separator.
    pub fn separator() -> (e: Self)
        ensures
            e == DocumentElement::Separator,
    {
        DocumentElement::Separator
    }

    /// Vertical space of the given height.
    pub fn spacer(height: u16) -> (e: Self)
        ensures
            e == (DocumentElement::Spacer { height }),
    {
        DocumentElement::Spacer { height }
    }

    /// A group of elements stacked vertically.
    pub fn group(children: Vec<DocumentElement>) -> (e: Self)
        ensures
            e == (DocumentElement::Group { children, style: None }),
    {
        DocumentElement::Group { children, style: None }
    }

    /// A styled group of elements.
    pub fn styled_group(children: Vec<DocumentElement>, style: ratatui::style::Style) -> (e: Self)
        ensures
            e == (DocumentElement::Group { children, style: Some(style) }),
    {
        DocumentElement::Group { children, style: Some(style) }
    }

    /// An element drawn with a left margin.
    pub fn indented(element: DocumentElement, margin: u16) -> (e: Self)
        ensures
            e == (DocumentElement::Indented { element: Box::new(element), margin }),
    {
        DocumentElement::Indented { element: Box::new(element), margin }
    }

    /// Elements side by side, two characters apart.
    pub fn row(children: Vec<DocumentElement>) -> (e: Self)
        ensures
            e == (DocumentElement::Row { children, gap: 2 }),
    {
        DocumentElement::Row { children, gap: 2 }
    }

    /// Elements side by side with a given gap.
    pub fn row_with_gap(children: Vec<DocumentElement>, gap: u16) -> (e: Self)
        ensures
            e == (DocumentElement::Row { children, gap }),
    {
        DocumentElement::Row { children, gap }
    }

    /// A table embedded in a document, with a focusable element for each
    /// link cell. Cell IDs name the table, row and column; the cells' lines
    /// start under the table's header and the column headers.
    pub fn table(name: &str, widget: TableWidget) -> (e: Self)
        requires
            widget@.headers.len() == 0 || header_lines(widget@) + widget@.cells.len() <= u16::MAX
                - TABLE_COLUMN_HEADER_HEIGHT,
        ensures
            e matches DocumentElement::Table { widget: w, focusable } && w == widget && views(
                focusable@,
            ) == table_focus(name@, widget@, widget@.cells.len() as int),
    {
        let mut focusable: Vec<FocusableElement> = Vec::new();
        let nrows = widget.row_count();
        let ncols = widget.column_count();
        let hdr: u16 = if widget.has_header() {
            3
        } else {
            0
        };
        let mut r: usize = 0;
        while r < nrows
            invariant
                r <= nrows,
                nrows == widget@.cells.len(),
                ncols == widget@.headers.len(),
                table_shape(widget@),
                ncols == 0 || header_lines(widget@) + nrows <= u16::MAX - TABLE_COLUMN_HEADER_HEIGHT,
                hdr == header_lines(widget@),
                views(focusable@) == table_focus(name@, widget@, r as int),
            decreases nrows - r,
        {
            let mut c: usize = 0;
            let ghost row_start = views(focusable@);
            while c < ncols
                invariant
                    r < nrows,
                    c <= ncols,
                    nrows == widget@.cells.len(),
                    ncols == widget@.headers.len(),
                    table_shape(widget@),
                    ncols == 0 || header_lines(widget@) + nrows <= u16::MAX - TABLE_COLUMN_HEADER_HEIGHT,
                    hdr == header_lines(widget@),
                    row_start == table_focus(name@, widget@, r as int),
                    views(focusable@) == row_start + row_focus(name@, widget@, r as int, c as int),
                decreases ncols - c,
            {
                assert(widget@.cells[r as int].len() == ncols);
                if let Some(cell) = widget.get_cell_value(r, c) {
                    let target = match &cell {
                        CellValue::PlayerLink { player_id, .. } => {
                            let mut a = String::from_str("player:");
                            push_signed_decimal(&mut a, *player_id);
                            Some(a)
                        },
                        CellValue::TeamLink { team_abbrev, .. } => {
                            let mut a = String::from_str("team:");
                            a.append(team_abbrev.as_str());
                            Some(a)
                        },
                        CellValue::Text(_) => None,
                    };
                    if let Some(action) = target {
                        proof {
                            reveal_strlit("player:");
                            reveal_strlit("team:");
                        }
                        let y: u16 = hdr + TABLE_COLUMN_HEADER_HEIGHT + (r as u16);
                        let width = cell.display_text().len() as u16;
                        let id = FocusableId::table_cell(name, r, c);
                        let ghost before = focusable@;
                        focusable.push(
                            FocusableElement {
                                id,
                                y,
                                height: 1,
                                rect: Rect { x: 0, y, width, height: 1 },
                                link_target: Some(LinkTarget::Action(action)),
                                row_position: None,
                            },
                        );
                        proof {
                            lemma_views_push(before, focusable@.last());
                            assert(focusable@.last()@ == cell_focus(
                                name@,
                                header_lines(widget@),
                                r as int,
                                c as int,
                                cell,
                            ));
                            assert(views(focusable@) =~= row_start + row_focus(
                                name@,
                                widget@,
                                r as int,
                                c + 1,
                            ));
                        }
                    }
                }
                c = c + 1;
            }
            proof {
                assert(views(focusable@) == table_focus(name@, widget@, r + 1));
            }
            r = r + 1;
        }
        DocumentElement::Table { widget, focusable }
    }

    /// A score box for a game, with the ID "scorebox_<game id>".
    pub fn score_box_element(game_id: i64, score_box: ScoreBox, focused: bool) -> (e: Self)
        ensures
            e matches DocumentElement::ScoreBoxElement { id, game_id: g, score_box: b, focused: f }
                && id@ == "scorebox_"@ + signed_decimal(game_id as int) && g == game_id && b
                == score_box && f == focused,
    {
        let mut id = String::from_str("scorebox_");
        push_signed_decimal(&mut id, game_id);
        proof {
            reveal_strlit("scorebox_");
        }
        DocumentElement::ScoreBoxElement { id, game_id, score_box, focused }
    }

    /// Append the focusable elements of this element, placed at line
    /// `y_offset` of the document, to `out`.
    #[verifier::loop_isolation(false)]
    pub fn collect_focusable(&self, out: &mut Vec<FocusableElement>, y_offset: u16)
        requires
            collect_ok(*self, y_offset as int, true),
        ensures
            views(final(out)@) == views(old(out)@) + collected(*self, y_offset as int),
        decreases self,
    {
        match self {
            DocumentElement::Link { display, target, id, .. } => {
                let w = display.as_str().unicode_len() as u16;
                let e = FocusableElement {
                    id: FocusableId::Link(id.clone()),
                    y: y_offset,
                    height: 1,
                    rect: Rect { x: 0, y: y_offset, width: w, height: 1 },
                    link_target: Some(target.clone()),
                    row_position: None,
                };
                let ghost before = out@;
                out.push(e);
                assert(views(out@) =~= views(before) + collected(*self, y_offset as int));
            },
            DocumentElement::Group { children, .. } => {
                let ghost start = out@;
                let n = children.len();
                let mut child_offset: u16 = y_offset;
                let mut i: usize = 0;
                proof {
                    assert(children@.take(0) =~= Seq::<DocumentElement>::empty());
                    assert(views(out@) =~= views(start) + group_collected(children@.take(0), y_offset as int));
                }
                while i < n
                    invariant
                        i <= n,
                        n == children@.len(),
                        group_ok(children@, y_offset as int, true),
                        child_offset == y_offset + seq_height(children@.take(i as int)),
                        views(out@) == views(start) + group_collected(children@.take(i as int), y_offset as int),
                    decreases n - i,
                {
                    proof {
                        lemma_collect_step(children@, y_offset as int, i as int, true);
                        lemma_collect_ok_prefix(children@, y_offset as int, i + 1, true);
                        lemma_seq_height_step(children@, i as int);
                        assert(decreases_to!(*self => children@[i as int]));
                    }
                    let ghost before = out@;
                    children[i].collect_focusable(out, child_offset);
                    let h = children[i].height();
                    child_offset = child_offset + h;
                    i = i + 1;
                    assert(views(out@) =~= views(start) + group_collected(children@.take(i as int), y_offset as int));
                }
                assert(children@.take(n as int) =~= children@);
            },
            DocumentElement::Table { focusable, .. } => {
                let ghost start = out@;
                let n = focusable.len();
                let mut i: usize = 0;
                while i < n
                    invariant
                        i <= n,
                        n == focusable@.len(),
                        forall|k: int|
                            0 <= k < focusable@.len() ==> (#[trigger] focusable@[k]).y + y_offset
                                <= u16::MAX && focusable@[k].rect.y + y_offset <= u16::MAX,
                        views(out@) == views(start) + shifted(views(focusable@).take(i as int), y_offset as int),
                    decreases n - i,
                {
                    let f = &focusable[i];
                    let mut adjusted = f.clone();
                    adjusted.y = f.y + y_offset;
                    adjusted.rect = Rect {
                        x: f.rect.x,
                        y: f.rect.y + y_offset,
                        width: f.rect.width,
                        height: f.rect.height,
                    };
                    let ghost before = out@;
                    out.push(adjusted);
                    i = i + 1;
                    proof {
                        let prev = views(focusable@).take(i - 1);
                        assert(views(focusable@).take(i as int) =~= prev.push(focusable@[i - 1]@));
                        lemma_views_push(before, adjusted);
                        lemma_shifted_push(prev, focusable@[i - 1]@, y_offset as int);
                        assert(adjusted@ == shift_one(focusable@[i - 1]@, y_offset as int));
                        assert(views(out@) =~= views(start) + shifted(views(focusable@).take(i as int), y_offset as int));
                    }
                }
                assert(views(focusable@).take(n as int) =~= views(focusable@));
            },
            DocumentElement::Row { children, .. } => {
                let ghost start = out@;
                let n = children.len();
                let mut i: usize = 0;
                proof {
                    assert(children@.take(0) =~= Seq::<DocumentElement>::empty());
                    assert(views(out@) =~= views(start) + row_collected(children@.take(0), y_offset as int));
                }
                while i < n
                    invariant
                        i <= n,
                        n == children@.len(),
                        row_ok(children@, y_offset as int, true),
                        views(out@) == views(start) + row_collected(children@.take(i as int), y_offset as int),
                    decreases n - i,
                {
                    proof {
                        lemma_collect_step(children@, y_offset as int, i as int, true);
                        lemma_collect_ok_prefix(children@, y_offset as int, i + 1, true);
                        assert(decreases_to!(*self => children@[i as int]));
                    }
                    let first = out.len();
                    let ghost before = out@;
                    children[i].collect_focusable(out, y_offset);
                    let ghost added = collected(children@[i as int], y_offset as int);
                    assert(views(out@) == views(before) + added);
                    assert(views(out@).subrange(first as int, out@.len() as int) =~= added);
                    assert(views(out@).subrange(0, first as int) =~= views(before));
                    tag_row(out, first, y_offset, i, Ghost(added));
                    i = i + 1;
                    assert(views(out@) =~= views(start) + row_collected(children@.take(i as int), y_offset as int));
                }
                assert(children@.take(n as int) =~= children@);
            },
            DocumentElement::ScoreBoxElement { game_id, .. } => {
                let mut action = String::from_str("open_boxscore_");
                push_signed_decimal(&mut action, *game_id);
                proof {
                    reveal_strlit("open_boxscore_");
                }
                let e = FocusableElement {
                    id: FocusableId::GameLink(*game_id),
                    y: y_offset,
                    height: SCORE_BOX_HEIGHT,
                    rect: Rect { x: 0, y: y_offset, width: SCORE_BOX_WIDTH, height: SCORE_BOX_HEIGHT },
                    link_target: Some(LinkTarget::Action(action)),
                    row_position: None,
                };
                let ghost before = out@;
                out.push(e);
                assert(views(out@) =~= views(before) + collected(*self, y_offset as int));
            },
            DocumentElement::Indented { element, .. } => {
                element.collect_focusable(out, y_offset);
            },
            _ => {
                assert(views(out@) =~= views(old(out)@) + collected(*self, y_offset as int));
            },
        }
    }

    /// Append the identifiers of the focusable elements of this element,
    /// placed at line `y_offset` of the document, to `out`.
    #[verifier::loop_isolation(false)]
    pub fn collect_focusable_ids(&self, out: &mut Vec<FocusableId>, y_offset: u16)
        requires
            collect_ok(*self, y_offset as int, false),
        ensures
            keys(final(out)@) == keys(old(out)@) + ids_of(collected(*self, y_offset as int)),
        decreases self,
    {
        let ghost start = out@;
        match self {
            DocumentElement::Link { id, .. } => {
                out.push(FocusableId::Link(id.clone()));
                assert(keys(out@) =~= keys(start) + ids_of(collected(*self, y_offset as int)));
            },
            DocumentElement::Group { children, .. } => {
                let n = children.len();
                let mut child_offset: u16 = y_offset;
                let mut i: usize = 0;
                proof {
                    assert(children@.take(0) =~= Seq::<DocumentElement>::empty());
                    assert(keys(out@) =~= keys(start) + ids_of(
                        group_collected(children@.take(0), y_offset as int),
                    ));
                }
                while i < n
                    invariant
                        i <= n,
                        n == children@.len(),
                        group_ok(children@, y_offset as int, false),
                        child_offset == y_offset + seq_height(children@.take(i as int)),
                        keys(out@) == keys(start) + ids_of(
                            group_collected(children@.take(i as int), y_offset as int),
                        ),
                    decreases n - i,
                {
                    let ghost prefix = children@.take(i as int);
                    proof {
                        lemma_collect_step(children@, y_offset as int, i as int, false);
                        lemma_collect_ok_prefix(children@, y_offset as int, i + 1, false);
                        lemma_seq_height_step(children@, i as int);
                        lemma_ids_of(
                            group_collected(prefix, y_offset as int),
                            collected(children@[i as int], y_offset + seq_height(prefix)),
                            0,
                            0,
                            0,
                        );
                        assert(decreases_to!(*self => children@[i as int]));
                    }
                    children[i].collect_focusable_ids(out, child_offset);
                    let h = children[i].height();
                    child_offset = child_offset + h;
                    i = i + 1;
                }
                assert(children@.take(n as int) =~= children@);
            },
            DocumentElement::Table { focusable, .. } => {
                let n = focusable.len();
                let mut i: usize = 0;
                while i < n
                    invariant
                        i <= n,
                        n == focusable@.len(),
                        keys(out@) == keys(start) + ids_of(views(focusable@).take(i as int)),
                    decreases n - i,
                {
                    let ghost before = out@;
                    out.push(focusable[i].id.clone());
                    i = i + 1;
                    proof {
                        let k = focusable@[i - 1]@.id;
                        assert(keys(out@) =~= keys(before).push(k));
                        assert(ids_of(views(focusable@).take(i as int)) =~= ids_of(
                            views(focusable@).take(i - 1),
                        ).push(k));
                        assert(keys(out@) =~= keys(start) + ids_of(views(focusable@).take(i as int)));
                    }
                }
                proof {
                    assert(views(focusable@).take(n as int) =~= views(focusable@));
                    lemma_ids_of(views(focusable@), Seq::empty(), y_offset as int, 0, 0);
                }
            },
            DocumentElement::Row { children, .. } => {
                let n = children.len();
                let mut i: usize = 0;
                proof {
                    assert(children@.take(0) =~= Seq::<DocumentElement>::empty());
                    assert(keys(out@) =~= keys(start) + ids_of(
                        row_collected(children@.take(0), y_offset as int),
                    ));
                }
                while i < n
                    invariant
                        i <= n,
                        n == children@.len(),
                        row_ok(children@, y_offset as int, false),
                        keys(out@) == keys(start) + ids_of(
                            row_collected(children@.take(i as int), y_offset as int),
                        ),
                    decreases n - i,
                {
                    proof {
                        let added = collected(children@[i as int], y_offset as int);
                        lemma_collect_step(children@, y_offset as int, i as int, false);
                        lemma_collect_ok_prefix(children@, y_offset as int, i + 1, false);
                        lemma_ids_of(
                            row_collected(children@.take(i as int), y_offset as int),
                            tagged(added, y_offset as int, i as int),
                            0,
                            0,
                            0,
                        );
                        lemma_ids_of(added, Seq::empty(), 0, y_offset as int, i as int);
                        assert(decreases_to!(*self => children@[i as int]));
                    }
                    children[i].collect_focusable_ids(out, y_offset);
                    i = i + 1;
                }
                assert(children@.take(n as int) =~= children@);
            },
            DocumentElement::ScoreBoxElement { game_id, .. } => {
                out.push(FocusableId::GameLink(*game_id));
                assert(keys(out@) =~= keys(start) + ids_of(collected(*self, y_offset as int)));
            },
            DocumentElement::Indented { element, .. } => {
                element.collect_focusable_ids(out, y_offset);
            },
            _ => {
                assert(keys(out@) =~= keys(start) + ids_of(collected(*self, y_offset as int)));
            },
        }
    }

    /// Whether the height of this element can be computed in 16 bits.
    #[verifier::loop_isolation(false)]
    pub fn fits(&self) -> (b: bool)
        ensures
            b == elem_ok(*self),
        decreases self,
    {
        match self {
            DocumentElement::Group { children, .. } => {
                let n = children.len();
                let mut total: u32 = 0;
                let mut i: usize = 0;
                while i < n
                    invariant
                        i <= n,
                        n == children@.len(),
                        seq_ok(children@.take(i as int)),
                        total == seq_height(children@.take(i as int)),
                        total <= u16::MAX,
                    decreases n - i,
                {
                    proof {
                        lemma_seq_height_step(children@, i as int);
                        lemma_seq_height_prefix(children@, i + 1);
                        assert(decreases_to!(*self => children@[i as int]));
                    }
                    if !children[i].fits() {
                        proof {
                            if seq_ok(children@) {
                                lemma_seq_ok_elem(children@, i as int);
                            }
                        }
                        return false;
                    }
                    let h = children[i].height();
                    total = total + h as u32;
                    i = i + 1;
                    if total > 0xffff {
                        return false;
                    }
                }
                assert(children@.take(n as int) =~= children@);
                true
            },
            DocumentElement::Table { widget, .. } => {
                let header: u32 = if widget.has_header() { 3 } else { 0 };
                let columns: u32 = if widget.column_count() > 0 { 2 } else { 0 };
                let rows: u32 = (widget.row_count() as u16) as u32;
                header + columns + rows <= 0xffff
            },
            DocumentElement::Row { children, .. } => {
                let n = children.len();
                let mut i: usize = 0;
                while i < n
                    invariant
                        i <= n,
                        n == children@.len(),
                        seq_ok(children@.take(i as int)),
                    decreases n - i,
                {
                    proof {
                        lemma_seq_height_step(children@, i as int);
                        lemma_seq_height_prefix(children@, i + 1);
                        assert(decreases_to!(*self => children@[i as int]));
                    }
                    if !children[i].fits() {
                        proof {
                            if seq_ok(children@) {
                                lemma_seq_ok_elem(children@, i as int);
                            }
                        }
                        return false;
                    }
                    i = i + 1;
                }
                assert(children@.take(n as int) =~= children@);
                true
            },
            DocumentElement::Indented { element, .. } => element.fits(),
            _ => true,
        }
    }

    /// Whether the focusable elements of this element, placed at line
    /// `y_offset`, can be collected with 16-bit positions.
    #[verifier::loop_isolation(false)]
    pub fn fits_at(&self, y_offset: u16) -> (b: bool)
        ensures
            b == collect_ok(*self, y_offset as int, true),
        decreases self,
    {
        match self {
            DocumentElement::Group { children, .. } => {
                let n = children.len();
                let mut child_offset: u32 = y_offset as u32;
                let mut i: usize = 0;
                assert(children@.take(0) =~= Seq::<DocumentElement>::empty());
                while i < n
                    invariant
                        i <= n,
                        n == children@.len(),
                        group_ok(children@.take(i as int), y_offset as int, true),
                        child_offset == y_offset + seq_height(children@.take(i as int)),
                        child_offset <= u16::MAX,
                    decreases n - i,
                {
                    proof {
                        lemma_collect_step(children@, y_offset as int, i as int, true);
                        lemma_collect_ok_prefix(children@, y_offset as int, i + 1, true);
                        lemma_seq_height_step(children@, i as int);
                        assert(decreases_to!(*self => children@[i as int]));
                    }
                    if !children[i].fits() {
                        return false;
                    }
                    if !children[i].fits_at(child_offset as u16) {
                        return false;
                    }
                    let h = children[i].height();
                    if child_offset + h as u32 > 0xffff {
                        return false;
                    }
                    child_offset = child_offset + h as u32;
                    i = i + 1;
                }
                assert(children@.take(n as int) =~= children@);
                true
            },
            DocumentElement::Table { focusable, .. } => {
                let n = focusable.len();
                let mut i: usize = 0;
                while i < n
                    invariant
                        i <= n,
                        n == focusable@.len(),
                        forall|k: int|
                            0 <= k < i ==> (#[trigger] focusable@[k]).y + y_offset <= u16::MAX
                                && focusable@[k].rect.y + y_offset <= u16::MAX,
                    decreases n - i,
                {
                    let f = &focusable[i];
                    if f.y as u32 + y_offset as u32 > 0xffff || f.rect.y as u32 + y_offset as u32
                        > 0xffff {
                        return false;
                    }
                    i = i + 1;
                }
                true
            },
            DocumentElement::Row { children, .. } => {
                let n = children.len();
                let mut i: usize = 0;
                assert(children@.take(0) =~= Seq::<DocumentElement>::empty());
                while i < n
                    invariant
                        i <= n,
                        n == children@.len(),
                        row_ok(children@.take(i as int), y_offset as int, true),
                    decreases n - i,
                {
                    proof {
                        lemma_collect_step(children@, y_offset as int, i as int, true);
                        lemma_collect_ok_prefix(children@, y_offset as int, i + 1, true);
                        assert(decreases_to!(*self => children@[i as int]));
                    }
                    if !children[i].fits_at(y_offset) {
                        return false;
                    }
                    i = i + 1;
                }
                assert(children@.take(n as int) =~= children@);
                true
            },
            DocumentElement::Indented { element, .. } => element.fits_at(y_offset),
            _ => true,
        }
    }

    /// The height this element needs.
    #[verifier::loop_isolation(false)]
    pub fn height(&self) -> (h: u16)
        requires
            elem_ok(*self),
        ensures
            h == elem_height(*self),
        decreases self,
    {
        match self {
            DocumentElement::Text { content, .. } => {
                let n = count_lines(content.as_str());
                let n = if n >= 1 { n } else { 1 };
                n as u16
            },
            DocumentElement::Heading { level, .. } => if *level == 1 {
                2
            } else {
                1
            },
            DocumentElement::SectionTitle { underline, .. } => if *underline {
                3
            } else {
                2
            },
            DocumentElement::Link { .. } => 1,
            DocumentElement::Separator => 1,
            DocumentElement::Spacer { height } => *height,
            DocumentElement::Group { children, .. } => {
                let n = children.len();
                let mut total: u16 = 0;
                let mut i: usize = 0;
                while i < n
                    invariant
                        i <= n,
                        n == children@.len(),
                        seq_ok(children@),
                        seq_height(children@) <= u16::MAX,
                        total == seq_height(children@.take(i as int)),
                    decreases n - i,
                {
                    proof {
                        lemma_seq_ok_elem(children@, i as int);
                        lemma_seq_height_step(children@, i as int);
                        lemma_seq_height_prefix(children@, i + 1);
                    }
                    proof {
                        assert(decreases_to!(*self => children@[i as int]));
                    }
                    let h = children[i].height();
                    total = total + h;
                    i = i + 1;
                }
                assert(children@.take(n as int) =~= children@);
                total
            },
            DocumentElement::Table { widget, .. } => {
                match widget.preferred_height() {
                    Some(h) => h,
                    None => 0,
                }
            },
            DocumentElement::Row { children, .. } => {
                let n = children.len();
                let mut best: u16 = 0;
                let mut i: usize = 0;
                while i < n
                    invariant
                        i <= n,
                        n == children@.len(),
                        seq_ok(children@),
                        best == seq_max_height(children@.take(i as int)),
                    decreases n - i,
                {
                    proof {
                        lemma_seq_ok_elem(children@, i as int);
                        lemma_seq_height_step(children@, i as int);
                    }
                    proof {
                        assert(decreases_to!(*self => children@[i as int]));
                    }
                    let h = children[i].height();
                    if h > best {
                        best = h;
                    }
                    i = i + 1;
                }
                assert(children@.take(n as int) =~= children@);
                best
            },
            DocumentElement::ScoreBoxElement { .. } => SCORE_BOX_HEIGHT,
            DocumentElement::Indented { element, .. } => element.height(),
        }
    }
}

/// The width of each child of a row of `n` children without widths of
/// their own: the area's width less the gaps, shared equally.
pub fn row_child_width(area_width: u16, gap: u16, n: u16) -> (w: u16)
    requires
        n > 0,
        gap * (n - 1) <= u16::MAX,
    ensures
        w == (if area_width >= gap * (n - 1) {
            area_width - gap * (n - 1)
        } else {
            0int
        }) / (n as int),
{
    let total_gap = gap * (n - 1);
    let available = area_width.saturating_sub(total_gap);
    available / n
}

/// The summary that stands in a debug listing for the elements whose
/// content is too large to list: a table by its numbers of rows, columns
/// and focusable cells, a row by its number of children.
pub open spec fn debug_summary_text(e: DocumentElement) -> Option<Seq<char>> {
    match e {
        DocumentElement::Table { widget, focusable } => Some(
            "Table { rows: "@ + decimal(widget@.cells.len()) + ", columns: "@ + decimal(
                widget@.headers.len(),
            ) + ", focusable_count: "@ + decimal(focusable@.len()) + " }"@,
        ),
        DocumentElement::Row { children, gap } => Some(
            "Row { children: "@ + decimal(children@.len()) + ", gap: "@ + decimal(gap as nat)
                + " }"@,
        ),
        _ => None,
    }
}

impl DocumentElement {
    /// The summary of a table ("Table { rows: 3, columns: 2,
    /// focusable_count: 3 }") or of a row ("Row { children: 2, gap: 1 }")
    /// as a debug listing shows it; `None` for the other elements, which
    /// are listed field by field.
    pub fn debug_summary(&self) -> (r: Option<String>)
        ensures
            r matches Some(s) ==> debug_summary_text(*self) == Some(s@),
            r is None ==> debug_summary_text(*self) is None,
    {
        proof {
            reveal_strlit("Table { rows: ");
            reveal_strlit(", columns: ");
            reveal_strlit(", focusable_count: ");
            reveal_strlit(" }");
            reveal_strlit("Row { children: ");
            reveal_strlit(", gap: ");
        }
        match self {
            DocumentElement::Table { widget, focusable } => {
                let mut s = String::from_str("Table { rows: ");
                push_decimal(&mut s, widget.row_count() as u64);
                s.append(", columns: ");
                push_decimal(&mut s, widget.column_count() as u64);
                s.append(", focusable_count: ");
                push_decimal(&mut s, focusable.len() as u64);
                s.append(" }");
                Some(s)
            },
            DocumentElement::Row { children, gap } => {
                let mut s = String::from_str("Row { children: ");
                push_decimal(&mut s, children.len() as u64);
                s.append(", gap: ");
                push_decimal(&mut s, *gap as u64);
                s.append(" }");
                Some(s)
            },
            _ => None,
        }
    }
}

/// What stands in front of a link's text: the selector and a space when
/// the link has the focus, two spaces otherwise (so that links line up).
pub open spec fn link_prefix_text(focused: bool, selector: Seq<char>) -> Seq<char> {
    if focused {
        selector + " "@
    } else {
        "  "@
    }
}

/// The prefix of a link's line.
pub fn link_prefix(focused: bool, selector: &str) -> (s: String)
    ensures
        s@ == link_prefix_text(focused, selector@),
{
    proof {
        reveal_strlit(" ");
        reveal_strlit("  ");
    }
    if focused {
        let mut s = String::from_str(selector);
        s.append(" ");
        s
    } else {
        String::from_str("  ")
    }
}

/// The line under a level-one heading or an underlined section title: a
/// '═' under each character of its text.
pub open spec fn underline_text(content: Seq<char>) -> Seq<char> {
    Seq::new(content.len(), |i: int| '═')
}

/// The underline of a text.
pub fn underline(content: &str) -> (s: String)
    ensures
        s@ == underline_text(content@),
{
    let n = content.unicode_len();
    let mut s = String::new();
    let mut i: usize = 0;
    while i < n
        invariant
            i <= n,
            n == content@.len(),
            s@ == Seq::new(i as nat, |k: int| '═'),
        decreases n - i,
    {
        push_char(&mut s, '═');
        assert(s@ =~= Seq::new((i + 1) as nat, |k: int| '═'));
        i = i + 1;
    }
    s
}

/// Whether the children of a row are laid out by their own widths: when
/// every child has one (a score box); otherwise the width is shared out
/// equally.
pub open spec fn uses_preferred_widths(children: Seq<DocumentElement>) -> bool {
    forall|i: int| 0 <= i < children.len() ==> children[i] is ScoreBoxElement
}

/// Whether a row's children are laid out by their own widths.
pub fn row_uses_preferred_widths(children: &Vec<DocumentElement>) -> (b: bool)
    ensures
        b == uses_preferred_widths(children@),
{
    let n = children.len();
    let mut i: usize = 0;
    while i < n
        invariant
            i <= n,
            n == children@.len(),
            forall|k: int| 0 <= k < i ==> children@[k] is ScoreBoxElement,
        decreases n - i,
    {
        match &children[i] {
            DocumentElement::ScoreBoxElement { .. } => {},
            _ => {
                return false;
            },
        }
        i = i + 1;
    }
    true
}

} // verus!
