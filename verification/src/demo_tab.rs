//! The demo tab: a document that shows every kind of document element,
//! embedded standings, links and two tables of top scorers side by side.

use vstd::prelude::*;

use crate::action::Effect;
use crate::builder::{DocumentBuilder, is_link};
use crate::document::{Document, FocusContext, focused_row_of, opt_key};
use crate::elements::{DocumentElement, table_focus, views};
use crate::focus::FocusKey;
use crate::link::{LinkTarget, TargetView};
use crate::nav::{DocumentNavMsg, DocumentNavState, nav_moved};
use crate::standings::{
    MAX_TABLE_ROWS, StandingRow, by_points, create_standings_table_with_selection,
    lemma_by_points_sorted, sort_by_points_desc, standings_table,
};
use crate::stats_tables::{CellKey, cell_key};
use crate::table::{Alignment, CellValue, TableView, TableWidget};
use crate::text::{decimal, u64_to_string};

verus! {

/// A player of the demo tables.
#[derive(Debug)]
pub struct DemoPlayer {
    pub name: String,
    pub player_id: i64,
    pub team: String,
    pub games: u32,
    pub goals: u32,
    pub assists: u32,
}

impl Clone for DemoPlayer {
    fn clone(&self) -> (res: Self)
        ensures
            res == *self,
    {
        DemoPlayer {
            name: self.name.clone(),
            player_id: self.player_id,
            team: self.team.clone(),
            games: self.games,
            goals: self.goals,
            assists: self.assists,
        }
    }
}

/// Points: goals and assists.
pub open spec fn points_of(p: DemoPlayer) -> int {
    p.goals + p.assists
}

impl DemoPlayer {
    /// A demo player.
    pub fn new(name: &str, player_id: i64, team: &str, games: u32, goals: u32, assists: u32) -> (p:
        Self)
        ensures
            p.name@ == name@,
            p.player_id == player_id,
            p.team@ == team@,
            p.games == games,
            p.goals == goals,
            p.assists == assists,
    {
        DemoPlayer {
            name: String::from_str(name),
            player_id,
            team: String::from_str(team),
            games,
            goals,
            assists,
        }
    }

    /// Points: goals and assists.
    pub fn points(&self) -> (n: u32)
        requires
            points_of(*self) <= u32::MAX,
        ensures
            n == points_of(*self),
    {
        self.goals + self.assists
    }
}

/// Whether every player's points fit in 32 bits.
pub open spec fn players_ok(s: Seq<DemoPlayer>) -> bool {
    forall|i: int| 0 <= i < s.len() ==> points_of(#[trigger] s[i]) <= u32::MAX
}

/// `p` is the given player with the given season.
pub open spec fn is_player(
    p: DemoPlayer,
    name: Seq<char>,
    player_id: i64,
    team: Seq<char>,
    games: u32,
    goals: u32,
    assists: u32,
) -> bool {
    &&& p.name@ == name
    &&& p.player_id == player_id
    &&& p.team@ == team
    &&& p.games == games
    &&& p.goals == goals
    &&& p.assists == assists
}

/// The top scoring forwards of the demo.
pub open spec fn demo_forwards(s: Seq<DemoPlayer>) -> bool {
    &&& s.len() == 5
    &&& is_player(s[0], "Nathan MacKinnon"@, 8477492, "COL"@, 82, 51, 89)
    &&& is_player(s[1], "Nikita Kucherov"@, 8476453, "TBL"@, 81, 44, 100)
    &&& is_player(s[2], "Connor McDavid"@, 8478402, "EDM"@, 76, 32, 100)
    &&& is_player(s[3], "Leon Draisaitl"@, 8477934, "EDM"@, 81, 41, 65)
    &&& is_player(s[4], "Auston Matthews"@, 8479318, "TOR"@, 69, 69, 38)
}

/// The top scoring defensemen of the demo.
pub open spec fn demo_defensemen(s: Seq<DemoPlayer>) -> bool {
    &&& s.len() == 5
    &&& is_player(s[0], "Quinn Hughes"@, 8480800, "VAN"@, 82, 17, 75)
    &&& is_player(s[1], "Cale Makar"@, 8480069, "COL"@, 77, 21, 69)
    &&& is_player(s[2], "Roman Josi"@, 8474600, "NSH"@, 82, 23, 62)
    &&& is_player(s[3], "Evan Bouchard"@, 8480803, "EDM"@, 81, 18, 64)
    &&& is_player(s[4], "Adam Fox"@, 8479323, "NYR"@, 74, 17, 56)
}

/// The top scoring forwards of the demo.
pub fn create_demo_forwards() -> (v: Vec<DemoPlayer>)
    ensures
        demo_forwards(v@),
        players_ok(v@),
{
    vec![
        DemoPlayer::new("Nathan MacKinnon", 8477492, "COL", 82, 51, 89),
        DemoPlayer::new("Nikita Kucherov", 8476453, "TBL", 81, 44, 100),
        DemoPlayer::new("Connor McDavid", 8478402, "EDM", 76, 32, 100),
        DemoPlayer::new("Leon Draisaitl", 8477934, "EDM", 81, 41, 65),
        DemoPlayer::new("Auston Matthews", 8479318, "TOR", 69, 69, 38),
    ]
}

/// The top scoring defensemen of the demo.
pub fn create_demo_defensemen() -> (v: Vec<DemoPlayer>)
    ensures
        demo_defensemen(v@),
        players_ok(v@),
{
    vec![
        DemoPlayer::new("Quinn Hughes", 8480800, "VAN", 82, 17, 75),
        DemoPlayer::new("Cale Makar", 8480069, "COL", 77, 21, 69),
        DemoPlayer::new("Roman Josi", 8474600, "NSH", 82, 23, 62),
        DemoPlayer::new("Evan Bouchard", 8480803, "EDM", 81, 18, 64),
        DemoPlayer::new("Adam Fox", 8479323, "NYR", 74, 17, 56),
    ]
}

/// The number of columns of a player table.
pub const PLAYER_COLUMNS: usize = 6;

/// The player table columns: header, width and alignment.
pub open spec fn player_column(c: int) -> (Seq<char>, usize, Alignment) {
    if c == 0 {
        ("Player"@, 18, Alignment::Left)
    } else if c == 1 {
        ("Team"@, 5, Alignment::Center)
    } else if c == 2 {
        ("GP"@, 3, Alignment::Right)
    } else if c == 3 {
        ("G"@, 3, Alignment::Right)
    } else if c == 4 {
        ("A"@, 3, Alignment::Right)
    } else {
        ("PTS"@, 4, Alignment::Right)
    }
}

/// The cell of a player in column `c`: a link on the name, the team as
/// plain text, then games, goals, assists and points.
pub open spec fn player_cell(p: DemoPlayer, c: int) -> CellKey {
    if c == 0 {
        CellKey::Player(p.name@, p.player_id)
    } else if c == 1 {
        CellKey::Text(p.team@)
    } else {
        CellKey::Text(
            decimal(
                if c == 2 {
                    p.games as nat
                } else if c == 3 {
                    p.goals as nat
                } else if c == 4 {
                    p.assists as nat
                } else {
                    points_of(p) as nat
                },
            ),
        )
    }
}

/// Whether a table holds the player columns and the lines of the given
/// players, with nothing set but possibly the focused row.
pub open spec fn player_table(v: TableView, rows: Seq<DemoPlayer>) -> bool {
    &&& v.headers.len() == PLAYER_COLUMNS
    &&& forall|c: int|
        0 <= c < PLAYER_COLUMNS ==> (#[trigger] v.headers[c])@ == player_column(c).0
            && v.widths[c] == player_column(c).1 && v.aligns[c] == player_column(c).2
    &&& v.cells.len() == rows.len()
    &&& forall|r: int, c: int|
        0 <= r < rows.len() && 0 <= c < PLAYER_COLUMNS ==> cell_key(#[trigger] v.cells[r][c])
            == player_cell(rows[r], c)
    &&& v.header is None
    &&& v.margin == 0
}

/// The cell of a player in column `c`.
fn player_cell_value(p: &DemoPlayer, c: usize) -> (v: CellValue)
    requires
        points_of(*p) <= u32::MAX,
    ensures
        cell_key(v) == player_cell(*p, c as int),
{
    if c == 0 {
        CellValue::PlayerLink { display: p.name.clone(), player_id: p.player_id }
    } else if c == 1 {
        CellValue::Text(p.team.clone())
    } else {
        let n: u32 = if c == 2 {
            p.games
        } else if c == 3 {
            p.goals
        } else if c == 4 {
            p.assists
        } else {
            p.points()
        };
        CellValue::Text(u64_to_string(n as u64))
    }
}

/// A table of players with a focused row.
pub fn create_player_table(players: Vec<DemoPlayer>, focused_row: Option<usize>) -> (t: TableWidget)
    requires
        players_ok(players@),
    ensures
        player_table(t@, players@),
        t@.focused_row == focused_row,
{
    let headers: Vec<&str> = vec!["Player", "Team", "GP", "G", "A", "PTS"];
    let widths: Vec<usize> = vec![18, 5, 3, 3, 3, 4];
    let aligns: Vec<Alignment> = vec![
        Alignment::Left, Alignment::Center, Alignment::Right, Alignment::Right, Alignment::Right,
        Alignment::Right,
    ];
    proof {
        reveal_strlit("Player");
        reveal_strlit("Team");
        reveal_strlit("GP");
        reveal_strlit("G");
        reveal_strlit("A");
        reveal_strlit("PTS");
        assert forall|c: int| 0 <= c < PLAYER_COLUMNS implies headers@[c]@ == player_column(c).0
            && widths@[c] == player_column(c).1 && aligns@[c] == player_column(c).2 by {}
    }
    let mut column_headers: Vec<String> = Vec::new();
    let mut c: usize = 0;
    while c < PLAYER_COLUMNS
        invariant
            c <= PLAYER_COLUMNS,
            headers@.len() == PLAYER_COLUMNS,
            forall|k: int|
                0 <= k < PLAYER_COLUMNS ==> (#[trigger] headers@[k])@ == player_column(k).0,
            column_headers@.len() == c,
            forall|k: int| 0 <= k < c ==> (#[trigger] column_headers@[k])@ == player_column(k).0,
        decreases PLAYER_COLUMNS - c,
    {
        column_headers.push(String::from_str(headers[c]));
        c = c + 1;
    }
    let mut cell_data: Vec<Vec<CellValue>> = Vec::new();
    let n = players.len();
    let mut r: usize = 0;
    while r < n
        invariant
            r <= n,
            n == players@.len(),
            players_ok(players@),
            cell_data@.len() == r,
            forall|i: int| 0 <= i < r ==> (#[trigger] cell_data@[i])@.len() == PLAYER_COLUMNS,
            forall|i: int, k: int|
                0 <= i < r && 0 <= k < PLAYER_COLUMNS ==> cell_key(#[trigger] cell_data@[i]@[k])
                    == player_cell(players@[i], k),
        decreases n - r,
    {
        let mut row: Vec<CellValue> = Vec::new();
        let mut k: usize = 0;
        while k < PLAYER_COLUMNS
            invariant
                k <= PLAYER_COLUMNS,
                r < n,
                n == players@.len(),
                points_of(players@[r as int]) <= u32::MAX,
                row@.len() == k,
                forall|j: int|
                    0 <= j < k ==> cell_key(#[trigger] row@[j]) == player_cell(
                        players@[r as int],
                        j,
                    ),
            decreases PLAYER_COLUMNS - k,
        {
            row.push(player_cell_value(&players[r], k));
            k = k + 1;
        }
        cell_data.push(row);
        r = r + 1;
    }
    let t = TableWidget::from_cells(column_headers, widths, aligns, cell_data);
    let ft = t.with_focused_row(focused_row);
    assert(ft@.headers == t@.headers && ft@.cells == t@.cells);
    ft
}

/// `e` is the player table `name` of the given players, its focused row
/// taken from the focus context.
pub open spec fn is_player_table(
    e: DocumentElement,
    name: Seq<char>,
    players: Seq<DemoPlayer>,
    focus: FocusContext,
) -> bool {
    e matches DocumentElement::Table { widget, focusable } && player_table(widget@, players)
        && widget@.focused_row == focused_row_of(focus, name) && views(focusable@) == table_focus(
        name,
        widget@,
        players.len() as int,
    )
}

/// `e` is the link `id` to the team `team`, focused when the focus context
/// focuses it.
pub open spec fn is_team_link(
    e: DocumentElement,
    id: Seq<char>,
    display: Seq<char>,
    team: Seq<char>,
    focus: FocusContext,
) -> bool {
    e matches DocumentElement::Link { display: d, target, id: i, focused } && i@ == id && d@
        == display && target@ == TargetView::Action("team:"@ + team) && focused == (opt_key(
        focus.focused_id,
    ) == Some(FocusKey::Link(id)))
}

/// `e` is a text paragraph without style.
pub open spec fn is_text(e: DocumentElement, content: Seq<char>) -> bool {
    e matches DocumentElement::Text { content: c, style } && c@ == content && style is None
}

/// `e` is a heading.
pub open spec fn is_heading(e: DocumentElement, level: u8, content: Seq<char>) -> bool {
    e matches DocumentElement::Heading { level: l, content: c } && l == level && c@ == content
}

/// The state of the demo tab: its document navigation.
pub type DemoTabState = DocumentNavState;

/// Messages handled by the demo tab.
#[derive(Debug)]
pub enum DemoTabMessage {
    /// A focus move within the demo document.
    DocNav(DocumentNavMsg),
    /// The height of the visible area changed.
    UpdateViewportHeight(u16),
}

/// The demo tab component.
#[derive(Debug)]
pub struct DemoTab;

impl DemoTab {
    /// A fresh state: nothing focused, at the top.
    pub fn init() -> (s: DocumentNavState)
        ensures
            s.is_fresh(),
    {
        DocumentNavState::default()
    }

    /// Handle a message.
    pub fn update(&mut self, msg: DemoTabMessage, state: &mut DocumentNavState) -> (e: Effect)
        ensures
            match msg {
                DemoTabMessage::DocNav(m) => *final(state) == nav_moved(*old(state), m),
                DemoTabMessage::UpdateViewportHeight(h) => *final(state) == (DocumentNavState {
                    viewport_height: h,
                    ..*old(state)
                }),
            },
            e is Pass,
    {
        match msg {
            DemoTabMessage::DocNav(m) => state.handle_message(&m),
            DemoTabMessage::UpdateViewportHeight(h) => {
                state.viewport_height = h;
                Effect::Pass
            },
        }
    }
}

/// The demo document.
#[derive(Debug)]
pub struct DemoDocument {
    standings: Option<Vec<StandingRow>>,
}

/// The standings the demo shows, if there are any.
pub open spec fn shown_standings(s: Option<Vec<StandingRow>>) -> Option<Seq<StandingRow>> {
    match s {
        Some(v) => if v@.len() > 0 {
            Some(v@)
        } else {
            None
        },
        None => None,
    }
}

impl DemoDocument {
    #[verifier::type_invariant]
    closed spec fn fits(self) -> bool {
        self.standings matches Some(v) ==> v@.len() <= MAX_TABLE_ROWS
    }

    /// The standings shown: those given, when there are any.
    pub closed spec fn standings(self) -> Option<Seq<StandingRow>> {
        shown_standings(self.standings)
    }

    /// A demo document with the given standings.
    pub fn new(standings: Option<Vec<StandingRow>>) -> (d: Self)
        requires
            standings matches Some(v) ==> v@.len() <= MAX_TABLE_ROWS,
        ensures
            d.standings() == shown_standings(standings),
    {
        DemoDocument { standings }
    }

    /// The standings section: a heading, an introduction, then the
    /// standings ordered by points in the table "standings", or a note that
    /// none are loaded.
    fn build_standings_section(&self, focus: &FocusContext) -> (r: Vec<DocumentElement>)
        ensures
            r@.len() == (if self.standings() is Some {
                5int
            } else {
                4int
            }),
            is_heading(r@[0], 2, "League Standings"@),
            r@[1] == (DocumentElement::Spacer { height: 1 }),
            is_text(r@[2], "This demonstrates the shared standings table embedded in a document:"@),
            (match self.standings() {
                Some(s) => r@[3] == (DocumentElement::Spacer { height: 1 }) && (r@[4] matches DocumentElement::Table {
                    widget,
                    focusable,
                } && standings_table(widget@, by_points(s)) && widget@.header is None
                    && widget@.margin == 0 && widget@.focused_row == focused_row_of(
                    *focus,
                    "standings"@,
                ) && views(focusable@) == table_focus("standings"@, widget@, s.len() as int)),
                None => is_text(r@[3], "(No standings data loaded - try refreshing)"@),
            }),
    {
        proof {
            use_type_invariant(self);
            reveal_strlit("standings");
        }
        let b = DocumentBuilder::new().heading(2, "League Standings").spacer(1).text(
            "This demonstrates the shared standings table embedded in a document:",
        );
        let b = match &self.standings {
            Some(standings) => {
                if standings.len() > 0 {
                    let ghost s = standings@;
                    proof {
                        lemma_by_points_sorted(s);
                    }
                    let sorted = sort_by_points_desc(standings.clone());
                    let table = create_standings_table_with_selection(
                        sorted,
                        focus.focused_table_row("standings"),
                    );
                    b.spacer(1).table("standings", table)
                } else {
                    b.text("(No standings data loaded - try refreshing)")
                }
            },
            None => b.text("(No standings data loaded - try refreshing)"),
        };
        b.build()
    }

    /// The middle of the document: features, four team links and notes on
    /// the implementation.
    fn build_middle_section(&self, focus: &FocusContext) -> (r: Vec<DocumentElement>)
        ensures
            r@.len() == 35,
            r@[0] == (DocumentElement::Spacer { height: 1 }),
            r@[1] == DocumentElement::Separator,
            is_heading(r@[3], 2, "Features"@),
            is_heading(r@[10], 2, "Example Links"@),
            is_team_link(r@[13], "link_bos"@, "Boston Bruins"@, "BOS"@, *focus),
            is_team_link(r@[15], "link_tor"@, "Toronto Maple Leafs"@, "TOR"@, *focus),
            is_team_link(r@[17], "link_nyr"@, "New York Rangers"@, "NYR"@, *focus),
            is_team_link(r@[19], "link_mtl"@, "Montreal Canadiens"@, "MTL"@, *focus),
            is_heading(r@[23], 2, "Implementation Notes"@),
    {
        proof {
            reveal_strlit("team:BOS");
            reveal_strlit("team:TOR");
            reveal_strlit("team:NYR");
            reveal_strlit("team:MTL");
            reveal_strlit("team:");
            reveal_strlit("BOS");
            reveal_strlit("TOR");
            reveal_strlit("NYR");
            reveal_strlit("MTL");
        }
        let features = DocumentBuilder::new().spacer(1).separator().spacer(1).heading(
            2,
            "Features",
        ).text("- Viewport-based scrolling for unlimited content height").text(
            "- Tab/Shift-Tab navigation cycles through focusable elements",
        ).text("- Autoscrolling keeps the focused element visible").text(
            "- Smart padding positions elements comfortably in view",
        ).text("- Focus wrapping scrolls to top/bottom automatically").spacer(1).heading(
            2,
            "Example Links",
        ).text("These links demonstrate focusable elements:").build();
        let links = DocumentBuilder::new().spacer(1).link_with_focus(
            "link_bos",
            "Boston Bruins",
            LinkTarget::Action(String::from_str("team:BOS")),
            focus,
        ).spacer(1).link_with_focus(
            "link_tor",
            "Toronto Maple Leafs",
            LinkTarget::Action(String::from_str("team:TOR")),
            focus,
        ).build();
        let more_links = DocumentBuilder::new().spacer(1).link_with_focus(
            "link_nyr",
            "New York Rangers",
            LinkTarget::Action(String::from_str("team:NYR")),
            focus,
        ).spacer(1).link_with_focus(
            "link_mtl",
            "Montreal Canadiens",
            LinkTarget::Action(String::from_str("team:MTL")),
            focus,
        ).build();
        let notes = DocumentBuilder::new().spacer(1).separator().spacer(1).heading(
            2,
            "Implementation Notes",
        ).text("The document system consists of several modules:").spacer(1).text(
            "- viewport.rs: Manages scroll position and visible range",
        ).text("- focus.rs: Tracks focusable elements and navigation").text(
            "- elements.rs: Document element types (text, headings, links)",
        ).text("- builder.rs: Fluent API for building documents").text(
            "- mod.rs: Document trait and DocumentView container",
        ).spacer(1).text("Each document implements the Document trait to define its").text(
            "content structure. DocumentView manages the viewport and",
        ).text("focus state for rendering and interaction.").build();
        let ghost f = features@;
        let ghost l1 = links@;
        let ghost l2 = more_links@;
        let ghost n = notes@;
        proof {
            assert("team:"@ + "BOS"@ =~= "team:BOS"@);
            assert("team:"@ + "TOR"@ =~= "team:TOR"@);
            assert("team:"@ + "NYR"@ =~= "team:NYR"@);
            assert("team:"@ + "MTL"@ =~= "team:MTL"@);
            assert(is_team_link(l1[1], "link_bos"@, "Boston Bruins"@, "BOS"@, *focus));
            assert(is_team_link(l1[3], "link_tor"@, "Toronto Maple Leafs"@, "TOR"@, *focus));
            assert(is_team_link(l2[1], "link_nyr"@, "New York Rangers"@, "NYR"@, *focus));
            assert(is_team_link(l2[3], "link_mtl"@, "Montreal Canadiens"@, "MTL"@, *focus));
        }
        let r = DocumentBuilder::new().elements(features).elements(links).elements(
            more_links,
        ).elements(notes).build();
        proof {
            assert(r@[0] == f[0]);
            assert(r@[1] == f[1]);
            assert(r@[3] == f[3]);
            assert(r@[10] == f[10]);
            assert(r@[13] == l1[1]);
            assert(r@[15] == l1[3]);
            assert(r@[17] == l2[1]);
            assert(r@[19] == l2[3]);
            assert(r@[23] == n[3]);
        }
        r
    }

    /// The top scorers: a heading, an introduction, and the forwards and
    /// defensemen tables side by side.
    fn build_player_section(&self, focus: &FocusContext) -> (r: Vec<DocumentElement>)
        ensures
            r@.len() == 5,
            is_heading(r@[0], 2, "Top Scorers (2023-24)"@),
            r@[1] == (DocumentElement::Spacer { height: 1 }),
            is_text(r@[2], "These tables demonstrate side-by-side layout with focusable player links:"@),
            r@[3] == (DocumentElement::Spacer { height: 1 }),
            player_row(r@[4], *focus),
    {
        proof {
            reveal_strlit("forwards");
            reveal_strlit("defensemen");
        }
        let forwards_players = create_demo_forwards();
        let defensemen_players = create_demo_defensemen();
        let ghost fp = forwards_players@;
        let ghost dp = defensemen_players@;
        let forwards = create_player_table(
            forwards_players,
            focus.focused_table_row("forwards"),
        );
        let defensemen = create_player_table(
            defensemen_players,
            focus.focused_table_row("defensemen"),
        );
        let b = DocumentBuilder::new().heading(2, "Top Scorers (2023-24)").spacer(1).text(
            "These tables demonstrate side-by-side layout with focusable player links:",
        ).spacer(1).row(
            vec![
                DocumentElement::table("forwards", forwards),
                DocumentElement::table("defensemen", defensemen),
            ],
        );
        b.build()
    }
}

/// `e` is the row of the forwards table and the defensemen table.
pub open spec fn player_row(e: DocumentElement, focus: FocusContext) -> bool {
    e matches DocumentElement::Row { children, gap } && gap == 2 && children@.len() == 2 && (exists|
        f: Seq<DemoPlayer>,
    |
        #![trigger demo_forwards(f)]
        demo_forwards(f) && is_player_table(children@[0], "forwards"@, f, focus)) && (exists|
        d: Seq<DemoPlayer>,
    |
        #![trigger demo_defensemen(d)]
        demo_defensemen(d) && is_player_table(children@[1], "defensemen"@, d, focus))
}

impl Document for DemoDocument {
    /// The demo: an introduction, the standings ordered by points (or a
    /// note that none are loaded), features, four team links, notes on the
    /// implementation, and the top scorers side by side.
    open spec fn built(&self, focus: FocusContext, r: Seq<DocumentElement>) -> bool {
        ({
            let d: int = if self.standings() is Some {
                1
            } else {
                0
            };
            &&& r.len() == 53 + d
            &&& is_heading(r[0], 1, "Document System Demo"@)
            &&& is_heading(r[7], 2, "League Standings"@)
            &&& match self.standings() {
                Some(s) => r[11] matches DocumentElement::Table { widget, focusable }
                    && standings_table(widget@, by_points(s)) && widget@.header is None
                    && widget@.margin == 0 && widget@.focused_row == focused_row_of(
                    focus,
                    "standings"@,
                ) && views(focusable@) == table_focus("standings"@, widget@, s.len() as int),
                None => is_text(r[10], "(No standings data loaded - try refreshing)"@),
            }
            &&& is_team_link(r[24 + d], "link_bos"@, "Boston Bruins"@, "BOS"@, focus)
            &&& is_team_link(r[26 + d], "link_tor"@, "Toronto Maple Leafs"@, "TOR"@, focus)
            &&& is_team_link(r[28 + d], "link_nyr"@, "New York Rangers"@, "NYR"@, focus)
            &&& is_team_link(r[30 + d], "link_mtl"@, "Montreal Canadiens"@, "MTL"@, focus)
            &&& is_heading(r[46 + d], 2, "Top Scorers (2023-24)"@)
            &&& player_row(r[50 + d], focus)
            &&& is_text(r[52 + d], "End of demo document."@)
        })
    }

    /// Build the layout described above.
    fn build(&self, focus: &FocusContext) -> (r: Vec<DocumentElement>)
    {
        let intro = DocumentBuilder::new().heading(1, "Document System Demo").spacer(1).text(
            "This tab demonstrates the new document system for the NHL TUI.",
        ).text("Press Tab/Shift-Tab to navigate between focusable elements.").spacer(1).separator().spacer(
            1,
        ).build();
        let standings = self.build_standings_section(focus);
        let middle = self.build_middle_section(focus);
        let players = self.build_player_section(focus);
        let ghost a = intro@;
        let ghost st = standings@;
        let ghost mid = middle@;
        let ghost pl = players@;
        let r = DocumentBuilder::new().elements(intro).elements(standings).elements(middle).elements(
            players,
        ).spacer(1).text("End of demo document.").build();
        proof {
            let d: int = if self.standings() is Some {
                1
            } else {
                0
            };
            let all = a + st + mid + pl;
            assert(r@.len() == 53 + d);
            assert(r@[0] == a[0]);
            assert(r@[7] == st[0]);
            assert(r@[10] == st[3]);
            if d == 1 {
                assert(r@[11] == st[4]);
            }
            assert(r@[24 + d] == mid[13]);
            assert(r@[26 + d] == mid[15]);
            assert(r@[28 + d] == mid[17]);
            assert(r@[30 + d] == mid[19]);
            assert(r@[46 + d] == pl[0]);
            assert(r@[50 + d] == pl[4]);
        }
        r
    }

    fn title(&self) -> (s: String)
        ensures
            s@ == "Document System Demo"@,
    {
        String::from_str("Document System Demo")
    }

    fn id(&self) -> (s: String)
        ensures
            s@ == "demo"@,
    {
        String::from_str("demo")
    }
}

} // verus!
