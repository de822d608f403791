//! The breadcrumb trail: the current tab followed by the documents stacked
//! over it, such as "Standings > Team: TOR > Player: 8471675".

use vstd::prelude::*;

use crate::link::{GameDay, GroupBy};
use crate::nav::{DocumentStackEntry, StackedDocument, Tab};
use crate::text::{push_signed_decimal, signed_decimal};

verus! {

/// The name shown for a tab.
pub open spec fn tab_title(tab: Tab) -> Seq<char> {
    match tab {
        Tab::Scores => "Scores"@,
        Tab::Standings => "Standings"@,
        Tab::Settings => "Settings"@,
        Tab::Demo => "Demo"@,
    }
}

/// The text shown for a stacked document.
pub open spec fn document_title(doc: StackedDocument) -> Seq<char> {
    match doc {
        StackedDocument::Boxscore { game_id } => "Boxscore: Game "@ + signed_decimal(game_id as int),
        StackedDocument::TeamDetail { abbrev } => "Team: "@ + abbrev@,
        StackedDocument::PlayerDetail { player_id } => "Player: "@ + signed_decimal(
            player_id as int,
        ),
    }
}

/// The pieces of a breadcrumb: the tab's name, then for each stacked
/// document the separator " > " and the document's text.
pub open spec fn breadcrumb_pieces(tab: Tab, stack: Seq<DocumentStackEntry>) -> Seq<Seq<char>>
    decreases stack.len(),
{
    if stack.len() == 0 {
        seq![tab_title(tab)]
    } else {
        breadcrumb_pieces(tab, stack.drop_last()).push(" > "@).push(
            document_title(stack.last().document),
        )
    }
}

/// The name shown for a tab.
pub fn tab_name(tab: Tab) -> (s: &'static str)
    ensures
        s@ == tab_title(tab),
{
    proof {
        reveal_strlit("Scores");
        reveal_strlit("Standings");
        reveal_strlit("Settings");
        reveal_strlit("Demo");
    }
    match tab {
        Tab::Scores => "Scores",
        Tab::Standings => "Standings",
        Tab::Settings => "Settings",
        Tab::Demo => "Demo",
    }
}

/// The text shown for a stacked document.
pub fn document_name(doc: &StackedDocument) -> (s: String)
    ensures
        s@ == document_title(*doc),
{
    match doc {
        StackedDocument::Boxscore { game_id } => {
            let mut s = String::from_str("Boxscore: Game ");
            push_signed_decimal(&mut s, *game_id);
            proof {
                reveal_strlit("Boxscore: Game ");
            }
            s
        },
        StackedDocument::TeamDetail { abbrev } => {
            let mut s = String::from_str("Team: ");
            s.append(abbrev.as_str());
            proof {
                reveal_strlit("Team: ");
            }
            s
        },
        StackedDocument::PlayerDetail { player_id } => {
            let mut s = String::from_str("Player: ");
            push_signed_decimal(&mut s, *player_id);
            proof {
                reveal_strlit("Player: ");
            }
            s
        },
    }
}

/// Breadcrumb widget: the navigation path from the tab to the top document.
#[derive(Debug)]
pub struct BreadcrumbWidget {
    pub current_tab: Tab,
    pub document_stack: Vec<DocumentStackEntry>,
}

impl Clone for BreadcrumbWidget {
    fn clone(&self) -> (res: Self)
        ensures
            res.current_tab == self.current_tab,
            res.document_stack@.len() == self.document_stack@.len(),
            forall|i: int|
                0 <= i < self.document_stack@.len() ==> (#[trigger] res.document_stack@[i]).document
                    == self.document_stack@[i].document,
    {
        BreadcrumbWidget {
            current_tab: self.current_tab,
            document_stack: self.document_stack.clone(),
        }
    }
}

impl BreadcrumbWidget {
    /// A breadcrumb for a tab and the documents stacked over it.
    pub fn new(current_tab: Tab, document_stack: Vec<DocumentStackEntry>) -> (w: Self)
        ensures
            w.current_tab == current_tab,
            w.document_stack == document_stack,
    {
        BreadcrumbWidget { current_tab, document_stack }
    }

    /// The pieces of the trail: the tab's name (shown bold), then for each
    /// stacked document " > " and the document's text.
    pub fn pieces(&self) -> (r: Vec<String>)
        ensures
            r@.map_values(|s: String| s@) == breadcrumb_pieces(
                self.current_tab,
                self.document_stack@,
            ),
    {
        let mut out: Vec<String> = Vec::new();
        out.push(String::from_str(tab_name(self.current_tab)));
        let n = self.document_stack.len();
        let mut i: usize = 0;
        assert(self.document_stack@.take(0) =~= Seq::<DocumentStackEntry>::empty());
        assert(out@.map_values(|s: String| s@) =~= breadcrumb_pieces(
            self.current_tab,
            self.document_stack@.take(0),
        ));
        while i < n
            invariant
                i <= n,
                n == self.document_stack@.len(),
                out@.map_values(|s: String| s@) == breadcrumb_pieces(
                    self.current_tab,
                    self.document_stack@.take(i as int),
                ),
            decreases n - i,
        {
            let ghost before = out@;
            out.push(String::from_str(" > "));
            out.push(document_name(&self.document_stack[i].document));
            proof {
                reveal_strlit(" > ");
                assert(self.document_stack@.take(i + 1).drop_last() =~= self.document_stack@.take(
                    i as int,
                ));
                assert(out@.map_values(|s: String| s@) =~= before.map_values(|s: String| s@).push(
                    " > "@,
                ).push(document_title(self.document_stack@[i as int].document)));
            }
            i = i + 1;
        }
        assert(self.document_stack@.take(n as int) =~= self.document_stack@);
        out
    }

    /// The whole trail as one text.
    pub fn text(&self) -> (s: String)
        ensures
            s@ == breadcrumb_pieces(self.current_tab, self.document_stack@).fold_left(
                Seq::<char>::empty(),
                |acc: Seq<char>, p: Seq<char>| acc + p,
            ),
    {
        let pieces = self.pieces();
        let ghost ps = pieces@.map_values(|s: String| s@);
        let mut s = String::new();
        let n = pieces.len();
        let mut i: usize = 0;
        while i < n
            invariant
                i <= n,
                n == pieces@.len(),
                ps == pieces@.map_values(|s: String| s@),
                s@ == ps.take(i as int).fold_left(
                    Seq::<char>::empty(),
                    |acc: Seq<char>, p: Seq<char>| acc + p,
                ),
            decreases n - i,
        {
            s.append(pieces[i].as_str());
            proof {
                assert(ps.take(i + 1).drop_last() =~= ps.take(i as int));
            }
            i = i + 1;
        }
        assert(ps.take(n as int) =~= ps);
        s
    }

    /// The height the breadcrumb needs: one line when documents are open,
    /// none otherwise.
    pub fn preferred_height(&self) -> (h: Option<u16>)
        ensures
            h == Some(
                if self.document_stack@.len() == 0 {
                    0u16
                } else {
                    1u16
                },
            ),
    {
        if self.document_stack.len() == 0 {
            Some(0)
        } else {
            Some(1)
        }
    }

    /// A boxed copy of the widget.
    pub fn clone_box(&self) -> (b: Box<Self>)
        ensures
            b.current_tab == self.current_tab,
            b.document_stack@.len() == self.document_stack@.len(),
    {
        Box::new(self.clone())
    }
}

/// Something that names where the user is, as a list of crumbs.
pub trait BreadcrumbProvider {
    /// The navigation path, outermost first.
    fn get_breadcrumb_items(&self) -> Vec<String>;
}

/// Where a search result takes the user.
#[derive(Clone, Debug)]
pub enum NavigationCommand {
    /// A main tab.
    GoToTab(Tab),
    /// A team, by abbreviation.
    GoToTeam(String),
    /// A player, by ID.
    GoToPlayer(i64),
    /// A game, by ID.
    GoToGame(i64),
    /// The scores of a day.
    GoToDate(GameDay),
    /// A grouping of the standings.
    GoToStandingsView(GroupBy),
    /// A category of the settings.
    GoToSettings(String),
}

/// An item that a search can find: its label, category and keywords, and
/// where it leads.
#[derive(Clone, Debug)]
pub struct SearchableItem {
    pub label: String,
    pub category: String,
    pub keywords: Vec<String>,
    pub navigation_command: NavigationCommand,
}

} // verus!
