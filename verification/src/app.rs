//! The root of the interface: the main tabs above the status bar, with the
//! top stacked document (under its breadcrumb) shown in the current tab.

use vstd::prelude::*;

use crate::breadcrumb::BreadcrumbWidget;
use crate::nav::{DocumentStackEntry, StackedDocument, Tab};
use crate::status_bar::{StatusBar, StatusBarWidget, SystemStatus, left_text};
use crate::tabbed_panel::{
    TabItem,
    TabbedPanel,
    TabbedPanelProps,
    TabbedPanelView,
    first_key_index,
};

verus! {

/// Where the user is: the current tab, the documents stacked over it, and
/// whether the content (rather than the tab bar) has the focus.
#[derive(Debug)]
pub struct NavigationState {
    pub current_tab: Tab,
    pub document_stack: Vec<DocumentStackEntry>,
    pub content_focused: bool,
}

/// The state the root component shows.
#[derive(Debug)]
pub struct AppState {
    pub navigation: NavigationState,
    pub system: SystemStatus,
}

/// What a main tab shows.
#[derive(Debug)]
pub enum TabContent {
    /// The scores tab.
    Scores,
    /// The standings tab.
    Standings,
    /// The settings tab.
    Settings,
    /// The demo tab.
    Demo,
    /// Nothing (a tab that is not shown while a document is open).
    Empty,
    /// The top stacked document, under the breadcrumb.
    Document { breadcrumb: BreadcrumbWidget, document: StackedDocument },
}

/// The root component laid out: the main tabs and the status bar.
#[derive(Debug)]
pub struct AppView {
    pub tabs: TabbedPanelView<TabContent>,
    pub status_bar: StatusBarWidget,
}

/// The root component.
#[derive(Debug)]
pub struct App;

/// The key of a main tab.
pub open spec fn tab_key(tab: Tab) -> Seq<char> {
    match tab {
        Tab::Scores => "scores"@,
        Tab::Standings => "standings"@,
        Tab::Settings => "settings"@,
        Tab::Demo => "demo"@,
    }
}

/// The position of a main tab in the tab bar.
pub open spec fn tab_position(tab: Tab) -> int {
    match tab {
        Tab::Scores => 0,
        Tab::Standings => 1,
        Tab::Settings => 2,
        Tab::Demo => 3,
    }
}

/// The main tab at a position of the tab bar.
pub open spec fn tab_at(i: int) -> Tab {
    if i == 0 {
        Tab::Scores
    } else if i == 1 {
        Tab::Standings
    } else if i == 2 {
        Tab::Settings
    } else {
        Tab::Demo
    }
}

/// The title of a main tab.
pub open spec fn tab_label(tab: Tab) -> Seq<char> {
    match tab {
        Tab::Scores => "Scores"@,
        Tab::Standings => "Standings"@,
        Tab::Settings => "Settings"@,
        Tab::Demo => "Demo"@,
    }
}

/// The key of a main tab.
fn tab_key_str(tab: Tab) -> (s: &'static str)
    ensures
        s@ == tab_key(tab),
{
    proof {
        reveal_strlit("scores");
        reveal_strlit("standings");
        reveal_strlit("settings");
        reveal_strlit("demo");
    }
    match tab {
        Tab::Scores => "scores",
        Tab::Standings => "standings",
        Tab::Settings => "settings",
        Tab::Demo => "demo",
    }
}

/// The content a main tab shows without a document open.
fn own_content(tab: Tab) -> (c: TabContent)
    ensures
        c == (match tab {
            Tab::Scores => TabContent::Scores,
            Tab::Standings => TabContent::Standings,
            Tab::Settings => TabContent::Settings,
            Tab::Demo => TabContent::Demo,
        }),
{
    match tab {
        Tab::Scores => TabContent::Scores,
        Tab::Standings => TabContent::Standings,
        Tab::Settings => TabContent::Settings,
        Tab::Demo => TabContent::Demo,
    }
}

/// Lines of the status bar at the bottom of the screen.
pub const STATUS_BAR_HEIGHT: u16 = 2;

/// Lines of the breadcrumb band above a stacked document.
pub const BREADCRUMB_HEIGHT: u16 = 2;

/// The lines of a vertical split of `height` lines into a band of `band`
/// lines and the rest: the band gets as many of its lines as there are,
/// the rest gets what remains.
pub open spec fn band_split(height: u16, band: u16) -> (u16, u16) {
    if height >= band {
        ((height - band) as u16, band)
    } else {
        (0u16, height)
    }
}

impl App {
    /// The screen split from top to bottom: the main tabs take the rest of
    /// the lines above the 2-line status bar (which gets what lines there
    /// are on a screen shorter than 2).  Returns (main, status bar).
    pub fn screen_split(height: u16) -> (r: (u16, u16))
        ensures
            r == band_split(height, STATUS_BAR_HEIGHT),
            r.0 + r.1 == height,
    {
        if height >= STATUS_BAR_HEIGHT {
            (height - STATUS_BAR_HEIGHT, STATUS_BAR_HEIGHT)
        } else {
            (0, height)
        }
    }

    /// A stacked document's area split from top to bottom: the 2-line
    /// breadcrumb band, then the document in the rest.  Returns
    /// (breadcrumb, document).
    pub fn document_split(height: u16) -> (r: (u16, u16))
        ensures
            r.0 == band_split(height, BREADCRUMB_HEIGHT).1,
            r.1 == band_split(height, BREADCRUMB_HEIGHT).0,
            r.0 + r.1 == height,
    {
        if height >= BREADCRUMB_HEIGHT {
            (BREADCRUMB_HEIGHT, height - BREADCRUMB_HEIGHT)
        } else {
            (height, 0)
        }
    }

    /// Lay the interface out: the main tabs, with the current tab active and
    /// showing either its own content or, when documents are open, the top
    /// document under the breadcrumb; the tab bar has the focus when the
    /// content does not and no document is open; the status bar below.
    pub fn build_with_component_states(&self, state: &AppState) -> (v: AppView)
        ensures
            ({
                let nav = state.navigation;
                let stack = nav.document_stack@;
                &&& v.tabs.tab_bar.focused == (!nav.content_focused && stack.len() == 0)
                &&& v.tabs.tab_bar.labels@.len() == 4
                &&& forall|i: int|
                    0 <= i < 4 ==> (#[trigger] v.tabs.tab_bar.labels@[i]).title@ == tab_label(
                        tab_at(i),
                    ) && v.tabs.tab_bar.labels@[i].key@ == tab_key(tab_at(i))
                        && v.tabs.tab_bar.labels@[i].active == (i == tab_position(nav.current_tab))
                &&& stack.len() == 0 ==> v.tabs.content == Some(
                    match nav.current_tab {
                        Tab::Scores => TabContent::Scores,
                        Tab::Standings => TabContent::Standings,
                        Tab::Settings => TabContent::Settings,
                        Tab::Demo => TabContent::Demo,
                    },
                )
                &&& stack.len() > 0 ==> (v.tabs.content matches Some(
                    TabContent::Document { breadcrumb, document },
                ) && breadcrumb.current_tab == nav.current_tab && breadcrumb.document_stack@.len()
                    == stack.len() && document == stack.last().document)
                &&& v.status_bar.refresh == state.system.refresh
                &&& v.status_bar.refresh_interval == state.system.refresh_interval
                &&& left_text(v.status_bar.status_message) == left_text(
                    state.system.status_message,
                )
                &&& v.status_bar.is_error == state.system.status_is_error
            }),
    {
        let nav = &state.navigation;
        let current = nav.current_tab;
        let n = nav.document_stack.len();
        let mut contents: Vec<TabContent> = Vec::new();
        let order: [Tab; 4] = [Tab::Scores, Tab::Standings, Tab::Settings, Tab::Demo];
        let mut i: usize = 0;
        while i < 4
            invariant
                i <= 4,
                order@ == seq![Tab::Scores, Tab::Standings, Tab::Settings, Tab::Demo],
                n == nav.document_stack@.len(),
                contents@.len() == i,
                forall|k: int|
                    0 <= k < i ==> (#[trigger] contents@[k]) == (if n == 0 {
                        match tab_at(k) {
                            Tab::Scores => TabContent::Scores,
                            Tab::Standings => TabContent::Standings,
                            Tab::Settings => TabContent::Settings,
                            Tab::Demo => TabContent::Demo,
                        }
                    } else if k == tab_position(current) {
                        contents@[k]
                    } else {
                        TabContent::Empty
                    }),
                forall|k: int|
                    0 <= k < i && n > 0 && k == tab_position(current) ==> (
                    #[trigger] contents@[k] matches TabContent::Document { breadcrumb, document }
                        && breadcrumb.current_tab == current && breadcrumb.document_stack@.len() == n
                        && document == nav.document_stack@.last().document),
            decreases 4 - i,
        {
            let tab = order[i];
            let content = if n == 0 {
                own_content(tab)
            } else if tab == current {
                let breadcrumb = BreadcrumbWidget::new(current, nav.document_stack.clone());
                TabContent::Document {
                    breadcrumb,
                    document: nav.document_stack[n - 1].document.clone(),
                }
            } else {
                TabContent::Empty
            };
            contents.push(content);
            i = i + 1;
        }
        let scores = contents.remove(0);
        let standings = contents.remove(0);
        let settings = contents.remove(0);
        let demo = contents.remove(0);
        let tabs = vec![
            TabItem::new("scores", "Scores", scores),
            TabItem::new("standings", "Standings", standings),
            TabItem::new("settings", "Settings", settings),
            TabItem::new("demo", "Demo", demo),
        ];
        let props = TabbedPanelProps {
            active_key: String::from_str(tab_key_str(current)),
            tabs,
            focused: !nav.content_focused && n == 0,
        };
        proof {
            reveal_strlit("scores");
            reveal_strlit("standings");
            reveal_strlit("settings");
            reveal_strlit("demo");
            reveal_strlit("Scores");
            reveal_strlit("Standings");
            reveal_strlit("Settings");
            reveal_strlit("Demo");
            let p = tab_position(current);
            assert(props.tabs@[p].key@ == props.active_key@);
            assert forall|j: int| 0 <= j < 4 && j != p implies props.tabs@[j].key@
                != props.active_key@ by {
                if props.tabs@[j].key@ == props.active_key@ {
                    assert(props.tabs@[j].key@.len() == props.active_key@.len());
                    assert(props.tabs@[j].key@[0] == props.active_key@[0]);
                }
            }
            assert(first_key_index(props.tabs@, props.active_key@) == Some(p as usize));
        }
        let tabs_view = TabbedPanel.view(props);
        let status_bar = StatusBar.view(&state.system);
        AppView { tabs: tabs_view, status_bar }
    }
}

} // verus!
