//! A tab bar with the content of the active tab under it.

use vstd::prelude::*;

use crate::text::{display_width, str_eq, str_width};

verus! {

/// A tab: its key, its title and its content.
#[derive(Debug)]
pub struct TabItem<C> {
    /// Unique key identifying the tab.
    pub key: String,
    /// Title shown in the tab bar.
    pub title: String,
    /// Content shown while the tab is active.
    pub content: C,
}

impl<C> TabItem<C> {
    /// A tab item.
    pub fn new(key: &str, title: &str, content: C) -> (t: Self)
        ensures
            t.key@ == key@,
            t.title@ == title@,
            t.content == content,
    {
        TabItem { key: String::from_str(key), title: String::from_str(title), content }
    }
}

/// The properties of a tabbed panel.
#[derive(Debug)]
pub struct TabbedPanelProps<C> {
    /// Key of the active tab.
    pub active_key: String,
    /// The tabs, in order.
    pub tabs: Vec<TabItem<C>>,
    /// Whether the tab bar has the focus.
    pub focused: bool,
}

/// The tabbed panel component.
#[derive(Debug)]
pub struct TabbedPanel;

/// The label of a tab in the tab bar.
#[derive(Debug)]
pub struct TabLabel {
    pub title: String,
    pub key: String,
    pub active: bool,
}

/// The tab bar: the labels, and whether the bar has the focus.
#[derive(Debug)]
pub struct TabBarWidget {
    pub labels: Vec<TabLabel>,
    pub focused: bool,
}

/// A tabbed panel laid out: the tab bar, and the active tab's content (None
/// when no tab has the active key).
#[derive(Debug)]
pub struct TabbedPanelView<C> {
    pub tab_bar: TabBarWidget,
    pub content: Option<C>,
}

/// The index of the first tab with the given key.
pub open spec fn first_key_index<C>(tabs: Seq<TabItem<C>>, key: Seq<char>) -> Option<usize> {
    if exists|i: int| 0 <= i < tabs.len() && tabs[i].key@ == key {
        let i = choose|i: int|
            0 <= i < tabs.len() && tabs[i].key@ == key && forall|j: int|
                0 <= j < i ==> tabs[j].key@ != key;
        Some(i as usize)
    } else {
        None
    }
}

/// A piece of the line under the tab labels.
#[derive(Clone, Copy, Debug, PartialEq, Eq, Structural)]
pub enum SeparatorPiece {
    /// The horizontal line character, repeated.
    Line(usize),
    /// The connector under the vertical bar between two labels.
    Connector,
}

/// The pieces under labels of the given display widths: under each label a
/// line as wide as it, and between two labels a line, a connector and a
/// line (under " | ").
pub open spec fn separator_pieces(widths: Seq<usize>) -> Seq<SeparatorPiece>
    decreases widths.len(),
{
    if widths.len() == 0 {
        Seq::empty()
    } else {
        let before = separator_pieces(widths.drop_last());
        let gap = if widths.len() > 1 {
            seq![SeparatorPiece::Line(1), SeparatorPiece::Connector, SeparatorPiece::Line(1)]
        } else {
            Seq::empty()
        };
        before + gap + seq![SeparatorPiece::Line(widths.last())]
    }
}

/// The columns the labels and the separators between them take.
pub open spec fn labels_width(widths: Seq<usize>) -> int
    decreases widths.len(),
{
    if widths.len() == 0 {
        0
    } else {
        labels_width(widths.drop_last()) + (if widths.len() > 1 {
            3int
        } else {
            0
        }) + widths.last()
    }
}

/// The whole line under the labels in `area_width` columns: the pieces under
/// the labels, then a line to the end of the area.
pub open spec fn separator_line(widths: Seq<usize>, area_width: usize) -> Seq<SeparatorPiece> {
    separator_pieces(widths) + if labels_width(widths) < area_width {
        seq![SeparatorPiece::Line((area_width - labels_width(widths)) as usize)]
    } else {
        Seq::empty()
    }
}

/// A piece of the tab line: a label, or the separator between two labels.
#[derive(Debug)]
pub enum TabLinePiece {
    /// " | " between two labels.
    Separator,
    /// A label's title, and whether its tab is active.
    Label { title: String, active: bool },
}

/// The labels and separators take no negative width.
proof fn lemma_labels_width_nonneg(widths: Seq<usize>)
    ensures
        0 <= labels_width(widths),
    decreases widths.len(),
{
    if widths.len() > 0 {
        lemma_labels_width_nonneg(widths.drop_last());
    }
}

/// Widths only grow with more labels.
proof fn lemma_labels_width_prefix(widths: Seq<usize>, i: int)
    requires
        0 <= i <= widths.len(),
    ensures
        labels_width(widths.take(i)) <= labels_width(widths),
        0 <= labels_width(widths.take(i)),
    decreases widths.len() - i,
{
    if i < widths.len() {
        assert(widths.take(i + 1).drop_last() =~= widths.take(i));
        lemma_labels_width_prefix(widths, i + 1);
        lemma_labels_width_nonneg(widths.take(i));
    } else {
        assert(widths.take(i) =~= widths);
        lemma_labels_width_nonneg(widths);
    }
}

impl TabbedPanel {
    /// The index of the active tab: the first whose key is the active key.
    pub fn active_index<C>(&self, props: &TabbedPanelProps<C>) -> (r: Option<usize>)
        ensures
            r == first_key_index(props.tabs@, props.active_key@),
            r matches Some(i) ==> i < props.tabs@.len(),
    {
        let n = props.tabs.len();
        let mut i: usize = 0;
        while i < n
            invariant
                i <= n,
                n == props.tabs@.len(),
                forall|j: int| 0 <= j < i ==> props.tabs@[j].key@ != props.active_key@,
            decreases n - i,
        {
            if str_eq(props.tabs[i].key.as_str(), props.active_key.as_str()) {
                assert(first_key_index(props.tabs@, props.active_key@) == Some(i)) by {
                    let k = choose|k: int|
                        0 <= k < props.tabs@.len() && props.tabs@[k].key@ == props.active_key@
                            && forall|j: int| 0 <= j < k ==> props.tabs@[j].key@ != props.active_key@;
                    if k < i {
                    } else if k > i {
                        assert(props.tabs@[i as int].key@ == props.active_key@);
                    }
                }
                return Some(i);
            }
            i = i + 1;
        }
        assert(!exists|j: int| 0 <= j < props.tabs@.len() && props.tabs@[j].key@ == props.active_key@);
        None
    }

    /// The tab bar: a label per tab, active where the tab's key is the
    /// active key.
    pub fn tab_bar<C>(&self, props: &TabbedPanelProps<C>) -> (w: TabBarWidget)
        ensures
            w.focused == props.focused,
            w.labels@.len() == props.tabs@.len(),
            forall|i: int|
                0 <= i < props.tabs@.len() ==> (#[trigger] w.labels@[i]).title@ == props.tabs@[i].title@
                    && w.labels@[i].key@ == props.tabs@[i].key@ && w.labels@[i].active == (
                props.tabs@[i].key@ == props.active_key@),
    {
        let mut labels: Vec<TabLabel> = Vec::new();
        let n = props.tabs.len();
        let mut i: usize = 0;
        while i < n
            invariant
                i <= n,
                n == props.tabs@.len(),
                labels@.len() == i,
                forall|k: int|
                    0 <= k < i ==> (#[trigger] labels@[k]).title@ == props.tabs@[k].title@
                        && labels@[k].key@ == props.tabs@[k].key@ && labels@[k].active == (
                    props.tabs@[k].key@ == props.active_key@),
            decreases n - i,
        {
            let tab = &props.tabs[i];
            labels.push(
                TabLabel {
                    title: tab.title.clone(),
                    key: tab.key.clone(),
                    active: str_eq(tab.key.as_str(), props.active_key.as_str()),
                },
            );
            i = i + 1;
        }
        TabBarWidget { labels, focused: props.focused }
    }

    /// Lay the panel out: the tab bar, and the content of the active tab.
    pub fn view<C>(&self, props: TabbedPanelProps<C>) -> (v: TabbedPanelView<C>)
        ensures
            v.tab_bar.focused == props.focused,
            v.tab_bar.labels@.len() == props.tabs@.len(),
            forall|i: int|
                0 <= i < props.tabs@.len() ==> (#[trigger] v.tab_bar.labels@[i]).title@
                    == props.tabs@[i].title@ && v.tab_bar.labels@[i].key@ == props.tabs@[i].key@
                    && v.tab_bar.labels@[i].active == (
                props.tabs@[i].key@ == props.active_key@),
            v.content == (match first_key_index(props.tabs@, props.active_key@) {
                Some(i) => Some(props.tabs@[i as int].content),
                None => None,
            }),
    {
        let tab_bar = self.tab_bar(&props);
        let active = self.active_index(&props);
        let content = match active {
            Some(i) => {
                let mut tabs = props.tabs;
                let tab = tabs.remove(i);
                Some(tab.content)
            },
            None => None,
        };
        TabbedPanelView { tab_bar, content }
    }
}

impl TabBarWidget {
    /// The pieces of the tab line: the labels in order with a separator
    /// between each two.
    pub fn tab_line(&self) -> (r: Vec<TabLinePiece>)
        ensures
            r@.len() == (if self.labels@.len() == 0 {
                0
            } else {
                2 * self.labels@.len() - 1
            }),
            forall|i: int|
                0 <= i < r@.len() ==> if i % 2 == 0 {
                    (#[trigger] r@[i]) matches TabLinePiece::Label { title, active } && title@
                        == self.labels@[i / 2].title@ && active == self.labels@[i / 2].active
                } else {
                    r@[i] is Separator
                },
    {
        let mut out: Vec<TabLinePiece> = Vec::new();
        let n = self.labels.len();
        let mut i: usize = 0;
        while i < n
            invariant
                i <= n,
                n == self.labels@.len(),
                out@.len() == (if i == 0 {
                    0
                } else {
                    2 * i - 1
                }),
                forall|k: int|
                    0 <= k < out@.len() ==> if k % 2 == 0 {
                        (#[trigger] out@[k]) matches TabLinePiece::Label { title, active }
                            && title@ == self.labels@[k / 2].title@ && active
                            == self.labels@[k / 2].active
                    } else {
                        out@[k] is Separator
                    },
            decreases n - i,
        {
            if i > 0 {
                out.push(TabLinePiece::Separator);
            }
            let label = &self.labels[i];
            out.push(TabLinePiece::Label { title: label.title.clone(), active: label.active });
            i = i + 1;
        }
        out
    }

    /// The pieces of the line under the labels, given the display width of
    /// each label's title.
    pub fn separator_line_with_widths(&self, widths: &[usize], area_width: usize) -> (r: Vec<
        SeparatorPiece,
    >)
        requires
            labels_width(widths@) <= usize::MAX,
        ensures
            r@ == separator_line(widths@, area_width),
    {
        let mut out: Vec<SeparatorPiece> = Vec::new();
        let n = widths.len();
        let mut pos: usize = 0;
        let mut i: usize = 0;
        while i < n
            invariant
                i <= n,
                n == widths@.len(),
                labels_width(widths@) <= usize::MAX,
                pos == labels_width(widths@.take(i as int)),
                out@ == separator_pieces(widths@.take(i as int)),
            decreases n - i,
        {
            proof {
                assert(widths@.take(i + 1).drop_last() =~= widths@.take(i as int));
                lemma_labels_width_prefix(widths@, i + 1);
            }
            let ghost before = out@;
            if i > 0 {
                out.push(SeparatorPiece::Line(1));
                out.push(SeparatorPiece::Connector);
                out.push(SeparatorPiece::Line(1));
                pos = pos + 3;
            }
            out.push(SeparatorPiece::Line(widths[i]));
            pos = pos + widths[i];
            i = i + 1;
            assert(out@ =~= separator_pieces(widths@.take(i as int)));
        }
        assert(widths@.take(n as int) =~= widths@);
        if pos < area_width {
            out.push(SeparatorPiece::Line(area_width - pos));
        }
        assert(out@ =~= separator_line(widths@, area_width));
        out
    }

    /// The pieces of the line under the labels, with the labels' widths
    /// measured by `unicode-width`; None where the labels and separators
    /// together are wider than `usize::MAX`.
    pub fn separator_line(&self, area_width: usize) -> (r: Option<Vec<SeparatorPiece>>)
        ensures
            ({
                let widths = self.labels@.map_values(|l: TabLabel| display_width(l.title@));
                match r {
                    Some(v) => labels_width(widths) <= usize::MAX && v@ == separator_line(
                        widths,
                        area_width,
                    ),
                    None => labels_width(widths) > usize::MAX,
                }
            }),
    {
        let ghost all = self.labels@.map_values(|l: TabLabel| display_width(l.title@));
        let mut widths: Vec<usize> = Vec::new();
        let mut total: usize = 0;
        let n = self.labels.len();
        let mut i: usize = 0;
        while i < n
            invariant
                i <= n,
                n == self.labels@.len(),
                all == self.labels@.map_values(|l: TabLabel| display_width(l.title@)),
                widths@ == all.take(i as int),
                total == labels_width(widths@),
            decreases n - i,
        {
            let w = str_width(self.labels[i].title.as_str());
            let gap: usize = if i > 0 { 3 } else { 0 };
            proof {
                assert(all.take(i + 1) =~= widths@.push(w));
                lemma_labels_width_prefix(all, i + 1);
            }
            if total > usize::MAX - gap || total + gap > usize::MAX - w {
                proof {
                    assert(all.take(i + 1).drop_last() =~= all.take(i as int));
                }
                return None;
            }
            widths.push(w);
            total = total + gap + w;
            proof {
                assert(widths@.drop_last() =~= all.take(i as int));
            }
            i = i + 1;
        }
        assert(all.take(n as int) =~= all);
        Some(self.separator_line_with_widths(widths.as_slice(), area_width))
    }

    /// The height of the tab bar: the label line and the line under it.
    pub fn preferred_height(&self) -> (h: Option<u16>)
        ensures
            h == Some(2u16),
    {
        Some(2)
    }
}

} // verus!
