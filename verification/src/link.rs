//! Links within documents: to other documents, to anchors within the current
//! document, or to actions.

use vstd::prelude::*;

verus! {

/// How the standings are grouped.
#[derive(Clone, Copy, Debug, PartialEq, Eq, Hash, Structural)]
pub enum GroupBy {
    Wildcard,
    Division,
    Conference,
    League,
}

/// A calendar day, used to link to the schedule of that day.
#[derive(Clone, Copy, Debug, PartialEq, Eq, Hash, Structural)]
pub struct GameDay {
    pub year: i32,
    pub month: u32,
    pub day: u32,
}

/// Types of documents that can be linked to.
#[derive(Clone, Copy, Debug, PartialEq, Eq, Hash, Structural)]
pub enum DocumentType {
    Team,
    Player,
    Game,
    Standings,
    Schedule,
}

/// Parameters for the different document types.
#[derive(Debug)]
pub enum LinkParams {
    Team { abbrev: String },
    Player { id: i64 },
    Game { id: i64 },
    StandingsView { group_by: GroupBy },
    ScheduleDate { date: GameDay },
}

/// A link to another document.
#[derive(Debug)]
pub struct DocumentLink {
    pub doc_type: DocumentType,
    pub params: LinkParams,
}

/// Target of a document link.
#[derive(Debug)]
pub enum LinkTarget {
    /// Navigate to another document.
    Document(DocumentLink),
    /// Navigate to a position in the current document.
    Anchor(String),
    /// External action (open a modal, trigger a command).
    Action(String),
}

/// The mathematical value of link parameters.
pub enum ParamsView {
    Team(Seq<char>),
    Player(i64),
    Game(i64),
    StandingsView(GroupBy),
    ScheduleDate(GameDay),
}

/// The mathematical value of a document link.
pub struct DocumentLinkView {
    pub doc_type: DocumentType,
    pub params: ParamsView,
}

/// The mathematical value of a link target.
pub enum TargetView {
    Document(DocumentLinkView),
    Anchor(Seq<char>),
    Action(Seq<char>),
}

impl View for LinkParams {
    type V = ParamsView;

    open spec fn view(&self) -> ParamsView {
        match *self {
            LinkParams::Team { abbrev } => ParamsView::Team(abbrev@),
            LinkParams::Player { id } => ParamsView::Player(id),
            LinkParams::Game { id } => ParamsView::Game(id),
            LinkParams::StandingsView { group_by } => ParamsView::StandingsView(group_by),
            LinkParams::ScheduleDate { date } => ParamsView::ScheduleDate(date),
        }
    }
}

impl View for DocumentLink {
    type V = DocumentLinkView;

    open spec fn view(&self) -> DocumentLinkView {
        DocumentLinkView { doc_type: self.doc_type, params: self.params@ }
    }
}

impl View for LinkTarget {
    type V = TargetView;

    open spec fn view(&self) -> TargetView {
        match *self {
            LinkTarget::Document(l) => TargetView::Document(l@),
            LinkTarget::Anchor(s) => TargetView::Anchor(s@),
            LinkTarget::Action(s) => TargetView::Action(s@),
        }
    }
}

/// The value of an optional link target.
pub open spec fn opt_target_view(t: Option<LinkTarget>) -> Option<TargetView> {
    match t {
        Some(t) => Some(t@),
        None => None,
    }
}

impl Clone for LinkParams {
    fn clone(&self) -> (res: Self)
        ensures
            res == *self,
    {
        match self {
            LinkParams::Team { abbrev } => LinkParams::Team { abbrev: abbrev.clone() },
            LinkParams::Player { id } => LinkParams::Player { id: *id },
            LinkParams::Game { id } => LinkParams::Game { id: *id },
            LinkParams::StandingsView { group_by } => LinkParams::StandingsView {
                group_by: *group_by,
            },
            LinkParams::ScheduleDate { date } => LinkParams::ScheduleDate { date: *date },
        }
    }
}

impl Clone for DocumentLink {
    fn clone(&self) -> (res: Self)
        ensures
            res == *self,
    {
        DocumentLink { doc_type: self.doc_type, params: self.params.clone() }
    }
}

impl Clone for LinkTarget {
    fn clone(&self) -> (res: Self)
        ensures
            res == *self,
    {
        match self {
            LinkTarget::Document(link) => LinkTarget::Document(link.clone()),
            LinkTarget::Anchor(s) => LinkTarget::Anchor(s.clone()),
            LinkTarget::Action(s) => LinkTarget::Action(s.clone()),
        }
    }
}

impl PartialEq for LinkParams {
    fn eq(&self, other: &Self) -> (r: bool) {
        match (self, other) {
            (LinkParams::Team { abbrev: x }, LinkParams::Team { abbrev: y }) => *x == *y,
            (LinkParams::Player { id: x }, LinkParams::Player { id: y }) => *x == *y,
            (LinkParams::Game { id: x }, LinkParams::Game { id: y }) => *x == *y,
            (
                LinkParams::StandingsView { group_by: x },
                LinkParams::StandingsView { group_by: y },
            ) => *x == *y,
            (LinkParams::ScheduleDate { date: x }, LinkParams::ScheduleDate { date: y }) => *x
                == *y,
            _ => false,
        }
    }
}

impl vstd::std_specs::cmp::PartialEqSpecImpl for LinkParams {
    open spec fn obeys_eq_spec() -> bool {
        true
    }

    open spec fn eq_spec(&self, other: &LinkParams) -> bool {
        self@ == other@
    }
}

impl PartialEq for DocumentLink {
    fn eq(&self, other: &Self) -> (r: bool) {
        self.doc_type == other.doc_type && self.params == other.params
    }
}

impl vstd::std_specs::cmp::PartialEqSpecImpl for DocumentLink {
    open spec fn obeys_eq_spec() -> bool {
        true
    }

    open spec fn eq_spec(&self, other: &DocumentLink) -> bool {
        self@ == other@
    }
}

impl PartialEq for LinkTarget {
    fn eq(&self, other: &Self) -> (r: bool) {
        match (self, other) {
            (LinkTarget::Document(x), LinkTarget::Document(y)) => x == y,
            (LinkTarget::Anchor(x), LinkTarget::Anchor(y)) => *x == *y,
            (LinkTarget::Action(x), LinkTarget::Action(y)) => *x == *y,
            _ => false,
        }
    }
}

impl vstd::std_specs::cmp::PartialEqSpecImpl for LinkTarget {
    open spec fn obeys_eq_spec() -> bool {
        true
    }

    open spec fn eq_spec(&self, other: &LinkTarget) -> bool {
        self@ == other@
    }
}

impl DocumentLink {
    /// Create a new document link.
    pub fn new(doc_type: DocumentType, params: LinkParams) -> (l: Self)
        ensures
            l == (DocumentLink { doc_type, params }),
    {
        DocumentLink { doc_type, params }
    }

    /// Link to a team document.
    pub fn team(abbrev: &str) -> (l: Self)
        ensures
            l.doc_type == DocumentType::Team,
            l.params matches LinkParams::Team { abbrev: a } && a@ == abbrev@,
    {
        DocumentLink {
            doc_type: DocumentType::Team,
            params: LinkParams::Team { abbrev: String::from_str(abbrev) },
        }
    }

    /// Link to a player document.
    pub fn player(id: i64) -> (l: Self)
        ensures
            l == (DocumentLink { doc_type: DocumentType::Player, params: LinkParams::Player { id } }),
    {
        DocumentLink { doc_type: DocumentType::Player, params: LinkParams::Player { id } }
    }

    /// Link to a game document.
    pub fn game(id: i64) -> (l: Self)
        ensures
            l == (DocumentLink { doc_type: DocumentType::Game, params: LinkParams::Game { id } }),
    {
        DocumentLink { doc_type: DocumentType::Game, params: LinkParams::Game { id } }
    }

    /// Link to the standings grouped in a given way.
    pub fn standings(group_by: GroupBy) -> (l: Self)
        ensures
            l == (DocumentLink {
                doc_type: DocumentType::Standings,
                params: LinkParams::StandingsView { group_by },
            }),
    {
        DocumentLink {
            doc_type: DocumentType::Standings,
            params: LinkParams::StandingsView { group_by },
        }
    }

    /// Link to the schedule of a given day.
    pub fn schedule(date: GameDay) -> (l: Self)
        ensures
            l == (DocumentLink {
                doc_type: DocumentType::Schedule,
                params: LinkParams::ScheduleDate { date },
            }),
    {
        DocumentLink { doc_type: DocumentType::Schedule, params: LinkParams::ScheduleDate { date } }
    }
}

} // verus!
