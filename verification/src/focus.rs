//! Focus management for document navigation: Tab / Shift-Tab cycle through
//! the focusable elements of a document.

use vstd::prelude::*;

use crate::elements::{
    DocumentElement,
    group_collected,
    group_ok,
    lemma_collect_ok_prefix,
    lemma_collect_step,
    lemma_seq_height_step,
    seq_height,
    views,
};
use crate::link::{LinkTarget, TargetView, opt_target_view};
use crate::text::{decimal, push_decimal, push_signed_decimal, signed_decimal, str_eq};

verus! {

/// A rectangle of terminal cells.
#[derive(Clone, Copy, Debug, PartialEq, Eq, Hash, Structural)]
pub struct Rect {
    pub x: u16,
    pub y: u16,
    pub width: u16,
    pub height: u16,
}

impl Rect {
    pub fn new(x: u16, y: u16, width: u16, height: u16) -> (r: Rect)
        ensures
            r == (Rect { x, y, width, height }),
    {
        Rect { x, y, width, height }
    }
}

/// Position of an element within a Row, for left/right navigation.
#[derive(Clone, Copy, Debug, PartialEq, Eq, Hash, Structural)]
pub struct RowPosition {
    /// Y position that identifies the Row.
    pub row_y: u16,
    /// Index of the child container within the Row (0 = leftmost).
    pub child_idx: usize,
    /// Index within the child container.
    pub idx_within_child: usize,
}

// ---------------------------------------------------------------------------
// Focus cycling over `len` elements
// ---------------------------------------------------------------------------

/// Focus after Tab: the first element when nothing is focused, the next one
/// otherwise, wrapping from the last to the first; nothing when there are no
/// elements.
pub open spec fn next_focus(current: Option<usize>, len: usize) -> Option<usize> {
    if len == 0 {
        None
    } else {
        match current {
            None => Some(0usize),
            Some(i) => Some(((i as int + 1) % (len as int)) as usize),
        }
    }
}

/// Focus after Shift-Tab: the last element when nothing or the first element
/// is focused, the previous one otherwise; nothing when there are no elements.
pub open spec fn prev_focus(current: Option<usize>, len: usize) -> Option<usize> {
    if len == 0 {
        None
    } else {
        match current {
            None => Some((len - 1) as usize),
            Some(i) => if i == 0 || i > len {
                Some((len - 1) as usize)
            } else {
                Some((i - 1) as usize)
            },
        }
    }
}

/// Whether moving from `prev` to `cur` went from the last element to the first.
pub open spec fn wrapped_forward(prev: Option<usize>, cur: Option<usize>, len: usize) -> bool {
    len > 0 && prev == Some((len - 1) as usize) && cur == Some(0usize)
}

/// Whether moving from `prev` to `cur` went from the first element to the last.
pub open spec fn wrapped_backward(prev: Option<usize>, cur: Option<usize>, len: usize) -> bool {
    len > 0 && prev == Some(0usize) && cur == Some((len - 1) as usize)
}

/// The index focused after Tab.
pub fn focus_next(current: Option<usize>, len: usize) -> (r: Option<usize>)
    ensures
        r == next_focus(current, len),
{
    if len == 0 {
        None
    } else {
        match current {
            None => Some(0),
            Some(i) => {
                if i < len - 1 {
                    proof {
                        vstd::arithmetic::div_mod::lemma_small_mod((i + 1) as nat, len as nat);
                    }
                    Some(i + 1)
                } else {
                    proof {
                        vstd::arithmetic::div_mod::lemma_add_mod_noop(i as int, 1, len as int);
                        vstd::arithmetic::div_mod::lemma_mod_bound(i as int, len as int);
                        if len > 1 {
                            vstd::arithmetic::div_mod::lemma_small_mod(1, len as nat);
                        } else {
                            vstd::arithmetic::div_mod::lemma_mod_self_0(1);
                            vstd::arithmetic::div_mod::lemma_add_mod_noop(
                                (i % len) as int,
                                1,
                                len as int,
                            );
                        }
                    }
                    Some((i % len + 1) % len)
                }
            },
        }
    }
}

/// The index focused after Shift-Tab.
pub fn focus_prev(current: Option<usize>, len: usize) -> (r: Option<usize>)
    ensures
        r == prev_focus(current, len),
{
    if len == 0 {
        None
    } else {
        match current {
            None => Some(len - 1),
            Some(i) => {
                if i == 0 || i > len {
                    Some(len - 1)
                } else {
                    Some(i - 1)
                }
            },
        }
    }
}

/// Whether focus wrapped from the last element to the first.
pub fn did_wrap_forward(prev: Option<usize>, cur: Option<usize>, len: usize) -> (b: bool)
    ensures
        b == wrapped_forward(prev, cur, len),
{
    len > 0 && prev == Some(len - 1) && cur == Some(0)
}

/// Whether focus wrapped from the first element to the last.
pub fn did_wrap_backward(prev: Option<usize>, cur: Option<usize>, len: usize) -> (b: bool)
    ensures
        b == wrapped_backward(prev, cur, len),
{
    len > 0 && prev == Some(0) && cur == Some(len - 1)
}

// ---------------------------------------------------------------------------
// Focusable identifiers
// ---------------------------------------------------------------------------

/// Type-safe identifier for focusable elements.
#[derive(Debug, Hash)]
pub enum FocusableId {
    /// A table cell identified by table name, row and column.
    TableCell { table_name: String, row: usize, col: usize },
    /// A standalone link with a string identifier.
    Link(String),
    /// A team link with the team abbreviation ("TOR", "BOS").
    TeamLink(String),
    /// A player link with the player ID.
    PlayerLink(i64),
    /// A game link with the game ID.
    GameLink(i64),
}

/// The mathematical value of a focusable identifier.
pub enum FocusKey {
    TableCell { table_name: Seq<char>, row: usize, col: usize },
    Link(Seq<char>),
    TeamLink(Seq<char>),
    PlayerLink(i64),
    GameLink(i64),
}

impl View for FocusableId {
    type V = FocusKey;

    open spec fn view(&self) -> FocusKey {
        match *self {
            FocusableId::TableCell { table_name, row, col } => FocusKey::TableCell {
                table_name: table_name@,
                row,
                col,
            },
            FocusableId::Link(s) => FocusKey::Link(s@),
            FocusableId::TeamLink(s) => FocusKey::TeamLink(s@),
            FocusableId::PlayerLink(i) => FocusKey::PlayerLink(i),
            FocusableId::GameLink(i) => FocusKey::GameLink(i),
        }
    }
}

impl Clone for FocusableId {
    fn clone(&self) -> (res: Self)
        ensures
            res == *self,
    {
        match self {
            FocusableId::TableCell { table_name, row, col } => FocusableId::TableCell {
                table_name: table_name.clone(),
                row: *row,
                col: *col,
            },
            FocusableId::Link(s) => FocusableId::Link(s.clone()),
            FocusableId::TeamLink(s) => FocusableId::TeamLink(s.clone()),
            FocusableId::PlayerLink(i) => FocusableId::PlayerLink(*i),
            FocusableId::GameLink(i) => FocusableId::GameLink(*i),
        }
    }
}

impl PartialEq for FocusableId {
    fn eq(&self, other: &Self) -> (r: bool) {
        let r = match self {
            FocusableId::TableCell { table_name: n1, row: r1, col: c1 } => match other {
                FocusableId::TableCell { table_name: n2, row: r2, col: c2 } => str_eq(
                    n1.as_str(),
                    n2.as_str(),
                ) && *r1 == *r2 && *c1 == *c2,
                _ => false,
            },
            FocusableId::Link(x) => match other {
                FocusableId::Link(y) => str_eq(x.as_str(), y.as_str()),
                _ => false,
            },
            FocusableId::TeamLink(x) => match other {
                FocusableId::TeamLink(y) => str_eq(x.as_str(), y.as_str()),
                _ => false,
            },
            FocusableId::PlayerLink(x) => match other {
                FocusableId::PlayerLink(y) => *x == *y,
                _ => false,
            },
            FocusableId::GameLink(x) => match other {
                FocusableId::GameLink(y) => *x == *y,
                _ => false,
            },
        };
        r
    }
}

impl vstd::std_specs::cmp::PartialEqSpecImpl for FocusableId {
    open spec fn obeys_eq_spec() -> bool {
        true
    }

    open spec fn eq_spec(&self, other: &FocusableId) -> bool {
        self@ == other@
    }
}

impl Eq for FocusableId {

}

/// The user-facing name of a link identifier: the full team name for the
/// four short team ids the link system knows, the id itself otherwise.
pub open spec fn link_display(id: Seq<char>) -> Seq<char> {
    if id == "bos"@ {
        "Boston Bruins"@
    } else if id == "tor"@ {
        "Toronto Maple Leafs"@
    } else if id == "nyr"@ {
        "New York Rangers"@
    } else if id == "mtl"@ {
        "Montreal Canadiens"@
    } else {
        id
    }
}

/// The user-facing name of a focusable identifier.
pub open spec fn id_display(id: FocusKey) -> Seq<char> {
    match id {
        FocusKey::TableCell { row, .. } => "Table row "@ + decimal(row as nat + 1),
        FocusKey::Link(s) => link_display(s),
        FocusKey::TeamLink(s) => "Team "@ + s,
        FocusKey::PlayerLink(i) => "Player "@ + signed_decimal(i as int),
        FocusKey::GameLink(i) => "Game "@ + signed_decimal(i as int),
    }
}

/// Format a link ID for user-friendly display.
pub fn format_link_id(id: &str) -> (r: String)
    ensures
        r@ == link_display(id@),
{
    if str_eq(id, "bos") {
        String::from_str("Boston Bruins")
    } else if str_eq(id, "tor") {
        String::from_str("Toronto Maple Leafs")
    } else if str_eq(id, "nyr") {
        String::from_str("New York Rangers")
    } else if str_eq(id, "mtl") {
        String::from_str("Montreal Canadiens")
    } else {
        String::from_str(id)
    }
}

impl FocusableId {
    /// A table cell ID.
    pub fn table_cell(table_name: &str, row: usize, col: usize) -> (r: Self)
        ensures
            r@ == (FocusKey::TableCell { table_name: table_name@, row, col }),
    {
        FocusableId::TableCell { table_name: String::from_str(table_name), row, col }
    }

    /// A link ID.
    pub fn link(id: &str) -> (r: Self)
        ensures
            r@ == FocusKey::Link(id@),
    {
        FocusableId::Link(String::from_str(id))
    }

    /// A team link ID.
    pub fn team_link(abbrev: &str) -> (r: Self)
        ensures
            r@ == FocusKey::TeamLink(abbrev@),
    {
        FocusableId::TeamLink(String::from_str(abbrev))
    }

    /// A player link ID.
    pub fn player_link(player_id: i64) -> (r: Self)
        ensures
            r == FocusableId::PlayerLink(player_id),
    {
        FocusableId::PlayerLink(player_id)
    }

    /// A game link ID.
    pub fn game_link(game_id: i64) -> (r: Self)
        ensures
            r == FocusableId::GameLink(game_id),
    {
        FocusableId::GameLink(game_id)
    }

    /// The table row, if this is a table cell.
    pub fn table_row(&self) -> (r: Option<usize>)
        ensures
            r == (match *self {
                FocusableId::TableCell { row, .. } => Some(row),
                _ => None,
            }),
    {
        match self {
            FocusableId::TableCell { row, .. } => Some(*row),
            _ => None,
        }
    }

    /// The table name, if this is a table cell.
    pub fn table_name(&self) -> (r: Option<&str>)
        ensures
            *self matches FocusableId::TableCell { table_name, .. } ==> (r matches Some(s)
                && s@ == table_name@),
            !(*self is TableCell) ==> r is None,
    {
        match self {
            FocusableId::TableCell { table_name, .. } => Some(table_name.as_str()),
            _ => None,
        }
    }

    /// A user-friendly name: "Table row N" (counting from 1), the link's
    /// display name, "Team X", "Player N" or "Game N".
    pub fn display_name(&self) -> (r: String)
        requires
            *self matches FocusableId::TableCell { row, .. } ==> row < usize::MAX,
        ensures
            r@ == id_display(self@),
    {
        match self {
            FocusableId::TableCell { row, .. } => {
                let mut s = String::from_str("Table row ");
                push_decimal(&mut s, (*row + 1) as u64);
                s
            },
            FocusableId::Link(id) => format_link_id(id.as_str()),
            FocusableId::TeamLink(abbrev) => {
                let mut s = String::from_str("Team ");
                s.append(abbrev.as_str());
                s
            },
            FocusableId::PlayerLink(id) => {
                let mut s = String::from_str("Player ");
                push_signed_decimal(&mut s, *id);
                s
            },
            FocusableId::GameLink(id) => {
                let mut s = String::from_str("Game ");
                push_signed_decimal(&mut s, *id);
                s
            },
        }
    }
}

// ---------------------------------------------------------------------------
// Focusable elements and the focus manager
// ---------------------------------------------------------------------------

/// A focusable element within a document.
#[derive(Debug)]
pub struct FocusableElement {
    /// Identifier of this element.
    pub id: FocusableId,
    /// Y position in the document (for scrolling).
    pub y: u16,
    /// Height of the element.
    pub height: u16,
    /// Area of the focusable element (for highlighting).
    pub rect: Rect,
    /// Link target, if this is a link.
    pub link_target: Option<LinkTarget>,
    /// Row membership for left/right navigation within Row elements.
    pub row_position: Option<RowPosition>,
}

/// The mathematical value of a focusable element.
pub struct FocusView {
    pub id: FocusKey,
    pub y: u16,
    pub height: u16,
    pub rect: Rect,
    pub link_target: Option<TargetView>,
    pub row_position: Option<RowPosition>,
}

impl View for FocusableElement {
    type V = FocusView;

    open spec fn view(&self) -> FocusView {
        FocusView {
            id: self.id@,
            y: self.y,
            height: self.height,
            rect: self.rect,
            link_target: opt_target_view(self.link_target),
            row_position: self.row_position,
        }
    }
}

impl Clone for FocusableElement {
    fn clone(&self) -> (res: Self)
        ensures
            res == *self,
    {
        FocusableElement {
            id: self.id.clone(),
            y: self.y,
            height: self.height,
            rect: self.rect,
            link_target: match &self.link_target {
                Some(t) => Some(t.clone()),
                None => None,
            },
            row_position: self.row_position,
        }
    }
}

impl FocusableElement {
    /// A focusable element outside any row.
    pub fn new(
        id: FocusableId,
        y: u16,
        height: u16,
        rect: Rect,
        link_target: Option<LinkTarget>,
    ) -> (e: Self)
        ensures
            e == (FocusableElement { id, y, height, rect, link_target, row_position: None }),
    {
        FocusableElement { id, y, height, rect, link_target, row_position: None }
    }

    /// A focusable link one line high at `y`, as wide as `width`.
    pub fn link(id: &str, y: u16, width: u16, target: LinkTarget) -> (e: Self)
        ensures
            e.id@ == FocusKey::Link(id@),
            e.y == y,
            e.height == 1,
            e.rect == Rect::new_spec(0, y, width, 1),
            e.link_target == Some(target),
            e.row_position is None,
    {
        FocusableElement {
            id: FocusableId::link(id),
            y,
            height: 1,
            rect: Rect::new(0, y, width, 1),
            link_target: Some(target),
            row_position: None,
        }
    }

    /// A focusable table cell covering `rect`.
    pub fn table_cell(
        table_name: &str,
        row: usize,
        col: usize,
        rect: Rect,
        target: Option<LinkTarget>,
    ) -> (e: Self)
        ensures
            e.id@ == (FocusKey::TableCell { table_name: table_name@, row, col }),
            e.y == rect.y,
            e.height == rect.height,
            e.rect == rect,
            e.link_target == target,
            e.row_position is None,
    {
        FocusableElement {
            id: FocusableId::table_cell(table_name, row, col),
            y: rect.y,
            height: rect.height,
            rect,
            link_target: target,
            row_position: None,
        }
    }
}

impl Rect {
    pub open spec fn new_spec(x: u16, y: u16, width: u16, height: u16) -> Rect {
        Rect { x, y, width, height }
    }
}

/// The abstract state of a focus manager: the focusable elements in tab
/// order, and the index of the focused one.
pub struct FocusState {
    pub elements: Seq<FocusView>,
    pub current: Option<usize>,
}

/// Manages focus state within a document.
#[derive(Debug)]
pub struct FocusManager {
    elements: Vec<FocusableElement>,
    current_focus: Option<usize>,
}

/// The focused element of a state, if any.
pub open spec fn focused_element(s: FocusState) -> Option<FocusView> {
    match s.current {
        Some(i) => Some(s.elements[i as int]),
        None => None,
    }
}

/// The index of the first element with identifier `id`.
pub open spec fn first_index_of(elements: Seq<FocusView>, id: FocusKey) -> Option<usize> {
    if exists|i: int| 0 <= i < elements.len() && elements[i].id == id {
        let i = choose|i: int|
            0 <= i < elements.len() && elements[i].id == id && forall|j: int|
                0 <= j < i ==> elements[j].id != id;
        Some(i as usize)
    } else {
        None
    }
}

impl View for FocusManager {
    type V = FocusState;

    closed spec fn view(&self) -> FocusState {
        FocusState {
            elements: self.elements@.map_values(|e: FocusableElement| e@),
            current: self.current_focus,
        }
    }
}

impl FocusManager {
    #[verifier::type_invariant]
    closed spec fn focus_in_range(self) -> bool {
        self.current_focus matches Some(i) ==> i < self.elements.len()
    }

    /// An empty focus manager.
    pub fn new() -> (fm: Self)
        ensures
            fm@.elements == Seq::<FocusView>::empty(),
            fm@.current is None,
    {
        let fm = FocusManager { elements: Vec::new(), current_focus: None };
        assert(fm@.elements =~= Seq::<FocusView>::empty());
        fm
    }

    /// A focus manager over the given elements, with no focus.
    pub fn from_focusable(elements: Vec<FocusableElement>) -> (fm: Self)
        ensures
            fm@.elements == elements@.map_values(|e: FocusableElement| e@),
            fm@.current is None,
    {
        FocusManager { elements, current_focus: None }
    }

    /// A focus manager over the focusable elements of document elements
    /// stacked from the top, with no focus.
    pub fn from_elements(elements: &[DocumentElement]) -> (fm: Self)
        requires
            group_ok(elements@, 0, true),
        ensures
            fm@.elements == group_collected(elements@, 0),
            fm@.current is None,
    {
        let mut focusable: Vec<FocusableElement> = Vec::new();
        let n = elements.len();
        let mut y_offset: u16 = 0;
        let mut i: usize = 0;
        assert(elements@.take(0) =~= Seq::<DocumentElement>::empty());
        assert(views(focusable@) =~= group_collected(elements@.take(0), 0));
        while i < n
            invariant
                i <= n,
                n == elements@.len(),
                group_ok(elements@, 0, true),
                y_offset == seq_height(elements@.take(i as int)),
                views(focusable@) == group_collected(elements@.take(i as int), 0),
            decreases n - i,
        {
            proof {
                lemma_collect_step(elements@, 0, i as int, true);
                lemma_collect_ok_prefix(elements@, 0, i + 1, true);
                lemma_seq_height_step(elements@, i as int);
            }
            elements[i].collect_focusable(&mut focusable, y_offset);
            let h = elements[i].height();
            y_offset = y_offset + h;
            i = i + 1;
        }
        assert(elements@.take(n as int) =~= elements@);
        FocusManager { elements: focusable, current_focus: None }
    }

    /// Add a focusable element at the end of the tab order.
    pub fn add_element(&mut self, element: FocusableElement)
        ensures
            final(self)@.elements == old(self)@.elements.push(element@),
            final(self)@.current == old(self)@.current,
    {
        proof {
            use_type_invariant(&*self);
        }
        let ghost e = element@;
        let focus = self.current_focus;
        self.current_focus = None;
        let mut elements: Vec<FocusableElement> = Vec::new();
        std::mem::swap(&mut elements, &mut self.elements);
        elements.push(element);
        std::mem::swap(&mut elements, &mut self.elements);
        self.current_focus = focus;
        assert(self@.elements =~= old(self)@.elements.push(e));
    }

    /// The number of focusable elements.
    pub fn len(&self) -> (n: usize)
        ensures
            n == self@.elements.len(),
    {
        self.elements.len()
    }

    /// Whether there are no focusable elements.
    pub fn is_empty(&self) -> (b: bool)
        ensures
            b == (self@.elements.len() == 0),
    {
        self.elements.len() == 0
    }

    /// Tab: focus the next element, wrapping from the last to the first.
    /// Returns whether an element is focused afterwards (false only when
    /// there are no elements).
    pub fn focus_next(&mut self) -> (changed: bool)
        ensures
            final(self)@.elements == old(self)@.elements,
            final(self)@.current == next_focus(old(self)@.current, old(self)@.elements.len() as usize),
            changed == (old(self)@.elements.len() > 0),
    {
        proof {
            use_type_invariant(&*self);
            lemma_focus_lands_in_range(self.current_focus, self.elements.len());
        }
        let new_focus = focus_next(self.current_focus, self.elements.len());
        let changed = new_focus.is_some();
        self.current_focus = new_focus;
        changed
    }

    /// Shift-Tab: focus the previous element, wrapping from the first to the
    /// last.  Returns whether an element is focused afterwards.
    pub fn focus_prev(&mut self) -> (changed: bool)
        ensures
            final(self)@.elements == old(self)@.elements,
            final(self)@.current == prev_focus(old(self)@.current, old(self)@.elements.len() as usize),
            changed == (old(self)@.elements.len() > 0),
    {
        proof {
            use_type_invariant(&*self);
            lemma_focus_lands_in_range(self.current_focus, self.elements.len());
        }
        let new_focus = focus_prev(self.current_focus, self.elements.len());
        let changed = new_focus.is_some();
        self.current_focus = new_focus;
        changed
    }

    /// The focused index.
    pub fn current_index(&self) -> (r: Option<usize>)
        ensures
            r == self@.current,
            r matches Some(i) ==> i < self@.elements.len(),
    {
        proof {
            use_type_invariant(self);
        }
        self.current_focus
    }

    /// The focused element.
    pub fn current_element(&self) -> (r: Option<&FocusableElement>)
        ensures
            match r {
                Some(e) => focused_element(self@) == Some(e@),
                None => focused_element(self@) is None,
            },
    {
        proof {
            use_type_invariant(self);
        }
        match self.current_focus {
            Some(idx) => Some(&self.elements[idx]),
            None => None,
        }
    }

    /// The identifier of the focused element.
    pub fn get_current_id(&self) -> (r: Option<&FocusableId>)
        ensures
            match r {
                Some(id) => focused_element(self@) matches Some(e) && e.id == id@,
                None => focused_element(self@) is None,
            },
    {
        proof {
            use_type_invariant(self);
        }
        match self.current_focus {
            Some(idx) => Some(&self.elements[idx].id),
            None => None,
        }
    }

    /// The y position of the focused element.
    pub fn get_focused_position(&self) -> (r: Option<u16>)
        ensures
            r == (match focused_element(self@) {
                Some(e) => Some(e.y),
                None => None,
            }),
    {
        proof {
            use_type_invariant(self);
        }
        match self.current_focus {
            Some(idx) => Some(self.elements[idx].y),
            None => None,
        }
    }

    /// The height of the focused element.
    pub fn get_focused_height(&self) -> (r: Option<u16>)
        ensures
            r == (match focused_element(self@) {
                Some(e) => Some(e.height),
                None => None,
            }),
    {
        proof {
            use_type_invariant(self);
        }
        match self.current_focus {
            Some(idx) => Some(self.elements[idx].height),
            None => None,
        }
    }

    /// The area of the focused element.
    pub fn get_focused_rect(&self) -> (r: Option<Rect>)
        ensures
            r == (match focused_element(self@) {
                Some(e) => Some(e.rect),
                None => None,
            }),
    {
        proof {
            use_type_invariant(self);
        }
        match self.current_focus {
            Some(idx) => Some(self.elements[idx].rect),
            None => None,
        }
    }

    /// Activate the focused element: its link target, if it has one.
    pub fn activate_current(&self) -> (r: Option<LinkTarget>)
        ensures
            opt_target_view(r) == (match focused_element(self@) {
                Some(e) => e.link_target,
                None => None,
            }),
    {
        proof {
            use_type_invariant(self);
        }
        match self.current_focus {
            Some(idx) => match &self.elements[idx].link_target {
                Some(t) => Some(t.clone()),
                None => None,
            },
            None => None,
        }
    }

    /// The focused element's link target, without activating it.
    pub fn get_current_link(&self) -> (r: Option<&LinkTarget>)
        ensures
            match r {
                Some(t) => focused_element(self@) matches Some(e) && e.link_target == Some(t@),
                None => !(focused_element(self@) matches Some(e) && e.link_target is Some),
            },
    {
        proof {
            use_type_invariant(self);
        }
        match self.current_focus {
            Some(idx) => match &self.elements[idx].link_target {
                Some(t) => Some(t),
                None => None,
            },
            None => None,
        }
    }

    /// Clear the focus.
    pub fn clear_focus(&mut self)
        ensures
            final(self)@.elements == old(self)@.elements,
            final(self)@.current is None,
    {
        self.current_focus = None;
    }

    /// Focus the first element with the given identifier.  Returns whether
    /// one was found; when none is, the focus is cleared.
    pub fn focus_by_id(&mut self, id: &FocusableId) -> (found: bool)
        ensures
            final(self)@.elements == old(self)@.elements,
            final(self)@.current == first_index_of(old(self)@.elements, id@),
            found == final(self)@.current is Some,
    {
        let pos = position_of(&self.elements, id);
        self.current_focus = pos;
        pos.is_some()
    }

    /// Focus the element at `index`, when it exists; returns whether it does.
    /// An invalid index leaves the focus unchanged.
    pub fn focus_by_index(&mut self, index: usize) -> (ok: bool)
        ensures
            final(self)@.elements == old(self)@.elements,
            ok == (index < old(self)@.elements.len()),
            ok ==> final(self)@.current == Some(index),
            !ok ==> final(self)@.current == old(self)@.current,
    {
        if index < self.elements.len() {
            self.current_focus = Some(index);
            true
        } else {
            false
        }
    }

    /// Whether focus wrapped from the last element to the first, comparing
    /// the focus before a Tab with the current one.
    pub fn did_wrap_forward(&self, prev_focus: Option<usize>) -> (b: bool)
        ensures
            b == wrapped_forward(prev_focus, self@.current, self@.elements.len() as usize),
    {
        did_wrap_forward(prev_focus, self.current_focus, self.elements.len())
    }

    /// Whether focus wrapped from the first element to the last, comparing
    /// the focus before a Shift-Tab with the current one.
    pub fn did_wrap_backward(&self, prev_focus: Option<usize>) -> (b: bool)
        ensures
            b == wrapped_backward(prev_focus, self@.current, self@.elements.len() as usize),
    {
        did_wrap_backward(prev_focus, self.current_focus, self.elements.len())
    }

    /// All focusable elements, in tab order.
    pub fn elements(&self) -> (r: &[FocusableElement])
        ensures
            r@.map_values(|e: FocusableElement| e@) == self@.elements,
    {
        self.elements.as_slice()
    }

    /// The y positions of all focusable elements.
    pub fn y_positions(&self) -> (r: Vec<u16>)
        ensures
            r@ == self@.elements.map_values(|e: FocusView| e.y),
    {
        let mut out: Vec<u16> = Vec::new();
        let n = self.elements.len();
        let mut i: usize = 0;
        while i < n
            invariant
                i <= n,
                n == self@.elements.len(),
                out@ == self@.elements.take(i as int).map_values(|e: FocusView| e.y),
            decreases n - i,
        {
            out.push(self.elements[i].y);
            i = i + 1;
            assert(out@ =~= self@.elements.take(i as int).map_values(|e: FocusView| e.y));
        }
        assert(self@.elements.take(n as int) =~= self@.elements);
        out
    }

    /// The heights of all focusable elements.
    pub fn heights(&self) -> (r: Vec<u16>)
        ensures
            r@ == self@.elements.map_values(|e: FocusView| e.height),
    {
        let mut out: Vec<u16> = Vec::new();
        let n = self.elements.len();
        let mut i: usize = 0;
        while i < n
            invariant
                i <= n,
                n == self@.elements.len(),
                out@ == self@.elements.take(i as int).map_values(|e: FocusView| e.height),
            decreases n - i,
        {
            out.push(self.elements[i].height);
            i = i + 1;
            assert(out@ =~= self@.elements.take(i as int).map_values(|e: FocusView| e.height));
        }
        assert(self@.elements.take(n as int) =~= self@.elements);
        out
    }

    /// The row positions of all focusable elements.
    pub fn row_positions(&self) -> (r: Vec<Option<RowPosition>>)
        ensures
            r@ == self@.elements.map_values(|e: FocusView| e.row_position),
    {
        let mut out: Vec<Option<RowPosition>> = Vec::new();
        let n = self.elements.len();
        let mut i: usize = 0;
        while i < n
            invariant
                i <= n,
                n == self@.elements.len(),
                out@ == self@.elements.take(i as int).map_values(|e: FocusView| e.row_position),
            decreases n - i,
        {
            out.push(self.elements[i].row_position);
            i = i + 1;
            assert(out@ =~= self@.elements.take(i as int).map_values(
                |e: FocusView| e.row_position,
            ));
        }
        assert(self@.elements.take(n as int) =~= self@.elements);
        out
    }

    /// The identifiers of all focusable elements, in tab order.
    pub fn ids(&self) -> (r: Vec<FocusableId>)
        ensures
            r@.map_values(|x: FocusableId| x@) == self@.elements.map_values(|e: FocusView| e.id),
    {
        let mut out: Vec<FocusableId> = Vec::new();
        let n = self.elements.len();
        let mut i: usize = 0;
        while i < n
            invariant
                i <= n,
                n == self@.elements.len(),
                out@.len() == i,
                forall|k: int| 0 <= k < i ==> (#[trigger] out@[k])@ == self@.elements[k].id,
            decreases n - i,
        {
            let id = self.elements[i].id.clone();
            assert(self@.elements[i as int] == self.elements@[i as int]@);
            out.push(id);
            i = i + 1;
        }
        assert(out@.map_values(|x: FocusableId| x@) =~= self@.elements.map_values(
            |e: FocusView| e.id,
        ));
        out
    }

    /// The link targets of all focusable elements, in tab order (None for
    /// elements without a link).
    pub fn link_targets(&self) -> (r: Vec<Option<LinkTarget>>)
        ensures
            r@.map_values(|t: Option<LinkTarget>| opt_target_view(t)) == self@.elements.map_values(
                |e: FocusView| e.link_target,
            ),
    {
        let mut out: Vec<Option<LinkTarget>> = Vec::new();
        let n = self.elements.len();
        let mut i: usize = 0;
        while i < n
            invariant
                i <= n,
                n == self@.elements.len(),
                out@.len() == i,
                forall|k: int|
                    0 <= k < i ==> opt_target_view(#[trigger] out@[k])
                        == self@.elements[k].link_target,
            decreases n - i,
        {
            let t = match &self.elements[i].link_target {
                Some(t) => Some(t.clone()),
                None => None,
            };
            assert(self@.elements[i as int] == self.elements@[i as int]@);
            out.push(t);
            i = i + 1;
        }
        assert(out@.map_values(|t: Option<LinkTarget>| opt_target_view(t)) =~= self@.elements.map_values(
            |e: FocusView| e.link_target,
        ));
        out
    }
}

/// The index of the first element of `elements` with identifier `id`.
fn position_of(elements: &Vec<FocusableElement>, id: &FocusableId) -> (r: Option<usize>)
    ensures
        r == first_index_of(elements@.map_values(|e: FocusableElement| e@), id@),
        r matches Some(i) ==> i < elements.len(),
{
    let ghost es = elements@.map_values(|e: FocusableElement| e@);
    let n = elements.len();
    let mut i: usize = 0;
    while i < n
        invariant
            i <= n,
            n == elements@.len(),
            es == elements@.map_values(|e: FocusableElement| e@),
            forall|j: int| 0 <= j < i ==> (#[trigger] es[j]).id != id@,
        decreases n - i,
    {
        if elements[i].id == *id {
            proof {
                assert(0 <= i < es.len() && es[i as int].id == id@ && forall|j: int|
                    0 <= j < i ==> es[j].id != id@);
                let w = choose|k: int|
                    0 <= k < es.len() && es[k].id == id@ && forall|j: int|
                        0 <= j < k ==> es[j].id != id@;
                if w < i {
                    assert(es[w].id != id@);
                } else if w > i {
                    assert(es[i as int].id != id@);
                }
            }
            return Some(i);
        }
        i = i + 1;
    }
    None
}

impl Default for FocusManager {
    fn default() -> (fm: Self)
        ensures
            fm@.elements == Seq::<FocusView>::empty(),
            fm@.current is None,
    {
        FocusManager::new()
    }
}

// ---------------------------------------------------------------------------
// Laws of focus cycling
// ---------------------------------------------------------------------------

/// Tab always lands on an element when there is one, and never when there
/// is none; the same holds of Shift-Tab.
pub proof fn lemma_focus_lands_in_range(current: Option<usize>, len: usize)
    ensures
        len > 0 ==> (next_focus(current, len) matches Some(i) && i < len),
        len > 0 ==> (prev_focus(current, len) matches Some(i) && i < len),
        len == 0 ==> next_focus(current, len) is None && prev_focus(current, len) is None,
{
    if len > 0 {
        if let Some(i) = current {
            assert(((i as int + 1) % (len as int)) < len);
        }
    }
}

/// Shift-Tab undoes Tab and Tab undoes Shift-Tab, on any focused element.
pub proof fn lemma_next_prev_inverse(i: usize, len: usize)
    requires
        i < len,
    ensures
        prev_focus(next_focus(Some(i), len), len) == Some(i),
        next_focus(prev_focus(Some(i), len), len) == Some(i),
{
    if i + 1 < len {
        assert((i as int + 1) % (len as int) == i + 1) by {
            vstd::arithmetic::div_mod::lemma_small_mod((i + 1) as nat, len as nat);
        }
    } else {
        assert((i as int + 1) % (len as int) == 0) by {
            vstd::arithmetic::div_mod::lemma_mod_self_0(len as int);
        }
    }
    if i > 0 {
        assert(((i - 1) as int + 1) % (len as int) == i) by {
            vstd::arithmetic::div_mod::lemma_small_mod(i as nat, len as nat);
        }
    } else {
        assert(((len - 1) as int + 1) % (len as int) == 0) by {
            vstd::arithmetic::div_mod::lemma_mod_self_0(len as int);
        }
    }
}

/// Tab from the last element wraps to the first, and is reported as a
/// forward wrap; Tab from any other element is not.  Symmetrically for
/// Shift-Tab from the first element.
pub proof fn lemma_wrap_detection(i: usize, len: usize)
    requires
        i < len,
    ensures
        wrapped_forward(Some(i), next_focus(Some(i), len), len) <==> (i == len - 1),
        wrapped_backward(Some(i), prev_focus(Some(i), len), len) <==> (i == 0),
{
    lemma_next_prev_inverse(i, len);
    if i + 1 < len {
        assert((i as int + 1) % (len as int) == i + 1) by {
            vstd::arithmetic::div_mod::lemma_small_mod((i + 1) as nat, len as nat);
        }
    } else {
        assert((i as int + 1) % (len as int) == 0) by {
            vstd::arithmetic::div_mod::lemma_mod_self_0(len as int);
        }
    }
}

/// The focus found by identifier carries that identifier, and no earlier
/// element does; when none is found, no element carries it.
pub proof fn lemma_first_index_of(elements: Seq<FocusView>, id: FocusKey)
    requires
        elements.len() <= usize::MAX,
    ensures
        first_index_of(elements, id) matches Some(i) ==> (i < elements.len() && elements[i as int].id
            == id && forall|j: int| 0 <= j < i ==> (#[trigger] elements[j]).id != id),
        first_index_of(elements, id) is None ==> forall|j: int|
            0 <= j < elements.len() ==> (#[trigger] elements[j]).id != id,
{
    if exists|i: int| 0 <= i < elements.len() && elements[i].id == id {
        let w = choose|i: int| 0 <= i < elements.len() && elements[i].id == id;
        lemma_least_witness(elements, id, w);
    }
}

proof fn lemma_least_witness(elements: Seq<FocusView>, id: FocusKey, w: int)
    requires
        0 <= w < elements.len(),
        elements[w].id == id,
    ensures
        exists|i: int|
            0 <= i < elements.len() && elements[i].id == id && forall|j: int|
                0 <= j < i ==> (#[trigger] elements[j]).id != id,
    decreases w,
{
    if exists|j: int| 0 <= j < w && elements[j].id == id {
        let j = choose|j: int| 0 <= j < w && elements[j].id == id;
        lemma_least_witness(elements, id, j);
    } else {
        assert(forall|j: int| 0 <= j < w ==> (#[trigger] elements[j]).id != id);
    }
}

} // verus!
