//! Documents: content of any height shown through a viewport, with Tab /
//! Shift-Tab cycling through the focusable elements and the viewport
//! following the focused element.

use vstd::prelude::*;

use crate::elements::{
    DocumentElement,
    group_collected,
    group_ok,
    keys,
    layout_fits,
    layout_height,
    lemma_group_ok_heights,
    seq_height,
    seq_ok,
    views,
};
use crate::focus::{
    FocusKey,
    FocusManager,
    FocusState,
    FocusView,
    FocusableElement,
    FocusableId,
    Rect,
    RowPosition,
    first_index_of,
    focused_element,
    next_focus,
    prev_focus,
    wrapped_backward,
    wrapped_forward,
};
use crate::link::{LinkTarget, TargetView, opt_target_view};
use crate::text::str_eq;
use crate::viewport::{
    MAX_PADDING_DIVISOR,
    Viewport,
    ViewportState,
    lemma_ensure_visible_with_padding_shows_element,
    min16,
    sat_sub,
};

verus! {

// ---------------------------------------------------------------------------
// Focus context
// ---------------------------------------------------------------------------

/// Focus context passed when building a document: which element, if any,
/// is focused.
#[derive(Debug)]
pub struct FocusContext {
    /// The currently focused element (if any).
    pub focused_id: Option<FocusableId>,
}

/// The value of an optional identifier.
pub open spec fn opt_key(id: Option<FocusableId>) -> Option<FocusKey> {
    match id {
        Some(i) => Some(i@),
        None => None,
    }
}

/// The focused row of the named table, when focus is on one of its cells.
pub open spec fn focused_row_of(f: FocusContext, table_name: Seq<char>) -> Option<usize> {
    match opt_key(f.focused_id) {
        Some(FocusKey::TableCell { table_name: name, row, .. }) => if name == table_name {
            Some(row)
        } else {
            None
        },
        _ => None,
    }
}

impl Clone for FocusContext {
    fn clone(&self) -> (res: Self)
        ensures
            res == *self,
    {
        FocusContext {
            focused_id: match &self.focused_id {
                Some(id) => Some(id.clone()),
                None => None,
            },
        }
    }
}

impl Default for FocusContext {
    fn default() -> (r: Self)
        ensures
            r.focused_id is None,
    {
        FocusContext { focused_id: None }
    }
}

impl PartialEq for FocusContext {
    fn eq(&self, other: &Self) -> (r: bool) {
        match (&self.focused_id, &other.focused_id) {
            (Some(a), Some(b)) => *a == *b,
            (None, None) => true,
            _ => false,
        }
    }
}

impl vstd::std_specs::cmp::PartialEqSpecImpl for FocusContext {
    open spec fn obeys_eq_spec() -> bool {
        true
    }

    open spec fn eq_spec(&self, other: &FocusContext) -> bool {
        opt_key(self.focused_id) == opt_key(other.focused_id)
    }
}

impl Eq for FocusContext {

}

impl FocusContext {
    /// A context focusing the given element.
    pub fn from_id(id: &FocusableId) -> (r: Self)
        ensures
            r.focused_id == Some(*id),
    {
        FocusContext { focused_id: Some(id.clone()) }
    }

    /// A context focusing the link with the given ID.
    pub fn with_link(id: &str) -> (r: Self)
        ensures
            opt_key(r.focused_id) == Some(FocusKey::Link(id@)),
    {
        FocusContext { focused_id: Some(FocusableId::link(id)) }
    }

    /// A context focusing a table cell.
    pub fn with_table_cell(table_name: &str, row: usize, col: usize) -> (r: Self)
        ensures
            opt_key(r.focused_id) == Some(FocusKey::TableCell { table_name: table_name@, row, col }),
    {
        FocusContext { focused_id: Some(FocusableId::table_cell(table_name, row, col)) }
    }

    /// The focused row of the named table, when focus is on one of its cells.
    pub fn focused_table_row(&self, table_name: &str) -> (r: Option<usize>)
        ensures
            r == focused_row_of(*self, table_name@),
    {
        match &self.focused_id {
            Some(FocusableId::TableCell { table_name: name, row, .. }) => {
                if str_eq(name.as_str(), table_name) {
                    Some(*row)
                } else {
                    None
                }
            },
            _ => None,
        }
    }

    /// Whether the given element is the focused one.
    pub fn is_focused(&self, id: &FocusableId) -> (b: bool)
        ensures
            b == (opt_key(self.focused_id) == Some(id@)),
    {
        match &self.focused_id {
            Some(f) => *f == *id,
            None => false,
        }
    }

    /// Whether the link with the given ID is the focused element.
    pub fn is_link_focused(&self, id: &str) -> (b: bool)
        ensures
            b == (opt_key(self.focused_id) == Some(FocusKey::Link(id@))),
    {
        match &self.focused_id {
            Some(FocusableId::Link(link_id)) => str_eq(link_id.as_str(), id),
            _ => false,
        }
    }
}

// ---------------------------------------------------------------------------
// Documents
// ---------------------------------------------------------------------------

/// The focus context with nothing focused, under which a document's
/// layout metrics are taken.
pub open spec fn unfocused() -> FocusContext {
    FocusContext { focused_id: None }
}

/// The line positions of the focusable elements of a layout stacked from
/// the top.
pub open spec fn layout_positions(els: Seq<DocumentElement>) -> Seq<u16> {
    group_collected(els, 0).map_values(|f: FocusView| f.y)
}

/// The heights of the focusable elements of a layout.
pub open spec fn layout_heights(els: Seq<DocumentElement>) -> Seq<u16> {
    group_collected(els, 0).map_values(|f: FocusView| f.height)
}

/// The row positions of the focusable elements of a layout.
pub open spec fn layout_row_positions(els: Seq<DocumentElement>) -> Seq<Option<RowPosition>> {
    group_collected(els, 0).map_values(|f: FocusView| f.row_position)
}

/// The identifiers of the focusable elements of a layout.
pub open spec fn layout_ids(els: Seq<DocumentElement>) -> Seq<FocusKey> {
    group_collected(els, 0).map_values(|f: FocusView| f.id)
}

/// The link targets of the focusable elements of a layout.
pub open spec fn layout_targets(els: Seq<DocumentElement>) -> Seq<Option<TargetView>> {
    group_collected(els, 0).map_values(|f: FocusView| f.link_target)
}

/// The total height of a layout stacked from the top, when it can be
/// computed in 16 bits.
pub open spec fn layout_total(els: Seq<DocumentElement>) -> Option<u16> {
    if seq_ok(els) && seq_height(els) <= u16::MAX {
        Some(seq_height(els) as u16)
    } else {
        None
    }
}

/// Whether a document view can be laid out from these elements: their
/// focusable elements can be collected with 16-bit line positions, and
/// each of their areas ends by line `u16::MAX`.
pub open spec fn view_fits(els: Seq<DocumentElement>) -> bool {
    group_ok(els, 0, true) && rects_fit(group_collected(els, 0))
}

/// A document: content of any height, scrolled through a viewport.
///
/// The metrics below are taken from the layout the document builds with
/// nothing focused; each is None when that layout does not fit in 16-bit
/// line positions.
pub trait Document {
    /// Whether `r` is a layout this document builds under `focus`.  A
    /// document that does not describe its layout may build any.
    open spec fn built(&self, focus: FocusContext, r: Seq<DocumentElement>) -> bool {
        true
    }

    /// Build the document's element tree.
    fn build(&self, focus: &FocusContext) -> (r: Vec<DocumentElement>)
        ensures
            self.built(*focus, r@),
    ;

    /// The document's title for navigation and history.
    fn title(&self) -> String;

    /// The document's unique ID.
    fn id(&self) -> String;

    /// The total height needed to render all elements.
    fn calculate_height(&self) -> (r: Option<u16>)
        ensures
            exists|els: Seq<DocumentElement>|
                #[trigger] self.built(unfocused(), els) && r == layout_total(els),
    {
        let elements = self.build(&FocusContext::default());
        layout_height(&elements)
    }

    /// The line positions of all focusable elements, in tab order.
    fn focusable_positions(&self) -> (r: Option<Vec<u16>>)
        ensures
            exists|els: Seq<DocumentElement>|
                #[trigger] self.built(unfocused(), els) && match r {
                    Some(v) => group_ok(els, 0, true) && v@ == layout_positions(els),
                    None => !group_ok(els, 0, true),
                },
    {
        let elements = self.build(&FocusContext::default());
        if layout_fits(&elements) {
            Some(FocusManager::from_elements(&elements).y_positions())
        } else {
            None
        }
    }

    /// The heights of all focusable elements, in tab order.
    fn focusable_heights(&self) -> (r: Option<Vec<u16>>)
        ensures
            exists|els: Seq<DocumentElement>|
                #[trigger] self.built(unfocused(), els) && match r {
                    Some(v) => group_ok(els, 0, true) && v@ == layout_heights(els),
                    None => !group_ok(els, 0, true),
                },
    {
        let elements = self.build(&FocusContext::default());
        if layout_fits(&elements) {
            Some(FocusManager::from_elements(&elements).heights())
        } else {
            None
        }
    }

    /// The row positions of all focusable elements (None outside rows).
    fn focusable_row_positions(&self) -> (r: Option<Vec<Option<RowPosition>>>)
        ensures
            exists|els: Seq<DocumentElement>|
                #[trigger] self.built(unfocused(), els) && match r {
                    Some(v) => group_ok(els, 0, true) && v@ == layout_row_positions(els),
                    None => !group_ok(els, 0, true),
                },
    {
        let elements = self.build(&FocusContext::default());
        if layout_fits(&elements) {
            Some(FocusManager::from_elements(&elements).row_positions())
        } else {
            None
        }
    }

    /// The IDs of all focusable elements, top to bottom and left to right
    /// within rows.
    fn focusable_ids(&self) -> (r: Option<Vec<FocusableId>>)
        ensures
            exists|els: Seq<DocumentElement>|
                #[trigger] self.built(unfocused(), els) && match r {
                    Some(v) => group_ok(els, 0, true) && keys(v@) == layout_ids(els),
                    None => !group_ok(els, 0, true),
                },
    {
        let elements = self.build(&FocusContext::default());
        if layout_fits(&elements) {
            Some(FocusManager::from_elements(&elements).ids())
        } else {
            None
        }
    }

    /// The link targets of all focusable elements (None for elements
    /// without a link).
    fn focusable_link_targets(&self) -> (r: Option<Vec<Option<LinkTarget>>>)
        ensures
            exists|els: Seq<DocumentElement>|
                #[trigger] self.built(unfocused(), els) && match r {
                    Some(v) => group_ok(els, 0, true) && v@.map_values(
                        |t: Option<LinkTarget>| opt_target_view(t),
                    ) == layout_targets(els),
                    None => !group_ok(els, 0, true),
                },
    {
        let elements = self.build(&FocusContext::default());
        if layout_fits(&elements) {
            Some(FocusManager::from_elements(&elements).link_targets())
        } else {
            None
        }
    }
}

// ---------------------------------------------------------------------------
// Document view
// ---------------------------------------------------------------------------

/// Lines kept from the previous page when paging up or down.
pub const PAGE_OVERLAP_LINES: u16 = 2;

/// The value of a document view: its viewport, its focus, and the element
/// tree it was laid out from.
pub struct DocView {
    pub viewport: ViewportState,
    pub focus: FocusState,
    pub layout: Seq<DocumentElement>,
}

/// Every focusable element's area ends by line `u16::MAX`.
pub open spec fn rects_fit(fs: Seq<FocusView>) -> bool {
    forall|i: int| 0 <= i < fs.len() ==> (#[trigger] fs[i]).rect.y + fs[i].rect.height <= u16::MAX
}

/// A well-formed document view: the viewport's offset is valid, the content
/// is as tall as the layout, the focusable elements are those of the layout,
/// and the focus, if any, is on one of them.
pub open spec fn wf(v: DocView) -> bool {
    &&& v.viewport.clamped()
    &&& group_ok(v.layout, 0, true)
    &&& v.viewport.content_height == seq_height(v.layout)
    &&& v.focus.elements == group_collected(v.layout, 0)
    &&& rects_fit(v.focus.elements)
    &&& v.focus.current matches Some(i) ==> i < v.focus.elements.len()
}

/// The area of the focused element.
pub open spec fn focus_rect(f: FocusState) -> Option<Rect> {
    match focused_element(f) {
        Some(e) => Some(e.rect),
        None => None,
    }
}

/// The viewport after scrolling the focused element into view with the
/// viewport's padding.
pub open spec fn autoscrolled(vp: ViewportState, f: FocusState) -> ViewportState {
    match focus_rect(f) {
        Some(r) => vp.ensured_padded(r.y, r.height, vp.padding()),
        None => vp,
    }
}

/// The view after Tab: focus moves to the next element; a wrap from the
/// last element to the first scrolls to the top, any other move scrolls
/// the newly focused element into view.
pub open spec fn after_focus_next(v: DocView) -> DocView {
    let n = v.focus.elements.len() as usize;
    let f = FocusState { current: next_focus(v.focus.current, n), ..v.focus };
    if n == 0 {
        v
    } else if wrapped_forward(v.focus.current, f.current, n) {
        DocView { viewport: v.viewport.with_offset(0), focus: f, ..v }
    } else {
        DocView { viewport: autoscrolled(v.viewport, f), focus: f, ..v }
    }
}

/// The view after Shift-Tab: focus moves to the previous element; a wrap
/// from the first element to the last scrolls so that the last element's
/// bottom is the viewport's last line, any other move scrolls the newly
/// focused element into view.
pub open spec fn after_focus_prev(v: DocView) -> DocView {
    let n = v.focus.elements.len() as usize;
    let f = FocusState { current: prev_focus(v.focus.current, n), ..v.focus };
    if n == 0 {
        v
    } else if wrapped_backward(v.focus.current, f.current, n) {
        let vp = match focus_rect(f) {
            Some(r) => v.viewport.offset_set(sat_sub((r.y + r.height) as u16, v.viewport.height)),
            None => v.viewport,
        };
        DocView { viewport: vp, focus: f, ..v }
    } else {
        DocView { viewport: autoscrolled(v.viewport, f), focus: f, ..v }
    }
}

/// Whether every focusable element's area ends by line `u16::MAX`.
fn check_rects_fit(elements: &[FocusableElement]) -> (b: bool)
    ensures
        b == rects_fit(views(elements@)),
{
    let n = elements.len();
    let mut i: usize = 0;
    while i < n
        invariant
            i <= n,
            n == elements@.len(),
            forall|k: int|
                0 <= k < i ==> (#[trigger] views(elements@)[k]).rect.y + views(elements@)[k].rect.height
                    <= u16::MAX,
        decreases n - i,
    {
        assert(views(elements@)[i as int] == elements@[i as int]@);
        if elements[i].rect.y as u32 + elements[i].rect.height as u32 > 0xffff {
            return false;
        }
        i = i + 1;
    }
    true
}

/// Holds a document and manages its viewport, scrolling and focus.
pub struct DocumentView<D: Document> {
    document: D,
    viewport: Viewport,
    focus_manager: FocusManager,
    layout: Ghost<Seq<DocumentElement>>,
}

impl<D: Document> View for DocumentView<D> {
    type V = DocView;

    closed spec fn view(&self) -> DocView {
        DocView { viewport: self.viewport@, focus: self.focus_manager@, layout: self.layout@ }
    }
}

impl<D: Document> DocumentView<D> {
    /// A view of a document, laid out from the elements it builds with
    /// nothing focused, scrolled to the top with nothing focused; None when
    /// that layout does not fit in 16-bit line positions.
    pub fn new(document: D, viewport_height: u16) -> (r: Option<Self>)
        ensures
            match r {
                Some(v) => wf(v@) && v@.viewport.offset == 0 && v@.viewport.height
                    == viewport_height && v@.focus.current is None && v.shown() == document
                    && document.built(unfocused(), v@.layout),
                None => exists|els: Seq<DocumentElement>|
                    #[trigger] document.built(unfocused(), els) && !view_fits(els),
            },
    {
        let ctx = FocusContext::default();
        assert(ctx == unfocused());
        let elements = document.build(&ctx);
        if !layout_fits(&elements) {
            return None;
        }
        proof {
            lemma_group_ok_heights(elements@, 0, true);
        }
        let height = match layout_height(&elements) {
            Some(h) => h,
            None => {
                return None;
            },
        };
        let focus_manager = FocusManager::from_elements(&elements);
        if !check_rects_fit(focus_manager.elements()) {
            return None;
        }
        let viewport = Viewport::new(0, viewport_height, height);
        Some(DocumentView { document, viewport, focus_manager, layout: Ghost(elements@) })
    }

    /// Change the viewport's height (on terminal resize).
    pub fn set_viewport_height(&mut self, height: u16)
        requires
            wf(old(self)@),
        ensures
            wf(final(self)@),
            final(self)@ == (DocView {
                viewport: ViewportState {
                    offset: min16(
                        old(self)@.viewport.offset,
                        sat_sub(old(self)@.viewport.content_height, height),
                    ),
                    height,
                    ..old(self)@.viewport
                },
                ..old(self)@
            }),
    {
        self.viewport.set_height(height);
    }

    /// The viewport's offset.
    pub fn viewport_offset(&self) -> (r: u16)
        ensures
            r == self@.viewport.offset,
    {
        self.viewport.offset()
    }

    /// The viewport.
    pub fn viewport(&self) -> (r: &Viewport)
        ensures
            r@ == self@.viewport,
    {
        &self.viewport
    }

    /// The focus manager.
    pub fn focus_manager(&self) -> (r: &FocusManager)
        ensures
            r@ == self@.focus,
    {
        &self.focus_manager
    }

    /// The document shown.
    pub closed spec fn shown(&self) -> D {
        self.document
    }

    /// The document shown.
    pub fn document(&self) -> (r: &D)
        ensures
            *r == self.shown(),
    {
        &self.document
    }

    /// Scroll up by a number of lines.
    pub fn scroll_up(&mut self, lines: u16)
        requires
            wf(old(self)@),
        ensures
            wf(final(self)@),
            final(self)@ == (DocView { viewport: old(self)@.viewport.scrolled_up(lines), ..old(self)@ }),
    {
        self.viewport.scroll_up(lines);
    }

    /// Scroll down by a number of lines, stopping at the bottom.
    pub fn scroll_down(&mut self, lines: u16)
        requires
            wf(old(self)@),
            old(self)@.viewport.offset + lines <= u16::MAX,
        ensures
            wf(final(self)@),
            final(self)@ == (DocView {
                viewport: old(self)@.viewport.scrolled_down(lines),
                ..old(self)@
            }),
    {
        self.viewport.scroll_down(lines);
    }

    /// Scroll to the top of the document.
    pub fn scroll_to_top(&mut self)
        requires
            wf(old(self)@),
        ensures
            wf(final(self)@),
            final(self)@ == (DocView { viewport: old(self)@.viewport.with_offset(0), ..old(self)@ }),
    {
        self.viewport.scroll_to_top();
    }

    /// Scroll to the bottom of the document.
    pub fn scroll_to_bottom(&mut self)
        requires
            wf(old(self)@),
        ensures
            wf(final(self)@),
            final(self)@ == (DocView {
                viewport: old(self)@.viewport.with_offset(old(self)@.viewport.max_offset()),
                ..old(self)@
            }),
    {
        self.viewport.scroll_to_bottom();
    }

    /// Page up: scroll up by the viewport's height less the overlap.
    pub fn page_up(&mut self)
        requires
            wf(old(self)@),
        ensures
            wf(final(self)@),
            final(self)@ == (DocView {
                viewport: old(self)@.viewport.scrolled_up(
                    sat_sub(old(self)@.viewport.height, PAGE_OVERLAP_LINES),
                ),
                ..old(self)@
            }),
    {
        let page_size = self.viewport.height().saturating_sub(PAGE_OVERLAP_LINES);
        self.viewport.scroll_up(page_size);
    }

    /// Page down: scroll down by the viewport's height less the overlap.
    pub fn page_down(&mut self)
        requires
            wf(old(self)@),
        ensures
            wf(final(self)@),
            final(self)@ == (DocView {
                viewport: old(self)@.viewport.scrolled_down(
                    sat_sub(old(self)@.viewport.height, PAGE_OVERLAP_LINES),
                ),
                ..old(self)@
            }),
    {
        let page_size = self.viewport.height().saturating_sub(PAGE_OVERLAP_LINES);
        self.viewport.scroll_down(page_size);
    }

    /// Scroll the focused element into view with the viewport's padding.
    fn autoscroll_to_focused(&mut self)
        requires
            wf(old(self)@),
        ensures
            wf(final(self)@),
            final(self)@ == (DocView {
                viewport: autoscrolled(old(self)@.viewport, old(self)@.focus),
                ..old(self)@
            }),
    {
        if let Some(rect) = self.focus_manager.get_focused_rect() {
            let padding = self.viewport.smart_padding();
            self.viewport.ensure_visible_with_padding(rect.y, rect.height, padding);
        }
    }

    /// Tab: focus the next element and scroll to it; a wrap from the last
    /// element to the first scrolls to the top.  Returns whether an element
    /// is focused (false only for a document without focusable elements).
    pub fn focus_next(&mut self) -> (changed: bool)
        requires
            wf(old(self)@),
        ensures
            wf(final(self)@),
            final(self)@ == after_focus_next(old(self)@),
            changed == (old(self)@.focus.elements.len() > 0),
    {
        let n = self.focus_manager.len();
        let prev_focus = self.focus_manager.current_index();
        proof {
            crate::focus::lemma_focus_lands_in_range(prev_focus, n);
        }
        if self.focus_manager.focus_next() {
            let wrapped = self.focus_manager.did_wrap_forward(prev_focus);
            if wrapped {
                self.viewport.scroll_to_top();
            } else {
                self.autoscroll_to_focused();
            }
            true
        } else {
            false
        }
    }

    /// Shift-Tab: focus the previous element and scroll to it; a wrap from
    /// the first element to the last scrolls so that the last element ends
    /// at the bottom of the viewport.  Returns whether an element is focused.
    pub fn focus_prev(&mut self) -> (changed: bool)
        requires
            wf(old(self)@),
        ensures
            wf(final(self)@),
            final(self)@ == after_focus_prev(old(self)@),
            changed == (old(self)@.focus.elements.len() > 0),
    {
        let n = self.focus_manager.len();
        let prev_focus = self.focus_manager.current_index();
        proof {
            crate::focus::lemma_focus_lands_in_range(prev_focus, n);
        }
        if self.focus_manager.focus_prev() {
            let wrapped = self.focus_manager.did_wrap_backward(prev_focus);
            if wrapped {
                if let Some(rect) = self.focus_manager.get_focused_rect() {
                    let element_bottom = rect.y + rect.height;
                    let desired_offset = element_bottom.saturating_sub(self.viewport.height());
                    self.viewport.set_offset(desired_offset);
                }
            } else {
                self.autoscroll_to_focused();
            }
            true
        } else {
            false
        }
    }

    /// Focus the first element with the given ID and scroll to it; returns
    /// whether there is one.  When there is none, the focus is cleared and
    /// the viewport stays.
    pub fn focus_element_by_id(&mut self, id: &FocusableId) -> (found: bool)
        requires
            wf(old(self)@),
        ensures
            wf(final(self)@),
            final(self)@.focus == (FocusState {
                current: first_index_of(old(self)@.focus.elements, id@),
                ..old(self)@.focus
            }),
            final(self)@.layout == old(self)@.layout,
            final(self)@.viewport == (if found {
                autoscrolled(old(self)@.viewport, final(self)@.focus)
            } else {
                old(self)@.viewport
            }),
            found == first_index_of(old(self)@.focus.elements, id@) is Some,
    {
        let n = self.focus_manager.len();
        proof {
            crate::focus::lemma_first_index_of(self@.focus.elements, id@);
        }
        if self.focus_manager.focus_by_id(id) {
            self.autoscroll_to_focused();
            true
        } else {
            false
        }
    }

    /// Clear the focus.
    pub fn clear_focus(&mut self)
        requires
            wf(old(self)@),
        ensures
            wf(final(self)@),
            final(self)@ == (DocView {
                focus: FocusState { current: None, ..old(self)@.focus },
                ..old(self)@
            }),
    {
        self.focus_manager.clear_focus();
    }

    /// Focus the element at `index`, when there is one; the viewport stays.
    pub fn focus_by_index(&mut self, index: usize)
        requires
            wf(old(self)@),
        ensures
            wf(final(self)@),
            final(self)@ == (if index < old(self)@.focus.elements.len() {
                DocView {
                    focus: FocusState { current: Some(index), ..old(self)@.focus },
                    ..old(self)@
                }
            } else {
                old(self)@
            }),
    {
        self.focus_manager.focus_by_index(index);
    }

    /// Set the scroll offset, kept within the content.
    pub fn set_scroll_offset(&mut self, offset: u16)
        requires
            wf(old(self)@),
        ensures
            wf(final(self)@),
            final(self)@ == (DocView { viewport: old(self)@.viewport.offset_set(offset), ..old(self)@ }),
    {
        self.viewport.set_offset(offset);
    }

    /// Activate the focused element (Enter): its link target, if any.
    pub fn activate_focused(&self) -> (r: Option<LinkTarget>)
        ensures
            opt_target_view(r) == (match focused_element(self@.focus) {
                Some(e) => e.link_target,
                None => None,
            }),
    {
        self.focus_manager.activate_current()
    }

    /// The focused element's link target, if any.
    pub fn get_focused_link(&self) -> (r: Option<&LinkTarget>)
        ensures
            match r {
                Some(t) => focused_element(self@.focus) matches Some(e) && e.link_target == Some(
                    t@,
                ),
                None => !(focused_element(self@.focus) matches Some(e) && e.link_target is Some),
            },
    {
        self.focus_manager.get_current_link()
    }

    /// Build the document again and lay the view out anew, with nothing
    /// focused.  Returns false, leaving the view as it was, when the new
    /// layout does not fit in 16-bit line positions.
    pub fn rebuild(&mut self) -> (ok: bool)
        requires
            wf(old(self)@),
        ensures
            wf(final(self)@),
            final(self).shown() == old(self).shown(),
            !ok ==> final(self)@ == old(self)@ && exists|els: Seq<DocumentElement>|
                #[trigger] old(self).shown().built(unfocused(), els) && !view_fits(els),
            ok ==> final(self)@.focus.current is None && final(self)@.viewport.height == old(
                self,
            )@.viewport.height && final(self)@.viewport.offset == min16(
                old(self)@.viewport.offset,
                sat_sub(final(self)@.viewport.content_height, old(self)@.viewport.height),
            ) && old(self).shown().built(unfocused(), final(self)@.layout),
    {
        let ctx = FocusContext::default();
        assert(ctx == unfocused());
        let elements = self.document.build(&ctx);
        assert(old(self).shown().built(unfocused(), elements@));
        if !layout_fits(&elements) {
            return false;
        }
        proof {
            lemma_group_ok_heights(elements@, 0, true);
        }
        let height = match layout_height(&elements) {
            Some(h) => h,
            None => {
                return false;
            },
        };
        let focus_manager = FocusManager::from_elements(&elements);
        if !check_rects_fit(focus_manager.elements()) {
            return false;
        }
        self.focus_manager = focus_manager;
        self.viewport.set_content_height(height);
        self.layout = Ghost(elements@);
        true
    }
}


// ---------------------------------------------------------------------------
// Autoscrolling
// ---------------------------------------------------------------------------

/// Whether an area lies inside the content and fits in the viewport
/// together with the viewport's padding.
pub open spec fn fits_in_view(vp: ViewportState, r: Rect) -> bool {
    &&& r.y + r.height <= vp.content_height
    &&& r.height + min16(vp.padding(), vp.height / MAX_PADDING_DIVISOR) <= vp.height
}

/// Whether an area is entirely visible in the viewport.
pub open spec fn shown(vp: ViewportState, r: Rect) -> bool {
    vp.offset <= r.y && r.y + r.height <= vp.offset + vp.height
}

/// Scrolling the focused element into view shows it, when it lies inside
/// the content and fits in the viewport together with the padding.
pub proof fn lemma_autoscroll_shows_focused(vp: ViewportState, f: FocusState)
    requires
        vp.clamped(),
        focus_rect(f) matches Some(r) && fits_in_view(vp, r),
    ensures
        focus_rect(f) matches Some(r) && shown(autoscrolled(vp, f), r),
{
    let r = focus_rect(f)->0;
    lemma_ensure_visible_with_padding_shows_element(vp, r.y, r.height, vp.padding());
}

/// Tab: after a wrap from the last element to the first the view is at the
/// top; after any other move the newly focused element is shown, when it
/// lies inside the content and fits in the viewport with the padding.
pub proof fn lemma_tab_follows_focus(v: DocView)
    requires
        wf(v),
        0 < v.focus.elements.len() <= usize::MAX,
    ensures
        ({
            let w = after_focus_next(v);
            let n = v.focus.elements.len() as usize;
            &&& wrapped_forward(v.focus.current, w.focus.current, n) ==> w.viewport.offset == 0
            &&& !wrapped_forward(v.focus.current, w.focus.current, n) && (focus_rect(w.focus) matches Some(
                r,
            ) && fits_in_view(v.viewport, r)) ==> (focus_rect(w.focus) matches Some(r) && shown(
                w.viewport,
                r,
            ))
        }),
{
    let w = after_focus_next(v);
    let n = v.focus.elements.len() as usize;
    if !wrapped_forward(v.focus.current, w.focus.current, n) && (focus_rect(w.focus) matches Some(
        r,
    ) && fits_in_view(v.viewport, r)) {
        lemma_autoscroll_shows_focused(v.viewport, w.focus);
    }
}

/// Shift-Tab: after a wrap from the first element to the last, the last
/// element is shown when it lies inside the content and is no taller than
/// the viewport; after any other move the newly focused element is shown,
/// when it lies inside the content and fits in the viewport with the
/// padding.
pub proof fn lemma_shift_tab_follows_focus(v: DocView)
    requires
        wf(v),
        0 < v.focus.elements.len() <= usize::MAX,
    ensures
        ({
            let w = after_focus_prev(v);
            let n = v.focus.elements.len() as usize;
            &&& wrapped_backward(v.focus.current, w.focus.current, n) && (focus_rect(w.focus) matches Some(
                r,
            ) && r.y + r.height <= v.viewport.content_height && r.height <= v.viewport.height)
                ==> (focus_rect(w.focus) matches Some(r) && shown(w.viewport, r))
            &&& !wrapped_backward(v.focus.current, w.focus.current, n) && (focus_rect(w.focus) matches Some(
                r,
            ) && fits_in_view(v.viewport, r)) ==> (focus_rect(w.focus) matches Some(r) && shown(
                w.viewport,
                r,
            ))
        }),
{
    let w = after_focus_prev(v);
    let n = v.focus.elements.len() as usize;
    if !wrapped_backward(v.focus.current, w.focus.current, n) && (focus_rect(w.focus) matches Some(
        r,
    ) && fits_in_view(v.viewport, r)) {
        lemma_autoscroll_shows_focused(v.viewport, w.focus);
    }
}

/// Focusing an element by its ID shows it, when one is found that lies
/// inside the content and fits in the viewport with the padding.
pub proof fn lemma_focus_by_id_shows_element(v: DocView, id: FocusKey)
    requires
        wf(v),
        ({
            let f = FocusState { current: first_index_of(v.focus.elements, id), ..v.focus };
            focus_rect(f) matches Some(r) && fits_in_view(v.viewport, r)
        }),
    ensures
        ({
            let f = FocusState { current: first_index_of(v.focus.elements, id), ..v.focus };
            focus_rect(f) matches Some(r) && shown(autoscrolled(v.viewport, f), r)
        }),
{
    let f = FocusState { current: first_index_of(v.focus.elements, id), ..v.focus };
    lemma_autoscroll_shows_focused(v.viewport, f);
}

} // verus!
