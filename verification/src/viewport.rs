//! Viewport management for document scrolling.
//!
//! A viewport shows the lines `offset .. offset + height` of a document whose
//! total height is `content_height`.

use vstd::prelude::*;

verus! {

/// Maximum padding as a divisor of the viewport height (25% = 4).
pub const MAX_PADDING_DIVISOR: u16 = 4;

/// Viewport height thresholds for smart padding.
pub const SMALL_VIEWPORT_THRESHOLD: u16 = 10;
pub const MEDIUM_VIEWPORT_THRESHOLD: u16 = 20;
pub const LARGE_VIEWPORT_THRESHOLD: u16 = 40;

/// Padding used for each viewport size class.
pub const SMALL_VIEWPORT_PADDING: u16 = 1;
pub const MEDIUM_VIEWPORT_PADDING: u16 = 2;
pub const LARGE_VIEWPORT_PADDING: u16 = 3;
pub const VERY_LARGE_VIEWPORT_PADDING: u16 = 5;

/// The plain values a viewport is made of.
#[derive(Clone, Copy, Debug, PartialEq, Eq, Structural)]
pub struct ViewportState {
    /// Current scroll offset from the top.
    pub offset: u16,
    /// Height of the visible area.
    pub height: u16,
    /// Total height of the content.
    pub content_height: u16,
}

/// `a - b`, or 0 where `b > a`.
pub open spec fn sat_sub(a: u16, b: u16) -> u16 {
    if a >= b { (a - b) as u16 } else { 0 }
}

/// `a + b`, or `u16::MAX` where the sum does not fit.
pub open spec fn sat_add(a: u16, b: u16) -> u16 {
    if a + b <= u16::MAX { (a + b) as u16 } else { u16::MAX }
}

pub open spec fn min16(a: u16, b: u16) -> u16 {
    if a <= b { a } else { b }
}

impl ViewportState {
    /// The largest offset at which the last content line is still at the bottom.
    pub open spec fn max_offset(self) -> u16 {
        sat_sub(self.content_height, self.height)
    }

    /// Whether the offset lies in `0 ..= max_offset`.
    pub open spec fn clamped(self) -> bool {
        self.offset <= self.max_offset()
    }

    /// First visible line.
    pub open spec fn range_start(self) -> u16 {
        self.offset
    }

    /// One past the last visible line.
    pub open spec fn range_end(self) -> u16 {
        min16(sat_add(self.offset, self.height), self.content_height)
    }

    pub open spec fn at_top(self) -> bool {
        self.offset == 0
    }

    pub open spec fn at_bottom(self) -> bool {
        self.offset >= self.max_offset()
    }

    /// The padding chosen for a viewport of this height.
    pub open spec fn padding(self) -> u16 {
        if self.height <= SMALL_VIEWPORT_THRESHOLD {
            SMALL_VIEWPORT_PADDING
        } else if self.height <= MEDIUM_VIEWPORT_THRESHOLD {
            MEDIUM_VIEWPORT_PADDING
        } else if self.height <= LARGE_VIEWPORT_THRESHOLD {
            LARGE_VIEWPORT_PADDING
        } else {
            VERY_LARGE_VIEWPORT_PADDING
        }
    }

    pub open spec fn with_offset(self, offset: u16) -> ViewportState {
        ViewportState { offset, ..self }
    }

    /// State after `ensure_visible(y, height)`.
    pub open spec fn ensured(self, y: u16, h: u16) -> ViewportState {
        if y < self.offset {
            self.with_offset(y)
        } else if y + h > self.offset + self.height {
            self.with_offset(sat_sub((y + h) as u16, self.height))
        } else {
            self
        }
    }

    /// State after `ensure_visible_with_padding(y, height, padding)`.
    pub open spec fn ensured_padded(self, y: u16, h: u16, padding: u16) -> ViewportState {
        let element_bottom = (y + h) as u16;
        let viewport_top = self.offset;
        let viewport_bottom = (self.offset + self.height) as u16;
        let actual_padding = min16(padding, self.height / MAX_PADDING_DIVISOR);
        let scrolled_down = min16(
            sat_sub(sat_add(element_bottom, actual_padding), self.height),
            self.max_offset(),
        );
        if y < viewport_top {
            self.with_offset(sat_sub(y, actual_padding))
        } else if element_bottom > viewport_bottom {
            self.with_offset(scrolled_down)
        } else if y < sat_add(viewport_top, actual_padding) && y >= viewport_top {
            self.with_offset(sat_sub(y, actual_padding))
        } else if element_bottom > sat_sub(viewport_bottom, actual_padding) && element_bottom
            <= viewport_bottom {
            self.with_offset(scrolled_down)
        } else {
            self
        }
    }

    /// State after `scroll_down(lines)`.
    pub open spec fn scrolled_down(self, lines: u16) -> ViewportState {
        self.with_offset(min16((self.offset + lines) as u16, self.max_offset()))
    }

    /// State after `scroll_up(lines)`.
    pub open spec fn scrolled_up(self, lines: u16) -> ViewportState {
        self.with_offset(sat_sub(self.offset, lines))
    }

    /// State after `set_offset(offset)`.
    pub open spec fn offset_set(self, offset: u16) -> ViewportState {
        self.with_offset(min16(offset, self.max_offset()))
    }
}

/// Viewport that manages scrolling through document content.
#[derive(Debug)]
pub struct Viewport {
    offset: u16,
    height: u16,
    content_height: u16,
}

impl View for Viewport {
    type V = ViewportState;

    closed spec fn view(&self) -> ViewportState {
        ViewportState {
            offset: self.offset,
            height: self.height,
            content_height: self.content_height,
        }
    }
}

impl Clone for Viewport {
    fn clone(&self) -> (res: Self)
        ensures
            res@ == self@,
    {
        Viewport { offset: self.offset, height: self.height, content_height: self.content_height }
    }
}

impl Viewport {
    /// Create a new viewport; the offset is clamped so that the content's
    /// last line is never above the bottom of the viewport.
    pub fn new(offset: u16, height: u16, content_height: u16) -> (v: Self)
        ensures
            v@.height == height,
            v@.content_height == content_height,
            v@.offset == min16(offset, sat_sub(content_height, height)),
    {
        let max_offset = content_height.saturating_sub(height);
        Viewport {
            offset: if offset <= max_offset { offset } else { max_offset },
            height,
            content_height,
        }
    }

    /// The range of visible lines.
    pub fn visible_range(&self) -> (r: core::ops::Range<u16>)
        ensures
            r.start == self@.range_start(),
            r.end == self@.range_end(),
    {
        let end = self.offset.saturating_add(self.height);
        let end = if end <= self.content_height { end } else { self.content_height };
        core::ops::Range { start: self.offset, end }
    }

    /// Whether the lines `y .. y + height` are at least partly visible.
    pub fn is_rect_visible(&self, y: u16, height: u16) -> (b: bool)
        requires
            y + height <= u16::MAX,
        ensures
            b == (y < self@.range_end() && y + height > self@.range_start()),
    {
        let visible = self.visible_range();
        y < visible.end && y + height > visible.start
    }

    /// Ensure the lines `y .. y + height` are visible, scrolling as little as
    /// needed and without padding.
    pub fn ensure_visible(&mut self, y: u16, height: u16)
        requires
            y + height <= u16::MAX,
            old(self)@.offset + old(self)@.height <= u16::MAX,
        ensures
            final(self)@ == old(self)@.ensured(y, height),
    {
        let bottom = y + height;
        if y < self.offset {
            self.offset = y;
        } else if bottom > self.offset + self.height {
            self.offset = bottom.saturating_sub(self.height);
        }
    }

    /// Ensure the lines `y .. y + height` are visible, keeping up to
    /// `padding` lines (at most a quarter of the viewport) of context around
    /// them, so that the element does not sit at the very edge of the
    /// viewport: an element on or next to an edge gets its padding too.
    pub fn ensure_visible_with_padding(&mut self, y: u16, height: u16, padding: u16)
        requires
            y + height <= u16::MAX,
            old(self)@.offset + old(self)@.height <= u16::MAX,
        ensures
            final(self)@ == old(self)@.ensured_padded(y, height, padding),
    {
        let element_top = y;
        let element_bottom = y + height;
        let viewport_top = self.offset;
        let viewport_bottom = self.offset + self.height;

        let max_padding = self.height / MAX_PADDING_DIVISOR;
        let actual_padding = if padding <= max_padding { padding } else { max_padding };

        if element_top < viewport_top {
            self.offset = element_top.saturating_sub(actual_padding);
        } else if element_bottom > viewport_bottom {
            let desired_offset = element_bottom.saturating_add(actual_padding);
            let max_offset = self.content_height.saturating_sub(self.height);
            let o = desired_offset.saturating_sub(self.height);
            self.offset = if o <= max_offset { o } else { max_offset };
        } else if element_top < viewport_top.saturating_add(actual_padding) && element_top
            >= viewport_top {
            self.offset = element_top.saturating_sub(actual_padding);
        } else if element_bottom > viewport_bottom.saturating_sub(actual_padding)
            && element_bottom <= viewport_bottom {
            let desired_offset = element_bottom.saturating_add(actual_padding);
            let max_offset = self.content_height.saturating_sub(self.height);
            let o = desired_offset.saturating_sub(self.height);
            self.offset = if o <= max_offset { o } else { max_offset };
        }
    }

    /// Scroll up by a number of lines, stopping at the top.
    pub fn scroll_up(&mut self, lines: u16)
        ensures
            final(self)@ == old(self)@.scrolled_up(lines),
    {
        self.offset = self.offset.saturating_sub(lines);
    }

    /// Scroll down by a number of lines, stopping at the bottom.
    pub fn scroll_down(&mut self, lines: u16)
        requires
            old(self)@.offset + lines <= u16::MAX,
        ensures
            final(self)@ == old(self)@.scrolled_down(lines),
    {
        let max_offset = self.content_height.saturating_sub(self.height);
        let o = self.offset + lines;
        self.offset = if o <= max_offset { o } else { max_offset };
    }

    /// Scroll to the top of the document.
    pub fn scroll_to_top(&mut self)
        ensures
            final(self)@ == old(self)@.with_offset(0),
    {
        self.offset = 0;
    }

    /// Scroll to the bottom of the document.
    pub fn scroll_to_bottom(&mut self)
        ensures
            final(self)@ == old(self)@.with_offset(old(self)@.max_offset()),
    {
        self.offset = self.content_height.saturating_sub(self.height);
    }

    /// The current scroll offset.
    pub fn offset(&self) -> (r: u16)
        ensures
            r == self@.offset,
    {
        self.offset
    }

    /// The viewport height.
    pub fn height(&self) -> (r: u16)
        ensures
            r == self@.height,
    {
        self.height
    }

    /// The content height.
    pub fn content_height(&self) -> (r: u16)
        ensures
            r == self@.content_height,
    {
        self.content_height
    }

    /// Set the offset directly, clamped to the largest valid offset.
    pub fn set_offset(&mut self, offset: u16)
        ensures
            final(self)@ == old(self)@.offset_set(offset),
    {
        let max_offset = self.content_height.saturating_sub(self.height);
        self.offset = if offset <= max_offset { offset } else { max_offset };
    }

    /// Set the viewport height (on a terminal resize), clamping the offset.
    pub fn set_height(&mut self, height: u16)
        ensures
            final(self)@.height == height,
            final(self)@.content_height == old(self)@.content_height,
            final(self)@.offset == min16(
                old(self)@.offset,
                sat_sub(old(self)@.content_height, height),
            ),
    {
        self.height = height;
        let max_offset = self.content_height.saturating_sub(height);
        self.offset = if self.offset <= max_offset { self.offset } else { max_offset };
    }

    /// Set the content height (when the document changes), clamping the offset.
    pub fn set_content_height(&mut self, height: u16)
        ensures
            final(self)@.height == old(self)@.height,
            final(self)@.content_height == height,
            final(self)@.offset == min16(old(self)@.offset, sat_sub(height, old(self)@.height)),
    {
        self.content_height = height;
        let max_offset = height.saturating_sub(self.height);
        self.offset = if self.offset <= max_offset { self.offset } else { max_offset };
    }

    /// Whether the viewport is at the top.
    pub fn is_at_top(&self) -> (b: bool)
        ensures
            b == self@.at_top(),
    {
        self.offset == 0
    }

    /// Whether the viewport is at the bottom.
    pub fn is_at_bottom(&self) -> (b: bool)
        ensures
            b == self@.at_bottom(),
    {
        self.offset >= self.content_height.saturating_sub(self.height)
    }

    /// Padding for autoscrolling: 1 line up to height 10, 2 up to 20,
    /// 3 up to 40, and 5 beyond.
    pub fn smart_padding(&self) -> (p: u16)
        ensures
            p == self@.padding(),
    {
        if self.height <= SMALL_VIEWPORT_THRESHOLD {
            SMALL_VIEWPORT_PADDING
        } else if self.height <= MEDIUM_VIEWPORT_THRESHOLD {
            MEDIUM_VIEWPORT_PADDING
        } else if self.height <= LARGE_VIEWPORT_THRESHOLD {
            LARGE_VIEWPORT_PADDING
        } else {
            VERY_LARGE_VIEWPORT_PADDING
        }
    }
}

/// Every operation that sets the offset from outside (`new`, `set_offset`,
/// `scroll_down`, `scroll_to_bottom`, `set_height`, `set_content_height`)
/// leaves it at most the largest valid offset.
pub proof fn lemma_clamping_operations(s: ViewportState, x: u16)
    requires
        s.offset + x <= u16::MAX,
    ensures
        (ViewportState { offset: min16(x, sat_sub(s.content_height, s.height)), ..s }).clamped(),
        s.offset_set(x).clamped(),
        s.scrolled_down(x).clamped(),
        s.with_offset(s.max_offset()).clamped(),
        (ViewportState {
            offset: min16(s.offset, sat_sub(s.content_height, x)),
            height: x,
            content_height: s.content_height,
        }).clamped(),
        (ViewportState {
            offset: min16(s.offset, sat_sub(x, s.height)),
            height: s.height,
            content_height: x,
        }).clamped(),
{
}

/// An operation on a viewport, named after the method that performs it.
pub enum ViewportOp {
    ScrollUp(u16),
    ScrollDown(u16),
    ScrollToTop,
    ScrollToBottom,
    SetOffset(u16),
    SetHeight(u16),
    SetContentHeight(u16),
    EnsureVisibleWithPadding(u16, u16, u16),
}

impl ViewportState {
    /// Whether the method behind `op` runs on this state without an
    /// arithmetic overflow (on a clamped state, this is the method's whole
    /// `requires`: there `offset + height` fits, see
    /// `lemma_operation_keeps_clamped`).
    pub open spec fn accepts(self, op: ViewportOp) -> bool {
        match op {
            ViewportOp::ScrollDown(lines) => self.offset + lines <= u16::MAX,
            ViewportOp::EnsureVisibleWithPadding(y, h, _) => y + h <= u16::MAX,
            _ => true,
        }
    }

    /// The state that the method behind `op` leaves (its `ensures`).
    pub open spec fn after(self, op: ViewportOp) -> ViewportState {
        match op {
            ViewportOp::ScrollUp(lines) => self.scrolled_up(lines),
            ViewportOp::ScrollDown(lines) => self.scrolled_down(lines),
            ViewportOp::ScrollToTop => self.with_offset(0),
            ViewportOp::ScrollToBottom => self.with_offset(self.max_offset()),
            ViewportOp::SetOffset(o) => self.offset_set(o),
            ViewportOp::SetHeight(h) => ViewportState {
                offset: min16(self.offset, sat_sub(self.content_height, h)),
                height: h,
                content_height: self.content_height,
            },
            ViewportOp::SetContentHeight(c) => ViewportState {
                offset: min16(self.offset, sat_sub(c, self.height)),
                height: self.height,
                content_height: c,
            },
            ViewportOp::EnsureVisibleWithPadding(y, h, p) => self.ensured_padded(y, h, p),
        }
    }

    /// Whether every operation of `ops`, applied in turn, is accepted.
    pub open spec fn accepts_all(self, ops: Seq<ViewportOp>) -> bool
        decreases ops.len(),
    {
        if ops.len() == 0 {
            true
        } else {
            self.accepts(ops[0]) && self.after(ops[0]).accepts_all(ops.drop_first())
        }
    }

    /// The state after the operations of `ops`, applied in turn.
    pub open spec fn after_all(self, ops: Seq<ViewportOp>) -> ViewportState
        decreases ops.len(),
    {
        if ops.len() == 0 {
            self
        } else {
            self.after(ops[0]).after_all(ops.drop_first())
        }
    }
}

/// Each operation other than `ensure_visible` keeps the offset within
/// `0 ..= content_height - height` (saturating) when it starts there; and
/// there the offset plus the height always fits in 16 bits.
pub proof fn lemma_operation_keeps_clamped(s: ViewportState, op: ViewportOp)
    requires
        s.clamped(),
        s.accepts(op),
    ensures
        s.offset + s.height <= u16::MAX,
        s.after(op).clamped(),
{
}

/// A viewport made by `new` and then changed by any sequence of `scroll_up`,
/// `scroll_down`, `scroll_to_top`, `scroll_to_bottom`, `set_offset`,
/// `set_height`, `set_content_height` and `ensure_visible_with_padding` never
/// has an offset beyond `content_height - height` (saturating), so its
/// visible range never starts after it ends.  The sequences are those on
/// which no operation overflows: `offset + lines` in `scroll_down` and
/// `y + height` in `ensure_visible_with_padding` fit in 16 bits.
pub proof fn lemma_offset_never_past_bottom(
    offset: u16,
    height: u16,
    content_height: u16,
    ops: Seq<ViewportOp>,
)
    requires
        (ViewportState {
            offset: min16(offset, sat_sub(content_height, height)),
            height,
            content_height,
        }).accepts_all(ops),
    ensures
        ({
            let r = (ViewportState {
                offset: min16(offset, sat_sub(content_height, height)),
                height,
                content_height,
            }).after_all(ops);
            &&& r.offset <= sat_sub(r.content_height, r.height)
            &&& r.range_start() <= r.range_end()
        }),
{
    let s0 = ViewportState {
        offset: min16(offset, sat_sub(content_height, height)),
        height,
        content_height,
    };
    lemma_run_keeps_clamped(s0, ops);
}

proof fn lemma_run_keeps_clamped(s: ViewportState, ops: Seq<ViewportOp>)
    requires
        s.clamped(),
        s.accepts_all(ops),
    ensures
        s.after_all(ops).clamped(),
        s.after_all(ops).range_start() <= s.after_all(ops).range_end(),
    decreases ops.len(),
{
    if ops.len() > 0 {
        lemma_operation_keeps_clamped(s, ops[0]);
        lemma_run_keeps_clamped(s.after(ops[0]), ops.drop_first());
    }
}

/// Scrolling to the top reaches the top, scrolling to the bottom reaches the
/// bottom, and scrolling never leaves the offset above 0 or moves it past
/// the largest valid offset when scrolling down.
pub proof fn lemma_scroll_extremes(s: ViewportState, lines: u16)
    requires
        s.offset + lines <= u16::MAX,
    ensures
        s.with_offset(0).at_top(),
        s.with_offset(s.max_offset()).at_bottom(),
        s.scrolled_up(lines).offset <= s.offset,
        s.clamped() ==> s.offset <= s.scrolled_down(lines).offset,
        s.scrolled_down(lines).offset <= s.max_offset(),
{
}

/// Scrolling down by `n` lines and back up by `n` lines restores the offset,
/// as long as the way down was not cut short by the bottom of the content.
pub proof fn lemma_scroll_down_then_up(s: ViewportState, n: u16)
    requires
        s.offset + n <= s.max_offset(),
    ensures
        s.scrolled_down(n).scrolled_up(n) == s,
{
}

/// The visible range never holds more lines than the viewport's height, and
/// for a clamped viewport on content at least as tall as the viewport it holds
/// exactly `height` lines.
pub proof fn lemma_visible_range_size(s: ViewportState)
    ensures
        s.range_end() <= s.range_start() + s.height,
        s.clamped() && s.height <= s.content_height ==> s.range_end() == s.range_start()
            + s.height,
{
}

/// After `ensure_visible(y, h)` an element that fits in the viewport lies
/// entirely inside it.
pub proof fn lemma_ensure_visible_shows_element(s: ViewportState, y: u16, h: u16)
    requires
        y + h <= u16::MAX,
        s.offset + s.height <= u16::MAX,
        h <= s.height,
    ensures
        s.ensured(y, h).offset <= y,
        y + h <= s.ensured(y, h).offset + s.height,
        s.ensured(y, h).height == s.height,
        s.ensured(y, h).content_height == s.content_height,
{
}

/// After `ensure_visible_with_padding(y, h, p)` an element that fits in the
/// viewport together with its padding, and that lies inside the content, is
/// visible: its top is not above the viewport and its bottom not below it.
pub proof fn lemma_ensure_visible_with_padding_shows_element(
    s: ViewportState,
    y: u16,
    h: u16,
    p: u16,
)
    requires
        y + h <= s.content_height,
        s.offset + s.height <= u16::MAX,
        s.clamped(),
        h + min16(p, s.height / MAX_PADDING_DIVISOR) <= s.height,
    ensures
        s.ensured_padded(y, h, p).offset <= y,
        y + h <= s.ensured_padded(y, h, p).offset + s.height,
{
}

} // verus!
