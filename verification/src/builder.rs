//! A fluent builder for the element list of a document.

use vstd::prelude::*;

use crate::document::{FocusContext, opt_key};
use crate::elements::{DocumentElement, TABLE_COLUMN_HEADER_HEIGHT, table_focus, views};
use crate::focus::FocusKey;
use crate::link::LinkTarget;
use crate::table::{TableWidget, header_lines};
use crate::text::{decimal, push_decimal};

verus! {

/// Builder for the elements of a document.
#[derive(Debug)]
pub struct DocumentBuilder {
    elements: Vec<DocumentElement>,
}

impl View for DocumentBuilder {
    type V = Seq<DocumentElement>;

    closed spec fn view(&self) -> Seq<DocumentElement> {
        self.elements@
    }
}

/// `r` is `s` with one more element at the end.
pub open spec fn pushed(r: Seq<DocumentElement>, s: Seq<DocumentElement>) -> bool {
    &&& r.len() == s.len() + 1
    &&& forall|i: int| 0 <= i < s.len() ==> #[trigger] r[i] == s[i]
}

/// The ID of a link added without one: "link_<position>".
pub open spec fn auto_link_id(position: nat) -> Seq<char> {
    "link_"@ + decimal(position)
}

/// `e` is a link with the given ID, text, target and focus.
pub open spec fn is_link(
    e: DocumentElement,
    id: Seq<char>,
    display: Seq<char>,
    target: LinkTarget,
    focused: bool,
) -> bool {
    e matches DocumentElement::Link { display: d, target: t, id: i, focused: f } && i@ == id && d@
        == display && t == target && f == focused
}

impl Default for DocumentBuilder {
    fn default() -> (b: Self)
        ensures
            b@ == Seq::<DocumentElement>::empty(),
    {
        DocumentBuilder::new()
    }
}

impl DocumentBuilder {
    /// An empty builder.
    pub fn new() -> (b: Self)
        ensures
            b@ == Seq::<DocumentElement>::empty(),
    {
        DocumentBuilder { elements: Vec::new() }
    }

    /// Add a heading (level clamped to 1 ..= 6).
    pub fn heading(self, level: u8, content: &str) -> (b: Self)
        ensures
            pushed(b@, self@),
            b@.last() matches DocumentElement::Heading { level: l, content: c } && c@ == content@
                && l == (if level < 1 {
                1
            } else if level > 6 {
                6
            } else {
                level
            }),
    {
        self.element(DocumentElement::heading(level, content))
    }

    /// Add a text paragraph.
    pub fn text(self, content: &str) -> (b: Self)
        ensures
            pushed(b@, self@),
            b@.last() matches DocumentElement::Text { content: c, style } && c@ == content@
                && style is None,
    {
        self.element(DocumentElement::text(content))
    }

    /// Add a styled text paragraph.
    pub fn styled_text(self, content: &str, style: ratatui::style::Style) -> (b: Self)
        ensures
            pushed(b@, self@),
            b@.last() matches DocumentElement::Text { content: c, style: s } && c@ == content@ && s
                == Some(style),
    {
        self.element(DocumentElement::styled_text(content, style))
    }

    /// Add a link whose ID is "link_" followed by its position in the list.
    pub fn link(self, display: &str, target: LinkTarget) -> (b: Self)
        ensures
            pushed(b@, self@),
            is_link(b@.last(), auto_link_id(self@.len()), display@, target, false),
    {
        let mut id = String::from_str("link_");
        push_decimal(&mut id, self.elements.len() as u64);
        proof {
            reveal_strlit("link_");
        }
        self.element(DocumentElement::link(id.as_str(), display, target))
    }

    /// Add a link with the given ID.
    pub fn link_with_id(self, id: &str, display: &str, target: LinkTarget) -> (b: Self)
        ensures
            pushed(b@, self@),
            is_link(b@.last(), id@, display@, target, false),
    {
        self.element(DocumentElement::link(id, display, target))
    }

    /// Add a link with the given ID, focused when the focus context focuses
    /// that link.
    pub fn link_with_focus(
        self,
        id: &str,
        display: &str,
        target: LinkTarget,
        focus: &FocusContext,
    ) -> (b: Self)
        ensures
            pushed(b@, self@),
            is_link(
                b@.last(),
                id@,
                display@,
                target,
                opt_key(focus.focused_id) == Some(FocusKey::Link(id@)),
            ),
    {
        if focus.is_link_focused(id) {
            self.element(DocumentElement::focused_link(id, display, target))
        } else {
            self.element(DocumentElement::link(id, display, target))
        }
    }

    /// Add a horizontal separator.
    pub fn separator(self) -> (b: Self)
        ensures
            b@ == self@.push(DocumentElement::Separator),
    {
        self.element(DocumentElement::separator())
    }

    /// Add vertical space.
    pub fn spacer(self, height: u16) -> (b: Self)
        ensures
            b@ == self@.push(DocumentElement::Spacer { height }),
    {
        self.element(DocumentElement::spacer(height))
    }

    /// Add a built element.
    pub fn element(self, element: DocumentElement) -> (b: Self)
        ensures
            b@ == self@.push(element),
    {
        let mut elements = self.elements;
        elements.push(element);
        DocumentBuilder { elements }
    }

    /// Add a table whose link cells become focusable.
    pub fn table(self, name: &str, widget: TableWidget) -> (b: Self)
        requires
            widget@.headers.len() == 0 || header_lines(widget@) + widget@.cells.len() <= u16::MAX
                - TABLE_COLUMN_HEADER_HEIGHT,
        ensures
            pushed(b@, self@),
            b@.last() matches DocumentElement::Table { widget: w, focusable } && w == widget
                && views(focusable@) == table_focus(name@, widget@, widget@.cells.len() as int),
    {
        self.element(DocumentElement::table(name, widget))
    }

    /// Add several elements at once.
    pub fn elements(self, elements: Vec<DocumentElement>) -> (b: Self)
        ensures
            b@ == self@ + elements@,
    {
        let mut all = self.elements;
        let mut rest = elements;
        all.append(&mut rest);
        DocumentBuilder { elements: all }
    }

    /// Add elements side by side, two characters apart.
    pub fn row(self, children: Vec<DocumentElement>) -> (b: Self)
        ensures
            b@ == self@.push(DocumentElement::Row { children, gap: 2 }),
    {
        self.element(DocumentElement::row(children))
    }

    /// Add elements side by side with the given gap.
    pub fn row_with_gap(self, children: Vec<DocumentElement>, gap: u16) -> (b: Self)
        ensures
            b@ == self@.push(DocumentElement::Row { children, gap }),
    {
        self.element(DocumentElement::row_with_gap(children, gap))
    }

    /// Add a group holding the elements that `f` adds to an empty builder.
    pub fn group<F: FnOnce(DocumentBuilder) -> DocumentBuilder>(self, f: F) -> (b: Self)
        requires
            forall|e: DocumentBuilder| e@.len() == 0 ==> call_requires(f, (e,)),
        ensures
            pushed(b@, self@),
            exists|e: DocumentBuilder, g: DocumentBuilder|
                #![trigger call_ensures(f, (e,), g)]
                e@.len() == 0 && call_ensures(f, (e,), g) && (b@.last() matches DocumentElement::Group {
                    children,
                    style,
                } && children@ == g@ && style is None),
    {
        let empty = DocumentBuilder::new();
        let ghost e = empty;
        let inner = f(empty);
        let ghost g = inner;
        let r = self.element(DocumentElement::group(inner.elements));
        assert(call_ensures(f, (e,), g));
        r
    }

    /// Add a styled group holding the elements that `f` adds to an empty
    /// builder.
    pub fn styled_group<F: FnOnce(DocumentBuilder) -> DocumentBuilder>(
        self,
        style: ratatui::style::Style,
        f: F,
    ) -> (b: Self)
        requires
            forall|e: DocumentBuilder| e@.len() == 0 ==> call_requires(f, (e,)),
        ensures
            pushed(b@, self@),
            exists|e: DocumentBuilder, g: DocumentBuilder|
                #![trigger call_ensures(f, (e,), g)]
                e@.len() == 0 && call_ensures(f, (e,), g) && (b@.last() matches DocumentElement::Group {
                    children,
                    style: s,
                } && children@ == g@ && s == Some(style)),
    {
        let empty = DocumentBuilder::new();
        let ghost e = empty;
        let inner = f(empty);
        let ghost g = inner;
        let r = self.element(DocumentElement::styled_group(inner.elements, style));
        assert(call_ensures(f, (e,), g));
        r
    }

    /// Apply `f` when the condition holds.
    pub fn when<F: FnOnce(DocumentBuilder) -> DocumentBuilder>(self, condition: bool, f: F) -> (b: Self)
        requires
            condition ==> call_requires(f, (self,)),
        ensures
            condition ==> call_ensures(f, (self,), b),
            !condition ==> b == self,
    {
        if condition {
            f(self)
        } else {
            self
        }
    }

    /// Apply `if_true` when the condition holds, `if_false` otherwise.
    pub fn when_else<
        F1: FnOnce(DocumentBuilder) -> DocumentBuilder,
        F2: FnOnce(DocumentBuilder) -> DocumentBuilder,
    >(self, condition: bool, if_true: F1, if_false: F2) -> (b: Self)
        requires
            condition ==> call_requires(if_true, (self,)),
            !condition ==> call_requires(if_false, (self,)),
        ensures
            condition ==> call_ensures(if_true, (self,), b),
            !condition ==> call_ensures(if_false, (self,), b),
    {
        if condition {
            if_true(self)
        } else {
            if_false(self)
        }
    }

    /// Apply `f` with each item in turn.
    pub fn for_each<T, F: Fn(DocumentBuilder, T) -> DocumentBuilder>(self, items: Vec<T>, f: F) -> (b: Self)
        requires
            forall|d: DocumentBuilder, t: T| call_requires(f, (d, t)),
        ensures
            exists|steps: Seq<DocumentBuilder>|
                {
                    &&& steps.len() == items@.len() + 1
                    &&& steps[0] == self
                    &&& steps.last() == b
                    &&& forall|i: int|
                        0 <= i < items@.len() ==> call_ensures(
                            f,
                            (steps[i], items@[i]),
                            #[trigger] steps[i + 1],
                        )
                },
    {
        let ghost all = items@;
        let mut rest = items;
        let mut current = self;
        let ghost mut steps: Seq<DocumentBuilder> = seq![current];
        while rest.len() > 0
            invariant
                all.len() == steps.len() - 1 + rest@.len(),
                rest@ == all.skip(steps.len() - 1),
                steps.len() >= 1,
                steps[0] == self,
                steps.last() == current,
                forall|d: DocumentBuilder, t: T| call_requires(f, (d, t)),
                forall|i: int|
                    0 <= i < steps.len() - 1 ==> call_ensures(
                        f,
                        (steps[i], all[i]),
                        #[trigger] steps[i + 1],
                    ),
            decreases rest@.len(),
        {
            let item = rest.remove(0);
            let next = f(current, item);
            proof {
                assert(item == all[steps.len() - 1]);
                steps = steps.push(next);
                assert(rest@ =~= all.skip(steps.len() - 1));
            }
            current = next;
        }
        current
    }

    /// The number of elements added so far.
    pub fn len(&self) -> (n: usize)
        ensures
            n == self@.len(),
    {
        self.elements.len()
    }

    /// Whether no element has been added.
    pub fn is_empty(&self) -> (b: bool)
        ensures
            b == (self@.len() == 0),
    {
        self.elements.len() == 0
    }

    /// The elements added, in order.
    pub fn build(self) -> (r: Vec<DocumentElement>)
        ensures
            r@ == self@,
    {
        self.elements
    }
}

} // verus!
