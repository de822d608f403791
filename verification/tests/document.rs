use nhl_tui::document::{Document, DocumentView, FocusContext};
use nhl_tui::elements::DocumentElement;
use nhl_tui::focus::FocusableId;
use nhl_tui::link::LinkTarget;

/// Simple test document for testing
struct TestDocument {
    lines: usize,
    links: usize,
}

impl TestDocument {
    fn new(lines: usize, links: usize) -> Self {
        Self { lines, links }
    }
}

impl Document for TestDocument {
    fn build(&self, _focus: &FocusContext) -> Vec<DocumentElement> {
        let mut elements = Vec::new();

        elements.push(DocumentElement::heading(1, "Test Document"));

        for i in 0..self.lines {
            elements.push(DocumentElement::text(&format!("Line {}", i)));
        }

        for i in 0..self.links {
            elements.push(DocumentElement::link(
                &format!("link_{}", i),
                &format!("Link {}", i),
                LinkTarget::Action(format!("action_{}", i)),
            ));
        }

        elements
    }

    fn title(&self) -> String {
        "Test Document".to_string()
    }

    fn id(&self) -> String {
        "test_doc".to_string()
    }
}

#[test]
fn test_document_view_new() {
    let doc = TestDocument::new(10, 3);
    let view = DocumentView::new(doc, 20).unwrap();

    assert_eq!(view.viewport_offset(), 0);
    assert_eq!(view.focus_manager().len(), 3); // 3 links
}

#[test]
fn test_focus_next_basic() {
    let doc = TestDocument::new(5, 3);
    let mut view = DocumentView::new(doc, 20).unwrap();

    // First tab should focus first link
    assert!(view.focus_next());
    assert_eq!(view.focus_manager().current_index(), Some(0));

    // Second tab should focus second link
    assert!(view.focus_next());
    assert_eq!(view.focus_manager().current_index(), Some(1));

    // Third tab should focus third link
    assert!(view.focus_next());
    assert_eq!(view.focus_manager().current_index(), Some(2));

    // Fourth tab should wrap to first
    assert!(view.focus_next());
    assert_eq!(view.focus_manager().current_index(), Some(0));
}

#[test]
fn test_focus_prev_basic() {
    let doc = TestDocument::new(5, 3);
    let mut view = DocumentView::new(doc, 20).unwrap();

    // First shift-tab should focus last link
    assert!(view.focus_prev());
    assert_eq!(view.focus_manager().current_index(), Some(2));

    // Second shift-tab should focus second link
    assert!(view.focus_prev());
    assert_eq!(view.focus_manager().current_index(), Some(1));
}

#[test]
fn test_focus_next_wraps_and_scrolls_to_top() {
    let doc = TestDocument::new(50, 3);
    let mut view = DocumentView::new(doc, 10).unwrap();

    // Navigate to last element
    view.focus_next(); // 0
    view.focus_next(); // 1
    view.focus_next(); // 2 (last)

    // Scroll down so we're not at top
    view.scroll_down(30);
    assert!(view.viewport_offset() > 0);

    // Wrap to first should scroll to top
    view.focus_next(); // wraps to 0
    assert_eq!(view.viewport_offset(), 0);
}

#[test]
fn test_autoscroll_when_focusing_off_screen() {
    // Create a document with many lines and links spread throughout
    let doc = TestDocument::new(100, 50);
    let mut view = DocumentView::new(doc, 10).unwrap();

    // Tab through many elements
    for _ in 0..30 {
        view.focus_next();
    }

    // The focused element should be visible
    if let Some(rect) = view.focus_manager().get_focused_rect() {
        let visible = view.viewport().visible_range();
        assert!(
            rect.y >= visible.start && rect.y < visible.end,
            "Focused element at y={} not visible in range {:?}",
            rect.y,
            visible
        );
    }
}

#[test]
fn test_scroll_operations() {
    let doc = TestDocument::new(100, 0);
    let mut view = DocumentView::new(doc, 10).unwrap();

    assert_eq!(view.viewport_offset(), 0);

    view.scroll_down(5);
    assert_eq!(view.viewport_offset(), 5);

    view.scroll_up(3);
    assert_eq!(view.viewport_offset(), 2);

    view.scroll_to_bottom();
    assert!(view.viewport().is_at_bottom());

    view.scroll_to_top();
    assert_eq!(view.viewport_offset(), 0);
}

#[test]
fn test_page_operations() {
    let doc = TestDocument::new(100, 0);
    let mut view = DocumentView::new(doc, 20).unwrap();

    view.page_down();
    assert_eq!(view.viewport_offset(), 18); // 20 - 2 overlap

    view.page_up();
    assert_eq!(view.viewport_offset(), 0);
}

#[test]
fn test_focus_element_by_id() {
    let doc = TestDocument::new(5, 5);
    let mut view = DocumentView::new(doc, 10).unwrap();

    assert!(view.focus_element_by_id(&FocusableId::link("link_2")));
    assert_eq!(view.focus_manager().current_index(), Some(2));

    assert!(!view.focus_element_by_id(&FocusableId::link("nonexistent")));
}

#[test]
fn test_activate_focused() {
    let doc = TestDocument::new(5, 3);
    let mut view = DocumentView::new(doc, 10).unwrap();

    // No focus yet
    assert!(view.activate_focused().is_none());

    // Focus first link
    view.focus_next();
    let target = view.activate_focused();
    assert!(matches!(target, Some(LinkTarget::Action(_))));
}

#[test]
fn mod_test_clear_focus() {
    let doc = TestDocument::new(5, 3);
    let mut view = DocumentView::new(doc, 10).unwrap();

    view.focus_next();
    assert!(view.focus_manager().current_index().is_some());

    view.clear_focus();
    assert!(view.focus_manager().current_index().is_none());
}

#[test]
fn test_set_viewport_height() {
    let doc = TestDocument::new(10, 0);
    let mut view = DocumentView::new(doc, 10).unwrap();

    view.set_viewport_height(20);
    assert_eq!(view.viewport().height(), 20);
}

#[test]
fn test_empty_document() {
    struct EmptyDoc;
    impl Document for EmptyDoc {
        fn build(&self, _focus: &FocusContext) -> Vec<DocumentElement> {
            Vec::new()
        }
        fn title(&self) -> String {
            "Empty".to_string()
        }
        fn id(&self) -> String {
            "empty".to_string()
        }
    }

    let doc = EmptyDoc;
    let mut view = DocumentView::new(doc, 10).unwrap();

    // Focus operations should return false
    assert!(!view.focus_next());
    assert!(!view.focus_prev());
}

#[test]
fn test_document_with_no_focusable_elements() {
    let doc = TestDocument::new(50, 0); // No links
    let mut view = DocumentView::new(doc, 10).unwrap();

    assert!(!view.focus_next());
    assert_eq!(view.focus_manager().len(), 0);
}

#[test]
fn document_metrics_follow_the_layout() {
    let doc = TestDocument::new(2, 2);
    // heading (2) + 2 lines + 2 links
    assert_eq!(doc.calculate_height(), Some(6));
    assert_eq!(doc.focusable_positions(), Some(vec![4, 5]));
    assert_eq!(doc.focusable_heights(), Some(vec![1, 1]));
    assert_eq!(
        doc.focusable_ids(),
        Some(vec![FocusableId::link("link_0"), FocusableId::link("link_1")])
    );
    assert_eq!(doc.focusable_row_positions(), Some(vec![None, None]));
}

#[test]
fn shift_tab_wrap_shows_last_element_at_bottom() {
    let doc = TestDocument::new(50, 3);
    let mut view = DocumentView::new(doc, 10).unwrap();
    view.focus_prev(); // last link, line 54
    view.focus_prev(); // middle link
    view.focus_prev(); // first link
    view.scroll_to_top();
    view.focus_prev(); // wraps to the last link at line 54
    assert_eq!(view.focus_manager().current_index(), Some(2));
    assert_eq!(view.viewport_offset(), 55 - 10);
}

#[test]
fn rebuild_keeps_layout_and_clears_focus() {
    let doc = TestDocument::new(5, 3);
    let mut view = DocumentView::new(doc, 10).unwrap();
    view.focus_next();
    assert!(view.rebuild());
    assert_eq!(view.focus_manager().current_index(), None);
    assert_eq!(view.focus_manager().len(), 3);
    assert_eq!(view.viewport().content_height(), 10);
}

#[test]
fn set_scroll_offset_is_kept_within_content() {
    let doc = TestDocument::new(100, 0);
    let mut view = DocumentView::new(doc, 10).unwrap();
    view.set_scroll_offset(500);
    assert_eq!(view.viewport_offset(), 102 - 10);
}
