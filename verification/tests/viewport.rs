use nhl_tui::focus::Rect;
use nhl_tui::viewport::Viewport;

#[test]
fn test_viewport_new() {
    let viewport = Viewport::new(10, 20, 100);

    assert_eq!(viewport.offset(), 10);
    assert_eq!(viewport.height(), 20);
    assert_eq!(viewport.content_height(), 100);
}

#[test]
fn test_viewport_new_clamps_offset() {
    // Offset would put us past end of content
    let viewport = Viewport::new(95, 20, 100);

    // Should be clamped to 80 (100 - 20)
    assert_eq!(viewport.offset(), 80);
}

#[test]
fn test_visible_range() {
    let viewport = Viewport::new(10, 20, 100);
    assert_eq!(viewport.visible_range(), 10..30);
}

#[test]
fn test_visible_range_clamps_at_end() {
    let viewport = Viewport::new(90, 20, 100);
    // offset is clamped to 80
    assert_eq!(viewport.visible_range(), 80..100);
}

#[test]
fn test_is_rect_visible_fully_visible() {
    let viewport = Viewport::new(20, 10, 100);
    let rect = Rect::new(0, 22, 10, 3);
    assert!(viewport.is_rect_visible(rect.y, rect.height));
}

#[test]
fn test_is_rect_visible_partially_top() {
    let viewport = Viewport::new(20, 10, 100);
    // Rect starts at 18, viewport starts at 20 - partially visible
    let rect = Rect::new(0, 18, 10, 5);
    assert!(viewport.is_rect_visible(rect.y, rect.height));
}

#[test]
fn test_is_rect_visible_partially_bottom() {
    let viewport = Viewport::new(20, 10, 100);
    // Rect ends at 33, viewport ends at 30 - partially visible
    let rect = Rect::new(0, 28, 10, 5);
    assert!(viewport.is_rect_visible(rect.y, rect.height));
}

#[test]
fn test_is_rect_visible_not_visible_above() {
    let viewport = Viewport::new(20, 10, 100);
    // Rect is entirely above viewport
    let rect = Rect::new(0, 10, 10, 5);
    assert!(!viewport.is_rect_visible(rect.y, rect.height));
}

#[test]
fn test_is_rect_visible_not_visible_below() {
    let viewport = Viewport::new(20, 10, 100);
    // Rect is entirely below viewport
    let rect = Rect::new(0, 35, 10, 5);
    assert!(!viewport.is_rect_visible(rect.y, rect.height));
}

#[test]
fn test_ensure_visible_element_above() {
    let mut viewport = Viewport::new(20, 10, 100);
    viewport.ensure_visible(15, 2);
    assert_eq!(viewport.offset(), 15);
}

#[test]
fn test_ensure_visible_element_below() {
    let mut viewport = Viewport::new(20, 10, 100);
    viewport.ensure_visible(35, 2);
    // bottom = 37, need offset where 37 is at viewport bottom
    // offset = 37 - 10 = 27
    assert_eq!(viewport.offset(), 27);
}

#[test]
fn test_ensure_visible_element_already_visible() {
    let mut viewport = Viewport::new(20, 10, 100);
    viewport.ensure_visible(22, 2);
    // Should not change
    assert_eq!(viewport.offset(), 20);
}

#[test]
fn test_ensure_visible_with_padding_element_above() {
    let mut viewport = Viewport::new(20, 10, 100);
    viewport.ensure_visible_with_padding(15, 2, 2);
    // Should scroll to show element with padding: 15 - 2 = 13
    assert_eq!(viewport.offset(), 13);
}

#[test]
fn test_ensure_visible_with_padding_element_below() {
    let mut viewport = Viewport::new(20, 10, 100);
    viewport.ensure_visible_with_padding(35, 2, 2);
    // element_bottom = 37, desired_offset = 37 + 2 = 39
    // offset = 39 - 10 = 29
    assert_eq!(viewport.offset(), 29);
}

#[test]
fn test_ensure_visible_with_padding_clamps_padding() {
    let mut viewport = Viewport::new(0, 10, 100);
    // Requesting 10 lines of padding, but max is 25% of viewport = 2
    viewport.ensure_visible_with_padding(50, 2, 10);
    // element_bottom = 52, max_padding = 2, desired = 52 + 2 = 54
    // offset = 54 - 10 = 44
    assert_eq!(viewport.offset(), 44);
}

#[test]
fn test_scroll_up() {
    let mut viewport = Viewport::new(20, 10, 100);
    viewport.scroll_up(5);
    assert_eq!(viewport.offset(), 15);
}

#[test]
fn test_scroll_up_clamps_at_zero() {
    let mut viewport = Viewport::new(5, 10, 100);
    viewport.scroll_up(10);
    assert_eq!(viewport.offset(), 0);
}

#[test]
fn test_scroll_down() {
    let mut viewport = Viewport::new(20, 10, 100);
    viewport.scroll_down(5);
    assert_eq!(viewport.offset(), 25);
}

#[test]
fn test_scroll_down_clamps_at_bottom() {
    let mut viewport = Viewport::new(85, 20, 100);
    viewport.scroll_down(20);
    assert_eq!(viewport.offset(), 80);
}

#[test]
fn test_scroll_to_top() {
    let mut viewport = Viewport::new(50, 20, 100);
    viewport.scroll_to_top();
    assert_eq!(viewport.offset(), 0);
}

#[test]
fn test_scroll_to_bottom() {
    let mut viewport = Viewport::new(20, 20, 100);
    viewport.scroll_to_bottom();
    assert_eq!(viewport.offset(), 80);
}

#[test]
fn test_set_offset() {
    let mut viewport = Viewport::new(0, 20, 100);
    viewport.set_offset(50);
    assert_eq!(viewport.offset(), 50);
}

#[test]
fn test_set_offset_clamps() {
    let mut viewport = Viewport::new(0, 20, 100);
    viewport.set_offset(200);
    assert_eq!(viewport.offset(), 80);
}

#[test]
fn test_set_height() {
    let mut viewport = Viewport::new(50, 20, 100);
    viewport.set_height(30);
    assert_eq!(viewport.height(), 30);
    assert_eq!(viewport.offset(), 50);
}

#[test]
fn test_set_height_adjusts_offset() {
    let mut viewport = Viewport::new(80, 20, 100);
    viewport.set_height(30);
    // Max offset is now 70, so offset should be clamped
    assert_eq!(viewport.offset(), 70);
}

#[test]
fn test_set_content_height() {
    let mut viewport = Viewport::new(50, 20, 100);
    viewport.set_content_height(150);
    assert_eq!(viewport.content_height(), 150);
    assert_eq!(viewport.offset(), 50);
}

#[test]
fn test_set_content_height_adjusts_offset() {
    let mut viewport = Viewport::new(80, 20, 100);
    viewport.set_content_height(50);
    // Max offset is now 30, so offset should be clamped
    assert_eq!(viewport.offset(), 30);
}

#[test]
fn test_is_at_top() {
    let viewport = Viewport::new(0, 20, 100);
    assert!(viewport.is_at_top());

    let viewport = Viewport::new(10, 20, 100);
    assert!(!viewport.is_at_top());
}

#[test]
fn test_is_at_bottom() {
    let viewport = Viewport::new(80, 20, 100);
    assert!(viewport.is_at_bottom());

    let viewport = Viewport::new(70, 20, 100);
    assert!(!viewport.is_at_bottom());
}

#[test]
fn test_smart_padding_small_viewport() {
    let viewport = Viewport::new(0, 8, 100);
    assert_eq!(viewport.smart_padding(), 1);
}

#[test]
fn test_smart_padding_medium_viewport() {
    let viewport = Viewport::new(0, 15, 100);
    assert_eq!(viewport.smart_padding(), 2);
}

#[test]
fn test_smart_padding_large_viewport() {
    let viewport = Viewport::new(0, 30, 100);
    assert_eq!(viewport.smart_padding(), 3);
}

#[test]
fn test_smart_padding_very_large_viewport() {
    let viewport = Viewport::new(0, 50, 100);
    assert_eq!(viewport.smart_padding(), 5);
}

#[test]
fn test_viewport_with_content_smaller_than_viewport() {
    let viewport = Viewport::new(0, 50, 30);
    assert_eq!(viewport.offset(), 0);
    assert_eq!(viewport.visible_range(), 0..30);
    assert!(viewport.is_at_top());
    assert!(viewport.is_at_bottom());
}

#[test]
fn test_ensure_visible_with_padding_near_top_edge() {
    let mut viewport = Viewport::new(10, 20, 100);
    // Element at y=11, which is just barely inside the viewport
    // With padding=2, we want to see 2 lines above it
    viewport.ensure_visible_with_padding(11, 1, 2);
    // Element is near top edge (within padding distance), should scroll up
    assert_eq!(viewport.offset(), 9);
}

#[test]
fn test_ensure_visible_with_padding_near_bottom_edge() {
    let mut viewport = Viewport::new(10, 20, 100);
    // Element at y=28, bottom at 29, viewport bottom at 30
    // With padding=2, we want 2 lines below it
    viewport.ensure_visible_with_padding(28, 1, 2);
    // Element is near bottom edge, should scroll down
    // element_bottom = 29, desired = 29 + 2 = 31, offset = 31 - 20 = 11
    assert_eq!(viewport.offset(), 11);
}

#[test]
fn ensure_visible_with_padding_on_the_top_edge_adds_padding() {
    let mut viewport = Viewport::new(10, 20, 100);
    viewport.ensure_visible_with_padding(10, 1, 2);
    assert_eq!(viewport.offset(), 8);
}

#[test]
fn ensure_visible_with_padding_on_the_bottom_edge_adds_padding() {
    let mut viewport = Viewport::new(10, 20, 100);
    // The element ends exactly at the viewport's bottom (line 30).
    viewport.ensure_visible_with_padding(29, 1, 2);
    assert_eq!(viewport.offset(), 12);
}

#[test]
fn offset_never_passes_the_bottom_through_a_run_of_operations() {
    let mut v = Viewport::new(50, 10, 40);
    let check = |v: &Viewport| {
        assert!(v.offset() <= v.content_height().saturating_sub(v.height()));
        assert!(v.visible_range().start <= v.visible_range().end);
    };
    check(&v);
    v.scroll_down(100);
    check(&v);
    assert_eq!(v.offset(), 30);
    v.set_content_height(25);
    check(&v);
    assert_eq!(v.offset(), 15);
    v.set_height(30);
    check(&v);
    assert_eq!(v.offset(), 0);
    v.set_height(5);
    v.set_offset(1000);
    check(&v);
    assert_eq!(v.offset(), 20);
    v.ensure_visible_with_padding(24, 1, 3);
    check(&v);
    v.scroll_up(7);
    check(&v);
    v.scroll_to_bottom();
    check(&v);
    v.scroll_to_top();
    check(&v);
    assert_eq!(v.offset(), 0);
}
