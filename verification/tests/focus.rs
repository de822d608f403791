use nhl_tui::focus::{FocusManager, FocusableElement, FocusableId, Rect};
use nhl_tui::link::{DocumentLink, LinkTarget};

fn create_test_elements(count: usize) -> Vec<FocusableElement> {
    (0..count)
        .map(|i| FocusableElement {
            id: FocusableId::link(&format!("elem_{}", i)),
            y: i as u16 * 2,
            height: 1,
            rect: Rect::new(0, i as u16 * 2, 10, 1),
            link_target: Some(LinkTarget::Action(format!("action_{}", i))),
            row_position: None,
        })
        .collect()
}

#[test]
fn test_focus_manager_new() {
    let fm = FocusManager::new();

    assert!(fm.is_empty());
    assert_eq!(fm.len(), 0);
    assert_eq!(fm.current_index(), None);
}

#[test]
fn test_add_element() {
    let mut fm = FocusManager::new();
    fm.add_element(FocusableElement::link(
        "link1",
        0,
        10,
        LinkTarget::Action("test".to_string()),
    ));

    assert_eq!(fm.len(), 1);
    assert!(!fm.is_empty());
}

#[test]
fn test_focus_next_empty() {
    let mut fm = FocusManager::new();
    assert!(!fm.focus_next());
    assert_eq!(fm.current_index(), None);
}

#[test]
fn test_focus_next_single_element() {
    let mut fm = FocusManager::new();
    fm.add_element(FocusableElement::link(
        "link1",
        0,
        10,
        LinkTarget::Action("test".to_string()),
    ));

    assert!(fm.focus_next());
    assert_eq!(fm.current_index(), Some(0));

    // Tab again should stay on the same element (wrap)
    assert!(fm.focus_next());
    assert_eq!(fm.current_index(), Some(0));
}

#[test]
fn test_focus_next_multiple_elements() {
    let mut fm = FocusManager::new();
    for elem in create_test_elements(3) {
        fm.add_element(elem);
    }

    assert!(fm.focus_next());
    assert_eq!(fm.current_index(), Some(0));

    assert!(fm.focus_next());
    assert_eq!(fm.current_index(), Some(1));

    assert!(fm.focus_next());
    assert_eq!(fm.current_index(), Some(2));

    // Wrap to first
    assert!(fm.focus_next());
    assert_eq!(fm.current_index(), Some(0));
}

#[test]
fn test_focus_prev_empty() {
    let mut fm = FocusManager::new();
    assert!(!fm.focus_prev());
    assert_eq!(fm.current_index(), None);
}

#[test]
fn test_focus_prev_multiple_elements() {
    let mut fm = FocusManager::new();
    for elem in create_test_elements(3) {
        fm.add_element(elem);
    }

    // First prev goes to last element
    assert!(fm.focus_prev());
    assert_eq!(fm.current_index(), Some(2));

    assert!(fm.focus_prev());
    assert_eq!(fm.current_index(), Some(1));

    assert!(fm.focus_prev());
    assert_eq!(fm.current_index(), Some(0));

    // Wrap to last
    assert!(fm.focus_prev());
    assert_eq!(fm.current_index(), Some(2));
}

#[test]
fn test_get_focused_position() {
    let mut fm = FocusManager::new();
    for elem in create_test_elements(3) {
        fm.add_element(elem);
    }

    assert_eq!(fm.get_focused_position(), None);

    fm.focus_next();
    assert_eq!(fm.get_focused_position(), Some(0));

    fm.focus_next();
    assert_eq!(fm.get_focused_position(), Some(2));
}

#[test]
fn test_get_focused_rect() {
    let mut fm = FocusManager::new();
    fm.add_element(FocusableElement {
        id: FocusableId::link("test"),
        y: 5,
        height: 2,
        rect: Rect::new(3, 5, 15, 2),
        link_target: None,
        row_position: None,
    });

    fm.focus_next();
    let rect = fm.get_focused_rect().unwrap();
    assert_eq!(rect, Rect::new(3, 5, 15, 2));
}

#[test]
fn test_activate_current() {
    let mut fm = FocusManager::new();
    let target = LinkTarget::Document(DocumentLink::team("BOS"));
    fm.add_element(FocusableElement {
        id: FocusableId::link("team_link"),
        y: 0,
        height: 1,
        rect: Rect::new(0, 0, 10, 1),
        link_target: Some(target.clone()),
        row_position: None,
    });

    assert_eq!(fm.activate_current(), None); // No focus yet

    fm.focus_next();
    assert_eq!(fm.activate_current(), Some(target));
}

#[test]
fn test_get_current_link() {
    let mut fm = FocusManager::new();
    let target = LinkTarget::Action("test".to_string());
    fm.add_element(FocusableElement {
        id: FocusableId::link("action_link"),
        y: 0,
        height: 1,
        rect: Rect::new(0, 0, 10, 1),
        link_target: Some(target.clone()),
        row_position: None,
    });

    assert_eq!(fm.get_current_link(), None);

    fm.focus_next();
    assert_eq!(fm.get_current_link(), Some(&target));
}

#[test]
fn focus_test_clear_focus() {
    let mut fm = FocusManager::new();
    for elem in create_test_elements(3) {
        fm.add_element(elem);
    }

    fm.focus_next();
    assert!(fm.current_index().is_some());

    fm.clear_focus();
    assert_eq!(fm.current_index(), None);
}

#[test]
fn test_focus_by_id() {
    let mut fm = FocusManager::new();
    for elem in create_test_elements(3) {
        fm.add_element(elem);
    }

    assert!(fm.focus_by_id(&FocusableId::link("elem_1")));
    assert_eq!(fm.current_index(), Some(1));

    assert!(!fm.focus_by_id(&FocusableId::link("nonexistent")));
    assert_eq!(fm.current_index(), None);
}

#[test]
fn test_focus_by_index() {
    let mut fm = FocusManager::new();
    for elem in create_test_elements(3) {
        fm.add_element(elem);
    }

    assert!(fm.focus_by_index(2));
    assert_eq!(fm.current_index(), Some(2));

    // Invalid index should return false but not change current focus
    assert!(!fm.focus_by_index(10));
    assert_eq!(fm.current_index(), Some(2)); // Focus unchanged
}

#[test]
fn test_did_wrap_forward() {
    let mut fm = FocusManager::new();
    for elem in create_test_elements(3) {
        fm.add_element(elem);
    }

    // Navigate to last element
    fm.focus_by_index(2);
    let prev = fm.current_index();

    fm.focus_next();
    assert!(fm.did_wrap_forward(prev));

    // Normal forward navigation shouldn't be a wrap
    let prev = fm.current_index();
    fm.focus_next();
    assert!(!fm.did_wrap_forward(prev));
}

#[test]
fn test_did_wrap_backward() {
    let mut fm = FocusManager::new();
    for elem in create_test_elements(3) {
        fm.add_element(elem);
    }

    // Navigate to first element
    fm.focus_by_index(0);
    let prev = fm.current_index();

    fm.focus_prev();
    assert!(fm.did_wrap_backward(prev));

    // Normal backward navigation shouldn't be a wrap
    let prev = fm.current_index();
    fm.focus_prev();
    assert!(!fm.did_wrap_backward(prev));
}

#[test]
fn test_focusable_element_link() {
    let target = LinkTarget::Action("test".to_string());
    let elem = FocusableElement::link("my_link", 10, 20, target.clone());

    assert_eq!(elem.id, FocusableId::link("my_link"));
    assert_eq!(elem.y, 10);
    assert_eq!(elem.height, 1);
    assert_eq!(elem.rect, Rect::new(0, 10, 20, 1));
    assert_eq!(elem.link_target, Some(target));
    assert_eq!(elem.row_position, None);
}

#[test]
fn test_focusable_element_table_cell() {
    let target = LinkTarget::Document(DocumentLink::player(12345));
    let rect = Rect::new(5, 10, 15, 1);
    let elem = FocusableElement::table_cell("standings", 3, 2, rect, Some(target.clone()));

    assert_eq!(elem.id, FocusableId::table_cell("standings", 3, 2));
    assert_eq!(elem.y, 10);
    assert_eq!(elem.height, 1);
    assert_eq!(elem.rect, rect);
    assert_eq!(elem.link_target, Some(target));
}

#[test]
fn test_current_element() {
    let mut fm = FocusManager::new();
    for elem in create_test_elements(3) {
        fm.add_element(elem);
    }

    assert!(fm.current_element().is_none());

    fm.focus_next();
    let current = fm.current_element().unwrap();
    assert_eq!(current.id, FocusableId::link("elem_0"));
}

#[test]
fn test_get_focused_height() {
    let mut fm = FocusManager::new();
    fm.add_element(FocusableElement {
        id: FocusableId::link("test"),
        y: 5,
        height: 3,
        rect: Rect::new(0, 5, 10, 3),
        link_target: None,
        row_position: None,
    });

    assert_eq!(fm.get_focused_height(), None);

    fm.focus_next();
    assert_eq!(fm.get_focused_height(), Some(3));
}

#[test]
fn test_elements_accessor() {
    let mut fm = FocusManager::new();
    for elem in create_test_elements(3) {
        fm.add_element(elem);
    }

    let elements = fm.elements();
    assert_eq!(elements.len(), 3);
    assert_eq!(elements[0].id, FocusableId::link("elem_0"));
    assert_eq!(elements[1].id, FocusableId::link("elem_1"));
    assert_eq!(elements[2].id, FocusableId::link("elem_2"));
}

#[test]
fn test_y_positions() {
    let mut fm = FocusManager::new();
    for elem in create_test_elements(3) {
        fm.add_element(elem);
    }

    // Test elements have y positions at 0, 2, 4 (i * 2)
    let positions = fm.y_positions();
    assert_eq!(positions, vec![0, 2, 4]);
}

#[test]
fn test_y_positions_empty() {
    let fm = FocusManager::new();
    assert!(fm.y_positions().is_empty());
}
