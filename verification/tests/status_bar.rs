use nhl_tui::status_bar::MessageStyle;
use nhl_tui::status_bar::{RefreshState, StatusBar, StatusBarWidget, SystemStatus};

const RENDER_WIDTH: u16 = 80;

fn widget(refresh: RefreshState, message: Option<&str>, is_error: bool) -> StatusBarWidget {
    StatusBarWidget {
        refresh,
        refresh_interval: 60,
        status_message: message.map(|m| m.to_string()),
        is_error,
    }
}

#[test]
fn test_status_bar_renders_loading() {
    let status_bar = StatusBar;
    let system_state = SystemStatus {
        refresh: RefreshState::NotLoaded,
        refresh_interval: 60,
        status_message: None,
        status_is_error: false,
    };
    let w = status_bar.view(&system_state);
    let layout = w.layout(RENDER_WIDTH).unwrap();
    // "──...──┬───────────" / "        │ Loading..."
    assert_eq!(layout.right_text, "Loading...");
    assert_eq!(layout.bar_position, 68);
    assert_eq!(layout.right_fill, 11);
    assert_eq!(layout.left_text, "");
    assert_eq!(layout.padding, 68);
}

#[test]
fn test_status_bar_renders() {
    let w = widget(RefreshState::Elapsed(5), None, false);
    let layout = w.layout(RENDER_WIDTH).unwrap();
    assert_eq!(layout.right_text, "Refresh in 55s");
    assert_eq!(layout.bar_position, 64);
    assert_eq!(layout.right_fill, 15);
}

#[test]
fn test_status_bar_with_error_message() {
    let w = widget(RefreshState::Elapsed(5), Some("ERROR: Network timeout"), true);
    let layout = w.layout(RENDER_WIDTH).unwrap();
    assert!(layout.left_text.contains("ERROR: Network timeout"));
    assert!(w.is_error);
}

#[test]
fn test_status_bar_refreshing_state() {
    let w = widget(RefreshState::Elapsed(60), None, false);
    assert_eq!(w.refresh_text(), "Refreshing...");
}

#[test]
fn test_status_bar_future_time() {
    let w = widget(RefreshState::ClockAhead, None, false);
    assert_eq!(w.refresh_text(), "Refresh in ?s");
}

#[test]
fn test_status_bar_clone_box() {
    let widget = StatusBarWidget {
        refresh: RefreshState::Elapsed(0),
        refresh_interval: 60,
        status_message: Some("Test".to_string()),
        is_error: false,
    };

    let _cloned: Box<StatusBarWidget> = widget.clone_box();
    // If we get here, clone_box() worked
}

#[test]
fn test_status_bar_preferred_height() {
    let widget = StatusBarWidget {
        refresh: RefreshState::NotLoaded,
        refresh_interval: 60,
        status_message: None,
        is_error: false,
    };

    assert_eq!(widget.preferred_height(), Some(2));
}

#[test]
fn test_status_bar_with_success_message() {
    let w = widget(RefreshState::Elapsed(5), Some("Configuration saved"), false);
    let layout = w.layout(RENDER_WIDTH).unwrap();
    // " Configuration saved" then spaces up to the bar at column 64
    assert_eq!(layout.bar_position, 64);
    assert_eq!(layout.left_text, "Configuration saved");
    assert_eq!(layout.padding, 44);
    assert_eq!(layout.right_text, "Refresh in 55s");
}

#[test]
fn test_status_bar_clears_previous_status_message() {
    let w = widget(RefreshState::Elapsed(5), None, false);
    let layout = w.layout(RENDER_WIDTH).unwrap();
    assert_eq!(layout.left_text, "");
    assert_eq!(layout.padding, 64);
}

#[test]
fn test_status_bar_with_emoji_in_message() {
    let w = widget(RefreshState::Elapsed(5), Some("Updated 🏒"), false);
    let layout = w.layout(RENDER_WIDTH).unwrap();
    // "Updated " is 8 columns and the emoji 2: the left part takes 11
    assert_eq!(layout.padding, 64 - 11);
}

#[test]
fn test_status_bar_with_cjk_in_message() {
    let w = widget(RefreshState::Elapsed(5), Some("更新完了"), false);
    let layout = w.layout(RENDER_WIDTH).unwrap();
    // four wide characters take 8 columns, plus the leading space
    assert_eq!(layout.padding, 64 - 9);
    assert!(layout.right_text.contains("Refresh in"));
}

#[test]
fn test_status_bar_with_long_unicode_message() {
    let w = widget(
        RefreshState::Elapsed(5),
        Some("Loading players データを読み込み中 🏒🥅"),
        false,
    );
    let layout = w.layout(RENDER_WIDTH).unwrap();
    assert!(layout.bar_position > 0);
}

#[test]
fn status_bar_narrow_area_puts_bar_at_column_zero() {
    let w = widget(RefreshState::Elapsed(5), None, false);
    let layout = w.layout(10).unwrap();
    assert_eq!(layout.bar_position, 0);
    assert_eq!(layout.right_fill, 9);
}

#[test]
fn status_bar_elapsed_is_taken_modulo_32_bits() {
    let w = widget(RefreshState::Elapsed(1u64 << 32), None, false);
    assert_eq!(w.refresh_text(), "Refresh in 60s");
}

#[test]
fn status_bar_error_message_is_drawn_red() {
    let error = widget(RefreshState::NotLoaded, Some("Network down"), true).layout(RENDER_WIDTH).unwrap();
    assert_eq!(error.message_style, MessageStyle::Error);
    assert_eq!(error.left_text, "Network down");
    let plain = widget(RefreshState::NotLoaded, Some("Loaded"), false).layout(RENDER_WIDTH).unwrap();
    assert_eq!(plain.message_style, MessageStyle::Normal);
}
