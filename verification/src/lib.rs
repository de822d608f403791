//! Document, focus and table logic of a terminal NHL statistics viewer.
//!
//! The library holds the layout and navigation rules of the viewer: the
//! viewport that scrolls a document, the focus manager that cycles through the
//! focusable elements of a document, the document element tree and its
//! heights, the generic statistics table, and the decision logic of the tabs.
//! Drawing to a terminal buffer stays with the caller.

pub mod action;
pub mod app;
pub mod breadcrumb;
pub mod builder;
pub mod demo_tab;
pub mod document;
pub mod elements;
pub mod focus;
pub mod handlers;
pub mod link;
pub mod list_modal;
pub mod nav;
pub mod panels;
pub mod player_detail;
pub mod scores_grid;
pub mod scores_tab;
pub mod settings_tab;
pub mod standings;
pub mod standings_tab;
pub mod stats_tables;
pub mod status_bar;
pub mod table;
pub mod tabbed_panel;
pub mod team_detail;
pub mod text;
pub mod viewport;

pub use viewport::{Viewport, ViewportState};
