//! A dockable "Docker" side panel and a status-bar menu icon for a host
//! editor application: the panel persists its width through a key-value
//! store and reads its dock position from layered settings, and the menu
//! icon routes tagged native menu clicks to a fixed set of application
//! actions.

pub mod menu_bar_icon;
pub mod panel;
pub mod panel_settings;
pub mod persist;
