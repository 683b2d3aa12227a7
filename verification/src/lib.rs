//! The decision logic of a utility that brings the mouse cursor, and the
//! window in front, back to the primary display: the hotkey configuration,
//! key-name parsing, geometry, the settings form, the tray menu, the startup
//! registration outcome and the window-message dispatch.
pub mod text;
pub mod config;
pub mod hotkey;
pub mod monitor;
pub mod window;
pub mod settings_ui;
pub mod startup;
pub mod tray;
pub mod daemon;
