//! State and menu logic of the status-bar applet.
pub mod state;
pub mod menu;
pub mod tray;
pub mod events;
