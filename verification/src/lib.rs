//! The logic of a tiling Wayland compositor, stated and proved.
pub mod text;
pub mod geometry;
pub mod float;
pub mod animation;
pub mod config;
pub mod decimal;
pub mod state;
pub mod layout;
pub mod screencasting;
pub mod shortcuts;
pub mod shell;
pub mod actions;
pub mod input;
pub mod render;
pub mod render_helpers;
pub mod ipc;
pub mod dbus;
pub mod events;
pub mod ctl;
pub mod session;
