//! Windows: how they are moved, resized, decorated and closed.
pub mod closing_window;
pub mod element;
pub mod grabs;
pub mod ssd;
pub mod xdg;
