//! Verified core of a small desktop-shell: the unsaved-changes flag with its
//! close-confirmation gate, the menu-event dispatcher, and the menu tree the
//! shell installs at startup.
//!
//! Everything platform-bound (the window, the event loop, dialogs) lives
//! outside this crate; the functions here compute decisions and return the
//! effects the platform layer must perform.

pub mod dispatch;
pub mod events;
pub mod gate;
pub mod menu;
pub mod text;
