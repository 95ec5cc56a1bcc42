//! Control plane of a desktop companion: one window, one tray icon, one
//! running instance.
//!
//! Every stimulus the desktop can deliver (a tray click, a global shortcut, a
//! second launch of the executable, a command-line flag) is resolved to one
//! [`action::Action`], and every action is resolved to an
//! [`window::Outcome`]: the state the window is in afterwards and the effects
//! the host has to perform to get it there. The crate performs no input or
//! output of its own; the host observes the window, asks the crate what to do,
//! and does it.

pub mod action;
pub mod instance;
pub mod registry;
pub mod settings;
pub mod shortcut;
pub mod store;
pub mod text;
pub mod tray;
pub mod window;
