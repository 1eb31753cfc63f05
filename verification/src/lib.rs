//! Core state machine of an interactive terminal file browser.
//!
//! The library models the navigation state: which pane is focused, which
//! entries are selected, how directory changes repopulate the dependent
//! lists, how modal overlays capture input, and how key events are routed.
//! Terminal drawing, raw input and filesystem access stay outside; they hand
//! the library plain values and carry out the actions it returns.

pub mod bookmarks;
pub mod controller;
pub mod list;
pub mod overlay;
pub mod paths;
pub mod preview;
mod text;
pub mod workdir;
