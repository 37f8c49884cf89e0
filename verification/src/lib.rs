//! Verified core of a set of editor workflow features: a minibuffer, a shell
//! command runner, magit-style git popups, fuzzy finders, a project switcher
//! and a vim command line. The views that draw them live outside this crate;
//! everything they decide is computed here.

pub mod text;
pub mod exec_command;
pub mod directory_finder;
pub mod ui;
pub mod git_ui;
pub mod minibuffer;
pub mod command_line;
pub mod open_buffer_finder;
pub mod picker;
pub mod references_picker;
pub mod projectile;
