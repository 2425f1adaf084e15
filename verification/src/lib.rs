//! The query engine of a plugin-driven launcher: plugins are asked for
//! matches without blocking, their answers are gathered in arrival order,
//! and the user's choice is handed back to the plugin that owns it.

pub mod aggregate;
pub mod gmatch;
pub mod interface;
pub mod ipc;
pub mod path;
pub mod plugins;
pub mod runtime;
pub mod ui;
pub mod utils;
