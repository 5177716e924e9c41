//! Command routing and session state for an interactive space-trading shell.

pub mod text;
pub mod values;
pub mod grammar;
pub mod command;
pub mod records;
pub mod registry;
pub mod completion;
pub mod repl;
pub mod render;
pub mod config;
pub mod dispatch;
pub mod json;
