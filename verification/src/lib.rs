//! Layered shell resolution for a task runner.
//!
//! Source files may declare which shell their commands run under, the command
//! line may override that choice, and the host platform supplies defaults.
//! This crate folds the source-declared directives into a settings snapshot
//! and resolves, deterministically, the single `(command, arguments)` pair
//! that every command will be invoked with.

pub mod config;
pub mod laws;
pub mod literal;
pub mod setting;
pub mod settings;
