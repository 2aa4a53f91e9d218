//! Command interception, the `exec` builtin and output capture for an embeddable shell.

pub mod capture;
pub mod commands;
pub mod completed;
pub mod error;
pub mod exec;
pub mod extensions;
pub mod host;
pub mod outcome;
pub mod settings;
pub mod shell;
pub mod text;
