//! Verified core of the Dark Iron client extension: console requests,
//! configuration defaults, archive lookup and loading decisions, and the
//! OpenGL command lists that the extension issues.

pub mod config;
pub mod console;
pub mod data;
pub mod extension;
pub mod graphics;
pub mod hooks;
pub mod macros;
pub mod math;
pub mod script;
pub mod text;
pub mod ui;
