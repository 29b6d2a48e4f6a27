//! Process-wide logging and tracing bootstrap: the decisions it takes (which
//! sinks, which filter, installed at most once) and the line format of its
//! span-aware event formatter.
pub mod format;
pub mod install;
pub mod level;
pub mod setup;
