//! Terminal session multiplexer of a desktop backend: a registry of
//! PTY-backed shell sessions, the commands that create, write to, resize and
//! destroy them, and the decisions of the task that streams their output.
//! Beside it, the records of the project state with the normalisation of
//! older layouts, what the directory watcher reports, the selection of state
//! backups, the reading of command line tool output and the usage settings.
pub mod pty;
pub mod registry;
pub mod stream;
pub mod commands;
pub mod state;
pub mod watcher;
pub mod backups;
pub mod github;
pub mod usage_config;
