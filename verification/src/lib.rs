//! Core of a project-scaffolding tool: turning user input into a safe
//! directory name, guarding recursive deletions behind a marker policy,
//! interpreting the outcomes of external commands, and driving the
//! scaffolding workflow as an explicit state machine.

pub mod errors;
pub mod gitcmd;
pub mod guard;
pub mod runner;
pub mod paths;
pub mod sanitize;
pub mod textops;
pub mod workflow;
