//! Builds the command line of a lint run over a workspace, with a curated set
//! of allowed and denied rules, and turns the way the linter's process ended
//! into the run's result. Spawning the process is left to the caller.

pub mod invocation;
pub mod laws;
pub mod outcome;
pub mod rules;
