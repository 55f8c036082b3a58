//! Command resolution and dispatch for a small interactive shell.
//!
//! The crate classifies the first word of an input line as a built-in, an
//! external executable or an unrecognized name, runs the built-ins against an
//! explicit shell state, and tells its caller which effect to carry out.
//! Reading lines, listing directories, spawning processes and printing are
//! left to the caller.

pub mod command;
pub mod path;
pub mod locator;
pub mod classifier;
pub mod words;
pub mod builtins;
pub mod shell;
pub mod laws;
