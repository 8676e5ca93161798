//! Runs one command, then stages and commits every change it made, with a
//! commit message derived from the command.
//!
//! The library holds the decisions: the commit message and the whole sequence
//! of steps, written as a state machine that a host drives by performing the
//! actions it asks for and reporting what came of them.
pub mod laws;
pub mod session;
pub mod text;
