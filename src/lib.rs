//! A typed command-dispatch router: a FIFO queue of tagged commands is drained
//! and each command is delivered to the one receiver that a registry selects by
//! the command's identifier.

pub mod command;
pub mod receiver;
pub mod queue;
pub mod registry;
pub mod laws;
