//! Command-execution bridge core for a native version-control client engine.
//!
//! The engine itself is an opaque, separately linked runtime with a mandatory
//! lifecycle protocol: library initialization, session setup, argument
//! binding, one command run, session finalization, library shutdown, with an
//! error sentinel inspected after every step.  This crate holds the part of
//! that bridge that can be reasoned about: marshaling process arguments into
//! null-terminated byte strings, the models of the engine's sentinel and
//! message-buffer surface, and the lifecycle orchestrator that decides, step
//! by step, which engine call comes next and what happens on failure.  A thin
//! runner owns the actual engine handles and performs each requested call,
//! handing the outcome back to the orchestrator.

pub mod args;
pub mod buffer;
pub mod orchestrator;
