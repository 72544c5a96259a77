//! Execution core of a test-matrix runner for an Elm compiler toolchain.
//!
//! A *suite* is a self-contained example program together with a declaration
//! of its expected behaviour.  The runner compiles each suite with one or
//! more compilers at one or more optimization levels, executes the compiled
//! artifact under a runtime, and checks the observed behaviour against the
//! declaration, which may mark certain failures as expected under declared
//! conditions.
//!
//! This crate holds the decision logic of that runner, verified: the
//! condition-evaluation model for expected failures, the two-stage suite
//! declaration, the compile retry policy, the run-outcome classification,
//! the mock network server's script cursor, and the matrix bookkeeping
//! (exit codes, fail-fast flag, artifact retention).  The surrounding
//! process work (spawning compilers and runtimes, the HTTP server, file
//! handling) is left to the embedding program, which feeds plain values in
//! and takes decisions out.

pub mod comments;
pub mod conditions;
pub mod config;
pub mod formatting;
pub mod orchestrate;
pub mod retry;
pub mod server;
pub mod suite;
pub mod text;
