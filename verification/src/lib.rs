//! An exercise grader's evaluation engine.
//!
//! The library holds the decision logic of a grader that walks a tree of
//! programming exercises: classifying each container directory, reducing
//! toolchain outcomes to pass/fail verdicts, stepping a session through its
//! containers in batch or interactive mode, and accumulating results into a
//! finalized report. Everything that touches the outside world (spawning the
//! toolchain, reading directories and the user's input, writing the report)
//! lives in the surrounding binary, which feeds this library plain values.

pub mod classify;
pub mod cleanup;
pub mod errors;
pub mod evaluate;
pub mod interact;
pub mod outcome;
pub mod report;
pub mod session;
