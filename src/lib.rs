//! Detects which language ecosystems a project directory uses and runs each
//! ecosystem's ordered sequence of verification commands, collecting a
//! pass/fail report.
//!
//! The library holds the decisions: the marker registry and the hook catalog,
//! marker matching, the sequencing of hook runs and the aggregation of their
//! outcomes. Spawning processes, touching the filesystem and printing are left
//! to the caller, which hands back plain values.

pub mod detect;
pub mod hooks;
pub mod language;
pub mod license;
pub mod network;
pub mod report;
pub mod runner;
pub mod text;
pub mod uvd;
