//! Heuristic analysis of a frontend project tree.
//!
//! The library inspects an in-memory snapshot of a project's source tree and
//! produces one report per practice area (screens, storage, API use, and so
//! on), based on case-sensitive text-pattern evidence found in file contents.
//! Reading the tree from disk, rendering the reports and the process exit
//! convention are left to the surrounding program.

pub mod analyzer;
pub mod checks;
pub mod laws;
pub mod report;
pub mod numfmt;
pub mod regexes;
pub mod text;
pub mod tree;
