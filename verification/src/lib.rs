//! Scans a directory tree for version-controlled repositories and summarizes,
//! for each, its uncommitted changes and (optionally) which local branches are
//! ahead of their upstream or have none configured.
//!
//! The verified core is the classification and aggregation logic: mapping raw
//! per-path status flags to a change summary, sorting branch facts into
//! "ahead" and "missing", deciding whether a probed repository qualifies for
//! the report, and appending rows (header first) to the shared result table.
//! Filesystem traversal, terminal rendering and the worker pool live outside
//! the library and only feed it plain values.

pub mod backend;
pub mod branches;
pub mod probe;
pub mod render;
pub mod table;
pub mod walk;

pub use branches::BranchesState;
pub use probe::{analyze_path, RepoAnalysis};
pub use status::Changes;
pub mod status;
