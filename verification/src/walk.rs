//! Decisions of the parallel tree walker. The walker itself — directory
//! enumeration across a worker pool — performs filesystem work outside the
//! library; it feeds each candidate directory to the prober and follows the
//! directive computed here.

use vstd::prelude::*;

verus! {

/// How many directory levels below the root the walk descends by default.
pub const DEFAULT_MAX_DEPTH: usize = 4;

/// What the walker does with the subtree below a visited directory.
#[derive(Debug, Clone, Copy, PartialEq, Eq, Structural)]
pub enum WalkDirective {
    /// Keep descending into the directory's children.
    Descend,
    /// Do not descend below this directory.
    SkipSubtree,
    /// Stop the whole walk.
    Abort,
}

/// The directive for a visited directory: once a directory is identified as
/// a repository root — bare or not — its internal tree is never descended
/// into; anything else is descended normally. The walk is never aborted.
pub fn visit_directive(is_repo_root: bool) -> (d: WalkDirective)
    ensures
        d == (if is_repo_root {
            WalkDirective::SkipSubtree
        } else {
            WalkDirective::Descend
        }),
{
    if is_repo_root {
        WalkDirective::SkipSubtree
    } else {
        WalkDirective::Descend
    }
}

/// The worker-pool size for a machine with `cpu_count` hardware threads:
/// twice the available hardware concurrency.
pub fn worker_count(cpu_count: usize) -> (n: usize)
    requires
        cpu_count <= usize::MAX / 2,
    ensures
        n == 2 * cpu_count,
{
    2 * cpu_count
}

} // verus!
