//! The repository prober: decides, for one candidate directory, whether it
//! is a non-bare repository worth reporting, and assembles the analysis
//! record from the status summary and the branch divergence data.

use crate::backend;
use crate::branches::{classify_branches, ahead_names, missing_names, BranchFact, BranchesState, Upstream};
use crate::status::{classify, Changes};
use vstd::prelude::*;

verus! {

/// The analysis of one discovered repository: the checked-out branch, the
/// summary of uncommitted changes, and — when branch analysis was requested —
/// the branch divergence report.
#[derive(Debug, Clone)]
pub struct RepoAnalysis {
    pub current_branch: Option<String>,
    pub commits: Option<Changes>,
    pub branches: Option<BranchesState>,
}

impl Default for RepoAnalysis {
    /// The record with nothing resolved.
    fn default() -> (a: RepoAnalysis)
        ensures
            a.current_branch is None && a.commits is None && a.branches is None,
    {
        RepoAnalysis { current_branch: None, commits: None, branches: None }
    }
}

/// What probing one candidate directory established: whether it is a
/// repository root at all (bare or not), and the analysis record when the
/// repository qualifies for the report.
#[derive(Debug)]
pub struct ProbeOutcome {
    pub is_repo: bool,
    pub analysis: Option<RepoAnalysis>,
}

/// The analysis record qualifies for the report: something is dirty — some
/// path changed, or some branch is ahead of or missing an upstream.
pub open spec fn qualifies(a: RepoAnalysis) -> bool {
    ||| (a.commits matches Some(c) && !c.spec_is_empty())
    ||| (a.branches matches Some(b) && !b.spec_is_empty())
}

/// Gathers the per-branch facts for the divergence analysis: for each local
/// branch, its name and its relation to its upstream. Yields nothing when
/// the branch enumeration, a tip resolution or a descendant query fails;
/// an unreadable upstream counts as "not configured".
fn branch_facts(repo: &git2::Repository) -> Option<Vec<BranchFact>> {
    let branches = match backend::local_branches(repo) {
        Some(b) => b,
        None => { return None },
    };
    let mut facts: Vec<BranchFact> = Vec::new();
    let mut i: usize = 0;
    while i < branches.len()
        invariant
            0 <= i <= branches@.len(),
        decreases branches@.len() - i,
    {
        let branch = &branches[i];
        let name = backend::branch_name(branch);
        let upstream = match backend::branch_upstream(branch) {
            Some(up) => {
                let local_tip = match backend::branch_tip(branch) {
                    Some(t) => t,
                    None => { return None },
                };
                let upstream_tip = match backend::branch_tip(&up) {
                    Some(t) => t,
                    None => { return None },
                };
                match backend::is_descendant_of(repo, local_tip, upstream_tip) {
                    Some(true) => Upstream::Ahead,
                    Some(false) => Upstream::NotAhead,
                    None => { return None },
                }
            },
            None => Upstream::NotConfigured,
        };
        facts.push(BranchFact { name, upstream });
        i = i + 1;
    }
    Some(facts)
}

/// The branch divergence analysis for one repository: branches ahead of
/// their upstream and branches without one, or nothing when the analysis
/// fails as a whole. Whatever the backend answered, a returned report sorts
/// some sequence of per-branch facts by the classifier's rules.
pub fn find_non_pushed(repo: &git2::Repository) -> (r: Option<BranchesState>)
    ensures
        r matches Some(bs) ==> exists|facts: Seq<BranchFact>|
            bs.ahead@.map_values(|s: String| s@) == ahead_names(facts)
                && bs.missing@.map_values(|s: String| s@) == missing_names(facts),
{
    match branch_facts(repo) {
        Some(facts) => {
            let bs = classify_branches(&facts);
            proof {
                assert(bs.ahead@.map_values(|s: String| s@) == ahead_names(facts@)
                    && bs.missing@.map_values(|s: String| s@) == missing_names(facts@));
            }
            Some(bs)
        },
        None => None,
    }
}

/// Assembles the per-repository record from what the queries returned, and
/// decides whether it qualifies for the report.
///
/// With branch analysis off, the record is present exactly when some path
/// changed, and carries no branch state. With branch analysis on, a failed
/// divergence analysis (`divergence` absent) degrades to the empty report,
/// and the record is present exactly when some path changed or some branch
/// is ahead or missing.
pub fn assemble_analysis(
    current_branch: Option<String>,
    changes: Changes,
    include_branches: bool,
    divergence: Option<BranchesState>,
) -> (r: Option<RepoAnalysis>)
    ensures
        r matches Some(a) ==> {
            &&& a.current_branch == current_branch
            &&& a.commits == Some(changes)
            &&& qualifies(a)
        },
        !include_branches ==> {
            &&& (r is Some <==> !changes.spec_is_empty())
            &&& (r matches Some(a) ==> a.branches is None)
        },
        include_branches ==> {
            &&& (r is Some <==> (!changes.spec_is_empty() || (divergence matches Some(b)
                && !b.spec_is_empty())))
            &&& (r matches Some(a) ==> (divergence matches Some(b) ==> a.branches == Some(b)))
            &&& (r matches Some(a) ==> (divergence is None ==> (a.branches matches Some(b)
                && b.spec_is_empty())))
        },
{
    if include_branches {
        let state = match divergence {
            Some(b) => b,
            None => BranchesState::default(),
        };
        if !changes.is_empty() || !state.is_empty() {
            Some(
                RepoAnalysis {
                    current_branch,
                    commits: Some(changes),
                    branches: Some(state),
                },
            )
        } else {
            None
        }
    } else {
        if !changes.is_empty() {
            Some(RepoAnalysis { current_branch, commits: Some(changes), branches: None })
        } else {
            None
        }
    }
}

/// Probes one candidate directory: reports whether it is a repository root
/// at all, and, for a non-bare repository whose status could be read, the
/// assembled analysis when it qualifies. A clean repository is never
/// reported, a failed status query never yields a record, and branch state
/// is attached exactly when branch analysis was requested.
pub fn probe_candidate(path: &str, include_branches: bool) -> (o: ProbeOutcome)
    ensures
        !o.is_repo ==> o.analysis is None,
        o.analysis matches Some(a) ==> {
            &&& a.commits is Some
            &&& qualifies(a)
            &&& (a.branches is Some <==> include_branches)
        },
{
    let repo = match backend::open_repository(path) {
        Some(r) => r,
        None => { return ProbeOutcome { is_repo: false, analysis: None } },
    };
    if repo.is_bare() {
        return ProbeOutcome { is_repo: true, analysis: None };
    }
    let status_bits = match backend::repository_status_bits(&repo) {
        Some(bits) => bits,
        None => { return ProbeOutcome { is_repo: true, analysis: None } },
    };
    let changes = classify(&status_bits);
    let current_branch = match backend::repository_head(&repo) {
        Some(head) => backend::reference_shorthand(&head),
        None => None,
    };
    let divergence = if include_branches {
        find_non_pushed(&repo)
    } else {
        None
    };
    let analysis = assemble_analysis(current_branch, changes, include_branches, divergence);
    ProbeOutcome { is_repo: true, analysis }
}

/// Analyzes the repository rooted at `path`, if any: the probe's analysis
/// record alone, absent whenever the path is no usable non-bare repository
/// or nothing there is dirty.
pub fn analyze_path(path: &str, include_branches: bool) -> (r: Option<RepoAnalysis>)
    ensures
        r matches Some(a) ==> {
            &&& a.commits is Some
            &&& qualifies(a)
            &&& (a.branches is Some <==> include_branches)
        },
{
    let outcome = probe_candidate(path, include_branches);
    outcome.analysis
}

} // verus!
