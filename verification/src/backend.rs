//! The repository backend: declarations and trusted wrappers for the
//! repository object model the prober and the branch analyzer query. Each
//! wrapper makes one backend call and hands back plain values (or opaque
//! handles); what those values are depends on the repository on disk, so the
//! wrappers promise nothing of their results, and the verified logic states
//! what holds for every value they could return.

use vstd::prelude::*;

verus! {

#[verifier::external_type_specification]
#[verifier::external_body]
pub struct ExRepository(git2::Repository);

#[verifier::external_type_specification]
#[verifier::external_body]
pub struct ExBranch<'a>(git2::Branch<'a>);

#[verifier::external_type_specification]
#[verifier::external_body]
pub struct ExReference<'a>(git2::Reference<'a>);

#[verifier::external_type_specification]
#[verifier::external_body]
pub struct ExOid(git2::Oid);

/// Relies on git2::Repository::is_bare: whether the repository has no
/// working tree.
pub assume_specification [ git2::Repository::is_bare ](repo: &git2::Repository) -> bool;

/// Relies on git2::Repository::open: yields the repository rooted at `path`,
/// or nothing when the path does not exist or holds no repository.
#[verifier::external_body]
pub(crate) fn open_repository(path: &str) -> Option<git2::Repository> {
    git2::Repository::open(path).ok()
}

/// Relies on git2::Repository::statuses, queried with ignored files
/// excluded, submodules excluded and untracked files included: one raw
/// status-flag set per changed path, or nothing when the status query fails.
#[verifier::external_body]
pub(crate) fn repository_status_bits(repo: &git2::Repository) -> Option<Vec<u32>> {
    let mut opts = git2::StatusOptions::new();
    opts.include_ignored(false);
    opts.exclude_submodules(true);
    opts.include_untracked(true);
    match repo.statuses(Some(&mut opts)) {
        Ok(statuses) => Some(statuses.iter().map(|e| e.status().bits()).collect()),
        Err(_) => None,
    }
}

/// Relies on git2::Repository::head: the currently checked-out reference,
/// or nothing when the head cannot be resolved.
#[verifier::external_body]
pub(crate) fn repository_head<'r>(repo: &'r git2::Repository) -> Option<git2::Reference<'r>> {
    repo.head().ok()
}

/// Relies on git2::Reference::shorthand: the reference's short name, when it
/// is valid UTF-8.
#[verifier::external_body]
pub(crate) fn reference_shorthand(reference: &git2::Reference<'_>) -> Option<String> {
    match reference.shorthand() {
        Ok(name) => Some(name.to_string()),
        Err(_) => None,
    }
}

/// Relies on git2::Repository::branches filtered to local branches: the
/// repository's local branches in enumeration order, or nothing when the
/// enumeration cannot be obtained.
#[verifier::external_body]
pub(crate) fn local_branches<'r>(repo: &'r git2::Repository) -> Option<Vec<git2::Branch<'r>>> {
    match repo.branches(Some(git2::BranchType::Local)) {
        Ok(branches) => Some(branches.filter_map(Result::ok).map(|(b, _)| b).collect()),
        Err(_) => None,
    }
}

/// Relies on git2::Branch::name: the branch's short name, when it exists
/// and is valid UTF-8.
#[verifier::external_body]
pub(crate) fn branch_name(branch: &git2::Branch<'_>) -> Option<String> {
    match branch.name() {
        Ok(Some(name)) => Some(name.to_string()),
        _ => None,
    }
}

/// Relies on git2::Branch::upstream: the remote-tracking branch configured
/// for a local branch, or nothing when none is configured or it cannot be
/// read.
#[verifier::external_body]
pub(crate) fn branch_upstream<'r>(branch: &git2::Branch<'r>) -> Option<git2::Branch<'r>> {
    branch.upstream().ok()
}

/// Relies on git2::Reference::peel_to_commit on the branch's reference and
/// git2::Commit::id: the id of the commit at the branch tip, or nothing when
/// the reference does not peel to a commit.
#[verifier::external_body]
pub(crate) fn branch_tip(branch: &git2::Branch<'_>) -> Option<git2::Oid> {
    branch.get().peel_to_commit().ok().map(|commit| commit.id())
}

/// Relies on git2::Repository::graph_descendant_of: whether `commit` is a
/// strict descendant of `ancestor` (equal commits are not), or nothing when
/// the commit graph cannot be walked.
#[verifier::external_body]
pub(crate) fn is_descendant_of(
    repo: &git2::Repository,
    commit: git2::Oid,
    ancestor: git2::Oid,
) -> Option<bool> {
    repo.graph_descendant_of(commit, ancestor).ok()
}

} // verus!
