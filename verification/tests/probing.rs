use dg::branches::BranchesState;
use dg::probe::{analyze_path, assemble_analysis, probe_candidate};
use dg::status::Changes;

fn unique_path(tag: &str) -> String {
    let nanos = std::time::SystemTime::now()
        .duration_since(std::time::UNIX_EPOCH)
        .unwrap()
        .as_nanos();
    format!("/tmp/dg_{}_{}", tag, nanos)
}

fn empty_commit(repo: &git2::Repository, parents: &[&git2::Commit<'_>]) -> git2::Oid {
    let sig = git2::Signature::now("tester", "tester@example.com").unwrap();
    let tree_id = repo.treebuilder(None).unwrap().write().unwrap();
    let tree = repo.find_tree(tree_id).unwrap();
    repo.commit(Some("HEAD"), &sig, &sig, "step", &tree, parents)
        .unwrap()
}

fn stage_new_file(repo: &git2::Repository, name: &str) {
    let entry = git2::IndexEntry {
        ctime: git2::IndexTime::new(0, 0),
        mtime: git2::IndexTime::new(0, 0),
        dev: 0,
        ino: 0,
        mode: 0o100644,
        uid: 0,
        gid: 0,
        file_size: 0,
        id: git2::Oid::zero(),
        flags: 0,
        flags_extended: 0,
        path: name.as_bytes().to_vec(),
    };
    let mut index = repo.index().unwrap();
    index.add_frombuffer(&entry, b"fresh content").unwrap();
    index.write().unwrap();
}

#[test]
fn clean_decision_without_branches_is_absent() {
    let clean = Changes { modified: 0, new: 0, deleted: 0 };
    assert!(assemble_analysis(None, clean, false, None).is_none());
}

#[test]
fn dirty_decision_without_branches_has_no_branch_state() {
    let dirty = Changes { modified: 2, new: 1, deleted: 0 };
    let a = assemble_analysis(Some("main".to_string()), dirty, false, None).unwrap();
    assert_eq!(a.current_branch, Some("main".to_string()));
    let c = a.commits.unwrap();
    assert_eq!(c.modified, 2);
    assert_eq!(c.new, 1);
    assert_eq!(c.deleted, 0);
    assert!(a.branches.is_none());
}

#[test]
fn clean_repo_with_ahead_branch_is_present() {
    let clean = Changes { modified: 0, new: 0, deleted: 0 };
    let divergence = BranchesState { ahead: vec!["main".to_string()], missing: vec![] };
    let a = assemble_analysis(None, clean, true, Some(divergence)).unwrap();
    assert!(a.commits.unwrap().is_empty());
    let b = a.branches.unwrap();
    assert_eq!(b.ahead, vec!["main".to_string()]);
    assert!(b.missing.is_empty());
}

#[test]
fn clean_repo_with_empty_divergence_is_absent() {
    let clean = Changes { modified: 0, new: 0, deleted: 0 };
    assert!(assemble_analysis(None, clean, true, Some(BranchesState::default())).is_none());
}

#[test]
fn failed_divergence_degrades_to_empty_state() {
    let dirty = Changes { modified: 1, new: 0, deleted: 0 };
    let a = assemble_analysis(None, dirty, true, None).unwrap();
    let b = a.branches.unwrap();
    assert!(b.ahead.is_empty());
    assert!(b.missing.is_empty());
}

#[test]
fn missing_path_is_no_candidate() {
    let path = unique_path("absent");
    assert!(analyze_path(&path, false).is_none());
    assert!(analyze_path(&path, true).is_none());
    let outcome = probe_candidate(&path, false);
    assert!(!outcome.is_repo);
    assert!(outcome.analysis.is_none());
}

#[test]
fn plain_directory_is_no_candidate() {
    assert!(analyze_path("/tmp", false).is_none());
    assert!(!probe_candidate("/tmp", false).is_repo);
}

#[test]
fn clean_repository_is_absent() {
    let path = unique_path("clean");
    let repo = git2::Repository::init(&path).unwrap();
    let a = empty_commit(&repo, &[]);
    let _ = a;
    assert!(analyze_path(&path, false).is_none());
    // The probe still identifies the directory as a repository root.
    let outcome = probe_candidate(&path, false);
    assert!(outcome.is_repo);
    assert!(outcome.analysis.is_none());
}

#[test]
fn bare_repository_is_absent_but_still_a_repo() {
    let path = unique_path("bare");
    git2::Repository::init_bare(&path).unwrap();
    let outcome = probe_candidate(&path, true);
    assert!(outcome.is_repo);
    assert!(outcome.analysis.is_none());
}

#[test]
fn staged_new_file_counts_once_as_new() {
    let path = unique_path("staged");
    let repo = git2::Repository::init(&path).unwrap();
    empty_commit(&repo, &[]);
    stage_new_file(&repo, "newfile.txt");
    let a = analyze_path(&path, false).unwrap();
    let c = a.commits.unwrap();
    assert_eq!(c.modified, 0);
    assert_eq!(c.new, 1);
    assert_eq!(c.deleted, 0);
    assert!(a.branches.is_none());
    assert!(a.current_branch.is_some());
}

#[test]
fn staged_new_file_with_local_only_branch() {
    let path = unique_path("newbranch");
    let repo = git2::Repository::init(&path).unwrap();
    let a = empty_commit(&repo, &[]);
    let commit = repo.find_commit(a).unwrap();
    repo.branch("feature", &commit, true).unwrap();
    stage_new_file(&repo, "newfile.txt");
    let analysis = analyze_path(&path, true).unwrap();
    let c = analysis.commits.unwrap();
    assert_eq!((c.modified, c.new, c.deleted), (0, 1, 0));
    assert!(!c.is_empty());
    let b = analysis.branches.unwrap();
    assert!(b.missing.contains(&"feature".to_string()));
    assert!(b.ahead.is_empty());
}

#[test]
fn branch_ahead_of_upstream_is_reported() {
    let path = unique_path("ahead");
    let repo = git2::Repository::init(&path).unwrap();
    let first = empty_commit(&repo, &[]);
    let first_commit = repo.find_commit(first).unwrap();
    repo.branch("base", &first_commit, true).unwrap();
    empty_commit(&repo, &[&first_commit]);
    let head = repo.head().unwrap();
    let mut head_branch = git2::Branch::wrap(head);
    head_branch.set_upstream(Some("base")).unwrap();
    let analysis = analyze_path(&path, true).unwrap();
    // The working tree is clean: the record is present for the branch state
    // alone.
    assert!(analysis.commits.unwrap().is_empty());
    let head_name = analysis.current_branch.clone().unwrap();
    let b = analysis.branches.unwrap();
    assert!(b.ahead.contains(&head_name));
    assert!(!b.missing.contains(&head_name));
    // The base branch itself has no upstream.
    assert!(b.missing.contains(&"base".to_string()));
    assert!(!b.ahead.contains(&"base".to_string()));
}

#[test]
fn walk_twice_yields_same_rows() {
    let path = unique_path("twice");
    let repo = git2::Repository::init(&path).unwrap();
    empty_commit(&repo, &[]);
    stage_new_file(&repo, "newfile.txt");
    let first = analyze_path(&path, true).unwrap();
    let second = analyze_path(&path, true).unwrap();
    let c1 = first.commits.unwrap();
    let c2 = second.commits.unwrap();
    assert_eq!((c1.modified, c1.new, c1.deleted), (c2.modified, c2.new, c2.deleted));
    let b1 = first.branches.unwrap();
    let b2 = second.branches.unwrap();
    assert_eq!(b1.ahead, b2.ahead);
    assert_eq!(b1.missing, b2.missing);
    assert_eq!(first.current_branch, second.current_branch);
}
