//! Branch divergence: sorting the local branches of one repository into those
//! strictly ahead of their configured upstream and those with no upstream.

use vstd::prelude::*;

verus! {

/// What is known of a local branch's relation to its upstream.
#[derive(Debug, Clone, Copy, PartialEq, Eq, Structural)]
pub enum Upstream {
    /// No upstream is configured for the branch.
    NotConfigured,
    /// The branch tip is a strict descendant of its upstream tip.
    Ahead,
    /// The branch has an upstream and is not strictly ahead of it (in sync,
    /// behind, or diverged — these are not distinguished).
    NotAhead,
}

/// The facts the analyzer gathers about one local branch: its short name, if
/// one could be read, and its relation to its upstream.
#[derive(Debug, Clone)]
pub struct BranchFact {
    pub name: Option<String>,
    pub upstream: Upstream,
}

/// The branch is reported as "ahead": strictly ahead of its upstream and
/// carrying a readable name.
pub open spec fn ahead_fact(f: BranchFact) -> bool {
    f.upstream is Ahead && f.name is Some
}

/// The branch is reported as "missing": no upstream configured and carrying
/// a readable name.
pub open spec fn missing_fact(f: BranchFact) -> bool {
    f.upstream is NotConfigured && f.name is Some
}

/// The names of the branches reported as ahead, in enumeration order.
pub open spec fn ahead_names(facts: Seq<BranchFact>) -> Seq<Seq<char>>
    decreases facts.len(),
{
    if facts.len() == 0 {
        Seq::empty()
    } else {
        ahead_names(facts.drop_last()) + (if ahead_fact(facts.last()) {
            seq![facts.last().name->0@]
        } else {
            Seq::empty()
        })
    }
}

/// The names of the branches reported as missing an upstream, in enumeration
/// order.
pub open spec fn missing_names(facts: Seq<BranchFact>) -> Seq<Seq<char>>
    decreases facts.len(),
{
    if facts.len() == 0 {
        Seq::empty()
    } else {
        missing_names(facts.drop_last()) + (if missing_fact(facts.last()) {
            seq![facts.last().name->0@]
        } else {
            Seq::empty()
        })
    }
}

/// Which local branches have unpushed content: `ahead` holds the names of
/// branches strictly ahead of their upstream, `missing` the names of branches
/// with no upstream configured at all.
#[derive(Debug, Clone)]
pub struct BranchesState {
    pub ahead: Vec<String>,
    pub missing: Vec<String>,
}

impl BranchesState {
    /// The two name lists as one mathematical count.
    pub open spec fn spec_total(self) -> int {
        self.ahead@.len() + self.missing@.len() as int
    }

    /// No branch is ahead and none lacks an upstream.
    #[verifier::inline]
    pub open spec fn spec_is_empty(self) -> bool {
        self.spec_total() == 0
    }

    /// True exactly when both name lists are empty.
    pub fn is_empty(&self) -> (r: bool)
        ensures
            r <==> self.spec_is_empty(),
    {
        self.ahead.len() == 0 && self.missing.len() == 0
    }

    /// How many branch names are reported over both lists.
    pub fn total(&self) -> (t: usize)
        requires
            self.spec_total() <= usize::MAX,
        ensures
            t == self.spec_total(),
    {
        self.ahead.len() + self.missing.len()
    }
}

impl Default for BranchesState {
    /// The empty divergence report.
    fn default() -> (b: BranchesState)
        ensures
            b.ahead@ =~= Seq::<String>::empty() && b.missing@ =~= Seq::<String>::empty(),
    {
        BranchesState { ahead: Vec::new(), missing: Vec::new() }
    }
}

/// Sorts per-branch facts into the two report lists, keeping enumeration
/// order: ahead branches with a name go to `ahead`, branches without an
/// upstream and with a name go to `missing`, every other branch to neither.
pub fn classify_branches(facts: &Vec<BranchFact>) -> (r: BranchesState)
    ensures
        r.ahead@.map_values(|s: String| s@) == ahead_names(facts@),
        r.missing@.map_values(|s: String| s@) == missing_names(facts@),
{
    let mut ahead: Vec<String> = Vec::new();
    let mut missing: Vec<String> = Vec::new();
    let mut i: usize = 0;
    while i < facts.len()
        invariant
            0 <= i <= facts@.len(),
            ahead@.map_values(|s: String| s@) == ahead_names(facts@.take(i as int)),
            missing@.map_values(|s: String| s@) == missing_names(facts@.take(i as int)),
        decreases facts@.len() - i,
    {
        proof {
            assert(facts@.take(i + 1).drop_last() =~= facts@.take(i as int));
            assert(facts@.take(i + 1).last() == facts@[i as int]);
        }
        let ghost ahead_before = ahead@;
        let ghost missing_before = missing@;
        match facts[i].upstream {
            Upstream::Ahead => {
                if let Some(n) = &facts[i].name {
                    ahead.push(n.clone());
                    proof {
                        assert(ahead@.map_values(|s: String| s@) =~= ahead_before.map_values(
                            |s: String| s@,
                        ).push(facts@[i as int].name->0@));
                    }
                }
            },
            Upstream::NotConfigured => {
                if let Some(n) = &facts[i].name {
                    missing.push(n.clone());
                    proof {
                        assert(missing@.map_values(|s: String| s@) =~= missing_before.map_values(
                            |s: String| s@,
                        ).push(facts@[i as int].name->0@));
                    }
                }
            },
            Upstream::NotAhead => {},
        }
        proof {
            assert(ahead@.map_values(|s: String| s@) =~= ahead_names(facts@.take(i + 1)));
            assert(missing@.map_values(|s: String| s@) =~= missing_names(facts@.take(i + 1)));
        }
        i = i + 1;
    }
    proof {
        assert(facts@.take(facts@.len() as int) =~= facts@);
    }
    BranchesState { ahead, missing }
}

/// A name stands in the ahead list exactly when some branch fact is ahead
/// and carries that name.
pub proof fn lemma_ahead_names_membership(facts: Seq<BranchFact>, n: Seq<char>)
    ensures
        ahead_names(facts).contains(n) <==> exists|i: int|
            0 <= i < facts.len() && ahead_fact(#[trigger] facts[i]) && facts[i].name->0@ == n,
    decreases facts.len(),
{
    if facts.len() > 0 {
        lemma_ahead_names_membership(facts.drop_last(), n);
        let prefix = facts.drop_last();
        if ahead_names(facts).contains(n) {
            if !(ahead_fact(facts.last()) && facts.last().name->0@ == n) {
                let j = choose|j: int|
                    0 <= j < prefix.len() && ahead_fact(#[trigger] prefix[j]) && prefix[j].name->0@
                        == n;
                assert(facts[j] == prefix[j]);
            } else {
                assert(ahead_fact(facts[facts.len() - 1]) && facts[facts.len() - 1].name->0@ == n);
            }
        }
        if exists|i: int|
            0 <= i < facts.len() && ahead_fact(#[trigger] facts[i]) && facts[i].name->0@ == n {
            let i = choose|i: int|
                0 <= i < facts.len() && ahead_fact(#[trigger] facts[i]) && facts[i].name->0@ == n;
            if i < facts.len() - 1 {
                assert(prefix[i] == facts[i]);
                assert(ahead_names(prefix).contains(n));
                let k = choose|k: int| 0 <= k < ahead_names(prefix).len() && ahead_names(prefix)[k] == n;
                assert(ahead_names(facts)[k] == n);
            } else {
                assert(ahead_names(facts).last() == n);
            }
        }
    }
}

/// A name stands in the missing list exactly when some branch fact has no
/// upstream and carries that name.
pub proof fn lemma_missing_names_membership(facts: Seq<BranchFact>, n: Seq<char>)
    ensures
        missing_names(facts).contains(n) <==> exists|i: int|
            0 <= i < facts.len() && missing_fact(#[trigger] facts[i]) && facts[i].name->0@ == n,
    decreases facts.len(),
{
    if facts.len() > 0 {
        lemma_missing_names_membership(facts.drop_last(), n);
        let prefix = facts.drop_last();
        if missing_names(facts).contains(n) {
            if !(missing_fact(facts.last()) && facts.last().name->0@ == n) {
                let j = choose|j: int|
                    0 <= j < prefix.len() && missing_fact(#[trigger] prefix[j])
                        && prefix[j].name->0@ == n;
                assert(facts[j] == prefix[j]);
            } else {
                assert(missing_fact(facts[facts.len() - 1]) && facts[facts.len() - 1].name->0@
                    == n);
            }
        }
        if exists|i: int|
            0 <= i < facts.len() && missing_fact(#[trigger] facts[i]) && facts[i].name->0@ == n {
            let i = choose|i: int|
                0 <= i < facts.len() && missing_fact(#[trigger] facts[i]) && facts[i].name->0@
                    == n;
            if i < facts.len() - 1 {
                assert(prefix[i] == facts[i]);
                assert(missing_names(prefix).contains(n));
                let k = choose|k: int|
                    0 <= k < missing_names(prefix).len() && missing_names(prefix)[k] == n;
                assert(missing_names(facts)[k] == n);
            } else {
                assert(missing_names(facts).last() == n);
            }
        }
    }
}

/// A branch strictly ahead of its upstream is reported in `ahead`; as long
/// as no other branch fact without an upstream shares its name — branch
/// names are unique within one repository — it is never reported in
/// `missing`.
pub proof fn lemma_ahead_branch_reported(facts: Seq<BranchFact>, i: int)
    requires
        0 <= i < facts.len(),
        ahead_fact(facts[i]),
        forall|j: int|
            0 <= j < facts.len() && missing_fact(#[trigger] facts[j]) ==> facts[j].name->0@
                != facts[i].name->0@,
    ensures
        ahead_names(facts).contains(facts[i].name->0@),
        !missing_names(facts).contains(facts[i].name->0@),
{
    lemma_ahead_names_membership(facts, facts[i].name->0@);
    lemma_missing_names_membership(facts, facts[i].name->0@);
}

/// A branch with no configured upstream is reported in `missing`; as long as
/// no other branch fact that is ahead shares its name — branch names are
/// unique within one repository — it is never reported in `ahead`.
pub proof fn lemma_missing_branch_reported(facts: Seq<BranchFact>, i: int)
    requires
        0 <= i < facts.len(),
        missing_fact(facts[i]),
        forall|j: int|
            0 <= j < facts.len() && ahead_fact(#[trigger] facts[j]) ==> facts[j].name->0@
                != facts[i].name->0@,
    ensures
        missing_names(facts).contains(facts[i].name->0@),
        !ahead_names(facts).contains(facts[i].name->0@),
{
    lemma_ahead_names_membership(facts, facts[i].name->0@);
    lemma_missing_names_membership(facts, facts[i].name->0@);
}

} // verus!
