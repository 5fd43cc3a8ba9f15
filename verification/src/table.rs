//! The result aggregator: the single row table every worker appends to.
//! Rows arrive in publication order; the header row is seeded by whichever
//! contribution comes first, so the table is either empty or holds the
//! header followed by exactly one row per qualifying repository.

use crate::probe::RepoAnalysis;
use crate::render::{changes_sparkline, join_names, joined, sparkline_spec};
use vstd::prelude::*;

verus! {

/// The number of cells per row: two columns without branch analysis, four
/// with it.
pub open spec fn arity(include_branches: bool) -> int {
    if include_branches {
        4
    } else {
        2
    }
}

/// The header row for the active column schema.
pub open spec fn header_spec(include_branches: bool) -> Seq<Seq<char>> {
    if include_branches {
        seq!["repository"@, "changes"@, "ahead"@, "missing"@]
    } else {
        seq!["repository"@, "changes"@]
    }
}

/// The data row one qualifying repository renders to: its path, its change
/// glyph string, and, with branch analysis on, the joined ahead and missing
/// branch-name lists.
pub open spec fn row_spec(path: Seq<char>, a: RepoAnalysis, include_branches: bool) -> Seq<
    Seq<char>,
> {
    if include_branches {
        seq![
            path,
            sparkline_spec(a.commits->0),
            joined(a.branches->0.ahead@.map_values(|s: String| s@)),
            joined(a.branches->0.missing@.map_values(|s: String| s@)),
        ]
    } else {
        seq![path, sparkline_spec(a.commits->0)]
    }
}

/// The shared row table. Workers append qualifying repositories one at a
/// time; the caller guards the table with its own exclusion, so that each
/// append is atomic with respect to the others.
pub struct ReportTable {
    rows: Vec<Vec<String>>,
    include_branches: bool,
}

impl ReportTable {
    /// The rows' contents, cell by cell.
    pub closed spec fn spec_rows(self) -> Seq<Seq<Seq<char>>> {
        self.rows@.map_values(|row: Vec<String>| row@.map_values(|cell: String| cell@))
    }

    /// Whether the table was built with branch analysis on.
    pub closed spec fn spec_include_branches(self) -> bool {
        self.include_branches
    }

    /// How many data rows the table holds: all rows but the header.
    pub open spec fn spec_data_count(self) -> nat {
        if self.spec_rows().len() == 0 {
            0
        } else {
            (self.spec_rows().len() - 1) as nat
        }
    }

    /// Well-formedness: a header row never stands alone, the first row is
    /// always the header, and every row has the schema's arity.
    pub open spec fn wf(self) -> bool {
        &&& self.spec_rows().len() != 1
        &&& self.spec_rows().len() > 0 ==> self.spec_rows()[0] == header_spec(
            self.spec_include_branches(),
        )
        &&& forall|i: int|
            0 <= i < self.spec_rows().len() ==> (#[trigger] self.spec_rows()[i]).len() == arity(
                self.spec_include_branches(),
            )
    }

    /// The empty table for one run's column schema.
    pub fn new(include_branches: bool) -> (t: ReportTable)
        ensures
            t.wf(),
            t.spec_rows().len() == 0,
            t.spec_include_branches() == include_branches,
    {
        let t = ReportTable { rows: Vec::new(), include_branches };
        proof {
            assert(t.spec_rows() =~= Seq::empty());
        }
        t
    }

    /// Appends the row for one qualifying repository, seeding the header row
    /// first when the table is still empty. The header is thereby written
    /// exactly once, before any data row, and each call adds exactly one
    /// data row at the end.
    pub fn push_analysis(&mut self, path: &str, analysis: &RepoAnalysis)
        requires
            old(self).wf(),
            analysis.commits is Some,
            analysis.branches is Some <==> old(self).spec_include_branches(),
        ensures
            final(self).wf(),
            final(self).spec_include_branches() == old(self).spec_include_branches(),
            final(self).spec_data_count() == old(self).spec_data_count() + 1,
            old(self).spec_rows().len() == 0 ==> final(self).spec_rows() == seq![
                header_spec(old(self).spec_include_branches()),
                row_spec(path@, *analysis, old(self).spec_include_branches()),
            ],
            old(self).spec_rows().len() > 0 ==> final(self).spec_rows() == old(
                self,
            ).spec_rows().push(row_spec(path@, *analysis, old(self).spec_include_branches())),
    {
        let ghost rows_before = self.spec_rows();
        if self.rows.len() == 0 {
            let mut header: Vec<String> = Vec::new();
            header.push("repository".to_owned());
            header.push("changes".to_owned());
            if self.include_branches {
                header.push("ahead".to_owned());
                header.push("missing".to_owned());
            }
            proof {
                assert(header@.map_values(|cell: String| cell@) =~= header_spec(
                    self.include_branches,
                ));
            }
            self.rows.push(header);
        }
        let mut row: Vec<String> = Vec::new();
        row.push(path.to_owned());
        let changes = match &analysis.commits {
            Some(c) => c,
            None => vstd::pervasive::unreached(),
        };
        row.push(changes_sparkline(changes));
        if self.include_branches {
            let state = match &analysis.branches {
                Some(b) => b,
                None => vstd::pervasive::unreached(),
            };
            row.push(join_names(&state.ahead));
            row.push(join_names(&state.missing));
        }
        proof {
            assert(row@.map_values(|cell: String| cell@) =~= row_spec(
                path@,
                *analysis,
                self.include_branches,
            ));
        }
        self.rows.push(row);
        proof {
            if rows_before.len() == 0 {
                assert(self.spec_rows() =~= seq![
                    header_spec(self.include_branches),
                    row_spec(path@, *analysis, self.include_branches),
                ]);
            } else {
                assert(self.spec_rows() =~= rows_before.push(
                    row_spec(path@, *analysis, self.include_branches),
                ));
            }
        }
    }

    /// The rows accumulated so far, header first.
    pub fn rows(&self) -> (r: &Vec<Vec<String>>)
        ensures
            r@.map_values(|row: Vec<String>| row@.map_values(|cell: String| cell@))
                == self.spec_rows(),
    {
        &self.rows
    }

    /// How many rows the table holds, the header included.
    pub fn len(&self) -> (n: usize)
        ensures
            n == self.spec_rows().len(),
    {
        self.rows.len()
    }

    /// How many data rows the table holds.
    pub fn data_count(&self) -> (n: usize)
        ensures
            n == self.spec_data_count(),
    {
        if self.rows.len() == 0 {
            0
        } else {
            self.rows.len() - 1
        }
    }
}

/// Row-count invariant: a well-formed table is either empty or holds the
/// header row plus exactly its data rows — one per qualifying repository
/// published into it.
pub proof fn lemma_row_count(t: ReportTable)
    requires
        t.wf(),
    ensures
        t.spec_rows().len() == 0 || t.spec_rows().len() == 1 + t.spec_data_count(),
{
}

} // verus!
