use vstd::prelude::*;

verus! {

/// Result summary for an ODBC query.
#[derive(Debug, Clone, Copy, PartialEq, Eq, Structural)]
pub struct OdbcQueryResult {
    rows_affected: u64,
}

impl Default for OdbcQueryResult {
    /// The result of a query that affected no rows.
    fn default() -> (r: Self)
        ensures
            r.spec_rows_affected() == 0,
    {
        OdbcQueryResult { rows_affected: 0 }
    }
}

/// Two query results are equal exactly when they report the same number of affected rows; so
/// `new(a) == new(b)` exactly when `a == b`, and `new(0)` is the default result.
pub proof fn lemma_results_equal_by_count(a: OdbcQueryResult, b: OdbcQueryResult)
    ensures
        (a == b) <==> (a.spec_rows_affected() == b.spec_rows_affected()),
{
}

/// The total number of affected rows over a sequence of results.
pub open spec fn total_rows_affected(results: Seq<OdbcQueryResult>) -> int
    decreases results.len(),
{
    if results.len() == 0 {
        0
    } else {
        total_rows_affected(results.drop_last()) + results.last().spec_rows_affected()
    }
}

impl OdbcQueryResult {
    /// The number of rows affected.
    pub closed spec fn spec_rows_affected(self) -> u64 {
        self.rows_affected
    }

    /// Creates a query result with the given affected-row count.
    pub fn new(rows_affected: u64) -> (r: Self)
        ensures
            r.spec_rows_affected() == rows_affected,
    {
        OdbcQueryResult { rows_affected }
    }

    /// Returns the number of rows affected by the query.
    pub fn rows_affected(&self) -> (r: u64)
        ensures
            r == self.spec_rows_affected(),
    {
        self.rows_affected
    }

    /// Adds the affected-row counts of `results` to this one (`Extend<OdbcQueryResult>`).
    pub fn extend_from(&mut self, results: Vec<OdbcQueryResult>)
        requires
            old(self).spec_rows_affected() + total_rows_affected(results@) <= u64::MAX,
        ensures
            final(self).spec_rows_affected() == old(self).spec_rows_affected()
                + total_rows_affected(results@),
    {
        let mut sum: u64 = 0;
        let mut i: usize = 0;
        while i < results.len()
            invariant
                i <= results.len(),
                sum == total_rows_affected(results@.take(i as int)),
                old(self).spec_rows_affected() + total_rows_affected(results@) <= u64::MAX,
                self.rows_affected == old(self).spec_rows_affected(),
            decreases results.len() - i,
        {
            proof {
                assert(results@.take(i + 1).drop_last() =~= results@.take(i as int));
                lemma_total_prefix_bounded(results@, i + 1);
            }
            sum = sum + results[i].rows_affected;
            i += 1;
        }
        assert(results@.take(results.len() as int) =~= results@);
        self.rows_affected = self.rows_affected + sum;
    }
}

/// The total over a prefix never exceeds the total over the whole sequence.
proof fn lemma_total_prefix_bounded(results: Seq<OdbcQueryResult>, n: int)
    requires
        0 <= n <= results.len(),
    ensures
        total_rows_affected(results.take(n)) <= total_rows_affected(results),
    decreases results.len() - n,
{
    if n < results.len() {
        lemma_total_prefix_bounded(results, n + 1);
        assert(results.take(n + 1).drop_last() =~= results.take(n));
    } else {
        assert(results.take(n) =~= results);
    }
}

} // verus!
