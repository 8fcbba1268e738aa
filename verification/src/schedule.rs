//! The calendar structure of a payment schedule: the runs of consecutive
//! payments that fall in the same year, over which yearly totals are taken.
use vstd::prelude::*;

verus! {

/// Consecutive payments of one year: the year, the index of the first
/// payment and how many payments follow in that year.
#[derive(Debug, Clone, Copy, PartialEq, Eq, Structural)]
pub struct YearRun {
    pub year: i32,
    pub first: usize,
    pub count: usize,
}

/// `runs` splits the first `n` entries of `years` into maximal runs of
/// equal years: non-empty runs, one after the other from the first index to
/// the `n`-th, each of one year, and neighbouring runs of different years.
pub open spec fn splits_prefix(years: Seq<i32>, n: int, runs: Seq<YearRun>) -> bool {
    &&& (runs.len() == 0 <==> n == 0)
    &&& runs.len() > 0 ==> runs[0].first == 0
    &&& runs.len() > 0 ==> runs.last().first + runs.last().count == n
    &&& forall|k: int| 0 <= k < runs.len() ==> #[trigger] runs[k].count >= 1
    &&& forall|k: int|
        0 <= k < runs.len() - 1 ==> #[trigger] runs[k].first + runs[k].count == runs[k + 1].first
    &&& forall|k: int| 0 <= k < runs.len() - 1 ==> #[trigger] runs[k].year != runs[k + 1].year
    &&& forall|k: int, i: int|
        0 <= k < runs.len() && runs[k].first <= i < runs[k].first + runs[k].count ==> #[trigger] years[i]
            == #[trigger] runs[k].year
}

/// `runs` splits all of `years` into maximal runs of equal years.
pub open spec fn splits_into_runs(years: Seq<i32>, runs: Seq<YearRun>) -> bool {
    splits_prefix(years, years.len() as int, runs)
}

/// A payment of the same year as the last run extends that run.
proof fn lemma_extend_last_run(years: Seq<i32>, n: int, runs: Seq<YearRun>)
    requires
        0 <= n < years.len(),
        n < usize::MAX,
        splits_prefix(years, n, runs),
        runs.len() > 0,
        runs.last().year == years[n],
    ensures
        splits_prefix(
            years,
            n + 1,
            runs.update(
                runs.len() - 1,
                YearRun {
                    year: runs.last().year,
                    first: runs.last().first,
                    count: (runs.last().count + 1) as usize,
                },
            ),
        ),
{
    let last = runs.len() - 1;
    assert(runs.last().count + 1 <= n + 1);
    let after = runs.update(
        last,
        YearRun {
            year: runs.last().year,
            first: runs.last().first,
            count: (runs.last().count + 1) as usize,
        },
    );
    assert forall|k: int, i: int|
        0 <= k < after.len() && after[k].first <= i < after[k].first + after[k].count implies #[trigger] years[i]
            == #[trigger] after[k].year by {
        if k == last {
            if i < n {
                assert(runs[k].first <= i < runs[k].first + runs[k].count);
            }
        } else {
            assert(runs[k] == after[k]);
        }
    }
    assert forall|k: int| 0 <= k < after.len() - 1 implies #[trigger] after[k].first + after[k].count
        == after[k + 1].first by {
        assert(runs[k] == after[k]);
    }
    assert forall|k: int| 0 <= k < after.len() - 1 implies #[trigger] after[k].year != after[k
        + 1].year by {
        assert(runs[k] == after[k]);
    }
}

/// A payment of another year than the last run starts a new run.
proof fn lemma_start_run(years: Seq<i32>, n: int, runs: Seq<YearRun>)
    requires
        0 <= n < years.len(),
        n <= usize::MAX,
        splits_prefix(years, n, runs),
        runs.len() == 0 || runs.last().year != years[n],
    ensures
        splits_prefix(years, n + 1, runs.push(YearRun { year: years[n], first: n as usize, count: 1 })),
{
    let after = runs.push(YearRun { year: years[n], first: n as usize, count: 1 });
    assert forall|k: int, i: int|
        0 <= k < after.len() && after[k].first <= i < after[k].first + after[k].count implies #[trigger] years[i]
            == #[trigger] after[k].year by {
        if k < runs.len() {
            assert(runs[k] == after[k]);
        }
    }
    assert forall|k: int| 0 <= k < after.len() - 1 implies #[trigger] after[k].first + after[k].count
        == after[k + 1].first by {
        assert(runs[k] == after[k]);
    }
    assert forall|k: int| 0 <= k < after.len() - 1 implies #[trigger] after[k].year != after[k
        + 1].year by {
        assert(runs[k] == after[k]);
    }
}

/// Splits the years of a schedule's payments into runs of consecutive
/// payments of the same year.
pub fn year_runs(years: &Vec<i32>) -> (runs: Vec<YearRun>)
    ensures
        splits_into_runs(years@, runs@),
{
    let mut runs: Vec<YearRun> = Vec::new();
    let n = years.len();
    let mut i: usize = 0;
    while i < n
        invariant
            i <= n == years@.len(),
            splits_prefix(years@, i as int, runs@),
        decreases n - i,
    {
        let y = years[i];
        let len = runs.len();
        if len > 0 && runs[len - 1].year == y {
            let last = runs[len - 1];
            proof {
                lemma_extend_last_run(years@, i as int, runs@);
            }
            runs.set(len - 1, YearRun { year: last.year, first: last.first, count: last.count + 1 });
        } else {
            proof {
                lemma_start_run(years@, i as int, runs@);
            }
            runs.push(YearRun { year: y, first: i, count: 1 });
        }
        i = i + 1;
    }
    runs
}

// ---------------------------------------------------------------------------
// Laws
// ---------------------------------------------------------------------------

/// Number of payments counted by a list of runs.
pub open spec fn total_count(runs: Seq<YearRun>) -> int
    decreases runs.len(),
{
    if runs.len() == 0 {
        0
    } else {
        total_count(runs.drop_last()) + runs.last().count
    }
}

/// The first `k` runs count the payments before the `k`-th run starts.
proof fn lemma_total_of_first_runs(years: Seq<i32>, runs: Seq<YearRun>, k: int)
    requires
        splits_into_runs(years, runs),
        0 <= k <= runs.len(),
    ensures
        total_count(runs.take(k)) == (if k == 0 {
            0
        } else {
            runs[k - 1].first + runs[k - 1].count
        }),
    decreases k,
{
    if k > 0 {
        lemma_total_of_first_runs(years, runs, k - 1);
        assert(runs.take(k).drop_last() =~= runs.take(k - 1));
        if k == 1 {
            assert(runs.take(0).len() == 0);
        }
    }
}

/// Yearly runs count every payment exactly once: their counts add up to
/// the number of payments.
pub proof fn runs_count_every_payment(years: Seq<i32>, runs: Seq<YearRun>)
    requires
        splits_into_runs(years, runs),
    ensures
        total_count(runs) == years.len(),
{
    lemma_total_of_first_runs(years, runs, runs.len() as int);
    assert(runs.take(runs.len() as int) =~= runs);
}

/// Payments in date order give runs in strictly increasing years, so each
/// year has one run.
pub proof fn ordered_years_give_increasing_runs(years: Seq<i32>, runs: Seq<YearRun>)
    requires
        splits_into_runs(years, runs),
        forall|i: int, j: int| 0 <= i <= j < years.len() ==> years[i] <= years[j],
    ensures
        forall|k: int| 0 <= k < runs.len() - 1 ==> #[trigger] runs[k].year < runs[k + 1].year,
{
    assert forall|k: int| 0 <= k < runs.len() - 1 implies #[trigger] runs[k].year < runs[k
        + 1].year by {
        let i = runs[k].first as int;
        let j = runs[k + 1].first as int;
        assert(years[i] == runs[k].year);
        assert(years[j] == runs[k + 1].year);
        assert(runs[k + 1].first + runs[k + 1].count <= years.len()) by {
            if k + 1 < runs.len() - 1 {
                lemma_first_run_ends_in_range(years, runs, k + 1);
            }
        }
    }
}

/// Every run ends within the payments.
proof fn lemma_first_run_ends_in_range(years: Seq<i32>, runs: Seq<YearRun>, k: int)
    requires
        splits_into_runs(years, runs),
        0 <= k < runs.len(),
    ensures
        runs[k].first + runs[k].count <= years.len(),
    decreases runs.len() - k,
{
    if k < runs.len() - 1 {
        lemma_first_run_ends_in_range(years, runs, k + 1);
    }
}

} // verus!
