//! The report: per-unit results, running counters, and finalization.
//!
//! Results are appended in evaluation order while the session runs; the
//! statistics are reconciled exactly once at finalization, after which the
//! report admits no further mutation.

use vstd::prelude::*;

verus! {

/// The recorded result of one evaluated unit: its display name and verdict.
pub struct ExerciseResult {
    pub name: String,
    pub result: bool,
}

/// The mathematical content of an [`ExerciseResult`].
pub ghost struct ResultView {
    pub name: Seq<char>,
    pub result: bool,
}

impl View for ExerciseResult {
    type V = ResultView;

    open spec fn view(&self) -> ResultView {
        ResultView { name: self.name@, result: self.result }
    }
}

pub open spec fn result_views(results: Seq<ExerciseResult>) -> Seq<ResultView> {
    results.map(|i: int, r: ExerciseResult| r@)
}

/// The session totals. All counters are reconciled at finalization;
/// `total_time` is the wall-clock duration of the whole session in seconds.
#[derive(Clone, Copy, PartialEq, Eq, Structural, Debug)]
pub struct Statistics {
    pub total_exercises: usize,
    pub total_succeeds: usize,
    pub total_failures: usize,
    pub total_time: u64,
}

/// The structured report: the per-unit results in evaluation order, an
/// optional user name, and the session statistics.
pub struct Report {
    pub exercises: Vec<ExerciseResult>,
    pub user_name: Option<String>,
    pub statistics: Statistics,
}

/// The mathematical content of a [`Report`].
pub ghost struct ReportView {
    pub results: Seq<ResultView>,
    pub user_name: Option<Seq<char>>,
    pub statistics: Statistics,
}

impl View for Report {
    type V = ReportView;

    open spec fn view(&self) -> ReportView {
        ReportView {
            results: result_views(self.exercises@),
            user_name: match self.user_name {
                Some(ref n) => Some(n@),
                None => None,
            },
            statistics: self.statistics,
        }
    }
}

/// How many of the recorded verdicts are successes.
pub open spec fn count_succeeds(results: Seq<ResultView>) -> int
    decreases results.len(),
{
    if results.len() == 0 {
        0
    } else {
        count_succeeds(results.drop_last()) + if results.last().result {
            1int
        } else {
            0int
        }
    }
}

/// How many of the recorded verdicts are failures.
pub open spec fn count_failures(results: Seq<ResultView>) -> int
    decreases results.len(),
{
    if results.len() == 0 {
        0
    } else {
        count_failures(results.drop_last()) + if results.last().result {
            0int
        } else {
            1int
        }
    }
}

/// Every unit counts as exactly one success or one failure.
pub proof fn lemma_counts_partition(results: Seq<ResultView>)
    ensures
        0 <= count_succeeds(results),
        0 <= count_failures(results),
        count_succeeds(results) + count_failures(results) == results.len(),
    decreases results.len(),
{
    if results.len() > 0 {
        lemma_counts_partition(results.drop_last());
    }
}

/// The append-only accumulator of the report. Appending is permitted only
/// before finalization; finalization reconciles the statistics exactly once.
pub struct Aggregator {
    pub report: Report,
    pub finalized: bool,
}

/// The mathematical content of an [`Aggregator`].
pub ghost struct AggregatorView {
    pub report: ReportView,
    pub finalized: bool,
}

impl View for Aggregator {
    type V = AggregatorView;

    open spec fn view(&self) -> AggregatorView {
        AggregatorView { report: self.report@, finalized: self.finalized }
    }
}

/// The running counters always agree with the recorded results, and the
/// reconciled totals are computed exactly once, at finalization.
pub open spec fn agg_wf(a: AggregatorView) -> bool {
    &&& a.report.statistics.total_succeeds == count_succeeds(a.report.results)
    &&& a.report.statistics.total_failures == count_failures(a.report.results)
    &&& !a.finalized ==> a.report.statistics.total_exercises == 0
        && a.report.statistics.total_time == 0
    &&& a.finalized ==> a.report.statistics.total_exercises == a.report.results.len()
}

/// An empty, not yet finalized report.
pub open spec fn spec_empty_agg() -> AggregatorView {
    AggregatorView {
        report: ReportView {
            results: Seq::empty(),
            user_name: None,
            statistics: Statistics {
                total_exercises: 0,
                total_succeeds: 0,
                total_failures: 0,
                total_time: 0,
            },
        },
        finalized: false,
    }
}

/// Appending one result: the result list grows by one entry and the matching
/// counter by one.
pub open spec fn spec_record(a: AggregatorView, name: Seq<char>, result: bool) -> AggregatorView {
    AggregatorView {
        report: ReportView {
            results: a.report.results.push(ResultView { name, result }),
            user_name: a.report.user_name,
            statistics: Statistics {
                total_succeeds: if result {
                    (a.report.statistics.total_succeeds + 1) as usize
                } else {
                    a.report.statistics.total_succeeds
                },
                total_failures: if result {
                    a.report.statistics.total_failures
                } else {
                    (a.report.statistics.total_failures + 1) as usize
                },
                ..a.report.statistics
            },
        },
        finalized: a.finalized,
    }
}

/// Finalization: the total is reconciled as successes plus failures, the
/// elapsed time is set, and no further appends are permitted.
pub open spec fn spec_finalize(a: AggregatorView, elapsed_secs: u64) -> AggregatorView {
    AggregatorView {
        report: ReportView {
            statistics: Statistics {
                total_exercises: (a.report.statistics.total_succeeds
                    + a.report.statistics.total_failures) as usize,
                total_time: elapsed_secs,
                ..a.report.statistics
            },
            ..a.report
        },
        finalized: true,
    }
}

impl Aggregator {
    /// An empty report, ready to accumulate results.
    pub fn new() -> (a: Aggregator)
        ensures
            agg_wf(a@),
            a@ == spec_empty_agg(),
    {
        let a = Aggregator {
            report: Report {
                exercises: Vec::new(),
                user_name: None,
                statistics: Statistics {
                    total_exercises: 0,
                    total_succeeds: 0,
                    total_failures: 0,
                    total_time: 0,
                },
            },
            finalized: false,
        };
        assert(a@.report.results =~= Seq::<ResultView>::empty());
        a
    }

    /// Append the result of one evaluated unit. Only permitted before
    /// finalization.
    pub fn record(&mut self, name: String, result: bool)
        requires
            agg_wf(old(self)@),
            !old(self)@.finalized,
        ensures
            agg_wf(final(self)@),
            final(self)@ == spec_record(old(self)@, name@, result),
    {
        proof {
            lemma_counts_partition(self@.report.results);
        }
        let ghost before = self@.report.results;
        self.report.exercises.push(ExerciseResult { name, result });
        assert(self@.report.results =~= before.push(
            ResultView { name: name@, result },
        ));
        assert(self@.report.results.drop_last() =~= before);
        let n: usize = self.report.exercises.len();
        assert(before.len() == n - 1);
        if result {
            self.report.statistics.total_succeeds = self.report.statistics.total_succeeds + 1;
        } else {
            self.report.statistics.total_failures = self.report.statistics.total_failures + 1;
        }
    }

    /// Reconcile the statistics: the total number of exercises is the sum of
    /// successes and failures, and the elapsed session time is set. After
    /// this, the report admits no further appends.
    pub fn finalize(&mut self, elapsed_secs: u64)
        requires
            agg_wf(old(self)@),
            !old(self)@.finalized,
        ensures
            agg_wf(final(self)@),
            final(self)@ == spec_finalize(old(self)@, elapsed_secs),
            final(self)@.report.statistics.total_exercises == final(self)@.report.statistics.total_succeeds
                + final(self)@.report.statistics.total_failures,
    {
        proof {
            lemma_counts_partition(self@.report.results);
        }
        let n: usize = self.report.exercises.len();
        assert(self@.report.results.len() == n);
        self.report.statistics.total_exercises = self.report.statistics.total_succeeds
            + self.report.statistics.total_failures;
        self.report.statistics.total_time = elapsed_secs;
        self.finalized = true;
    }

    /// The finalized report, for serialization by the caller.
    pub fn report(&self) -> (r: &Report)
        requires
            self@.finalized,
        ensures
            r@ == self@.report,
    {
        &self.report
    }
}

/// Appending one result keeps the counters in step with the recorded
/// results, as long as another result can still be counted.
pub proof fn lemma_record_preserves_wf(a: AggregatorView, name: Seq<char>, result: bool)
    requires
        agg_wf(a),
        !a.finalized,
        a.report.results.len() < usize::MAX,
    ensures
        agg_wf(spec_record(a, name, result)),
        !spec_record(a, name, result).finalized,
        spec_record(a, name, result).report.results.len() == a.report.results.len() + 1,
{
    lemma_counts_partition(a.report.results);
    let pushed = a.report.results.push(ResultView { name, result });
    assert(pushed.drop_last() =~= a.report.results);
}

/// Finalizing reconciles the totals and keeps the counters in step with the
/// recorded results.
pub proof fn lemma_finalize_preserves_wf(a: AggregatorView, elapsed_secs: u64)
    requires
        agg_wf(a),
        !a.finalized,
        a.report.results.len() <= usize::MAX,
    ensures
        agg_wf(spec_finalize(a, elapsed_secs)),
        spec_finalize(a, elapsed_secs).finalized,
{
    lemma_counts_partition(a.report.results);
}

/// After finalization the totals always reconcile: the number of exercises
/// equals the number of successes plus the number of failures.
pub proof fn lemma_totals_reconcile(a: AggregatorView)
    requires
        agg_wf(a),
        a.finalized,
    ensures
        a.report.statistics.total_exercises == a.report.statistics.total_succeeds
            + a.report.statistics.total_failures,
{
    lemma_counts_partition(a.report.results);
}

} // verus!
