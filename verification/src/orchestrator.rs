//! Bringing the probes of one run together.
//!
//! A run starts one probe per configured target and awaits them in the
//! order they were started. Each probe ends on its own: a failure costs the
//! run that target's report and nothing else.

use crate::report::{ProbeReport, ProbeReportView};
use crate::runner::{ProbeError, ProbeOutcome};
use vstd::prelude::*;

verus! {

/// How many progress events may wait in the channel between the probes
/// and the sink before further ones are dropped.
pub const PROGRESS_CHANNEL_CAPACITY: usize = 10;

/// The views of a run of reports, in order.
pub open spec fn reports_view(reports: Seq<ProbeReport>) -> Seq<ProbeReportView> {
    Seq::new(reports.len(), |i: int| reports[i]@)
}

/// The reports among a run of outcomes, in order.
pub open spec fn successes(outcomes: Seq<ProbeOutcome>) -> Seq<ProbeReportView>
    decreases outcomes.len(),
{
    if outcomes.len() == 0 {
        Seq::empty()
    } else {
        match outcomes.last() {
            Ok(report) => successes(outcomes.drop_last()).push(report@),
            Err(_) => successes(outcomes.drop_last()),
        }
    }
}

/// The errors among a run of outcomes, in order.
pub open spec fn failures(outcomes: Seq<ProbeOutcome>) -> Seq<ProbeError>
    decreases outcomes.len(),
{
    if outcomes.len() == 0 {
        Seq::empty()
    } else {
        match outcomes.last() {
            Ok(_) => failures(outcomes.drop_last()),
            Err(error) => failures(outcomes.drop_last()).push(error),
        }
    }
}

/// The reports of a run, gathered as its probes end.
pub struct ReportCollector {
    reports: Vec<ProbeReport>,
}

impl View for ReportCollector {
    type V = Seq<ProbeReportView>;

    /// The reports gathered so far, in the order they were accepted.
    closed spec fn view(&self) -> Seq<ProbeReportView> {
        reports_view(self.reports@)
    }
}

impl ReportCollector {
    /// A collector that holds nothing.
    pub fn new() -> (collector: ReportCollector)
        ensures
            collector@ == Seq::<ProbeReportView>::empty(),
    {
        let collector = ReportCollector { reports: Vec::new() };
        assert(collector@ =~= Seq::empty());
        collector
    }

    /// Takes the outcome of the next probe. A report is kept; an error is
    /// handed back for the caller to make known, and nothing is kept.
    pub fn accept(&mut self, outcome: ProbeOutcome) -> (failure: Option<ProbeError>)
        ensures
            match outcome {
                Ok(report) => failure is None && final(self)@ == old(self)@.push(report@),
                Err(error) => failure == Some(error) && final(self)@ == old(self)@,
            },
    {
        match outcome {
            Ok(report) => {
                self.reports.push(report);
                assert(reports_view(self.reports@) =~= reports_view(old(self).reports@).push(
                    report@,
                ));
                None
            },
            Err(error) => Some(error),
        }
    }

    /// Hands over what was gathered.
    pub fn into_reports(self) -> (reports: Vec<ProbeReport>)
        ensures
            reports_view(reports@) == self@,
    {
        self.reports
    }
}

/// What a run comes to once every probe has ended.
pub struct RunSummary {
    /// The reports of the probes that succeeded, in start order.
    pub reports: Vec<ProbeReport>,
    /// The errors of the probes that failed, in start order.
    pub failures: Vec<ProbeError>,
}

/// Sorts the outcomes of a run, given in start order, into reports and
/// failures.
pub fn collect_reports(outcomes: Vec<ProbeOutcome>) -> (summary: RunSummary)
    ensures
        reports_view(summary.reports@) == successes(outcomes@),
        summary.failures@ == failures(outcomes@),
{
    let mut collector = ReportCollector::new();
    let mut failed: Vec<ProbeError> = Vec::new();
    let ghost all = outcomes@;
    for outcome in it: outcomes
        invariant
            it.seq() == all,
            collector@ == successes(all.take(it.index() as int)),
            failed@ == failures(all.take(it.index() as int)),
    {
        proof {
            let before = all.take(it.index() as int);
            let after = all.take(it.index() + 1);
            assert(after.drop_last() =~= before);
            assert(after.last() == outcome);
        }
        if let Some(error) = collector.accept(outcome) {
            failed.push(error);
        }
    }
    assert(all.take(all.len() as int) =~= all);
    RunSummary { reports: collector.into_reports(), failures: failed }
}

/// Every probe of a run ends up in exactly one place: its report among
/// the reports if it succeeded, its error among the failures if not. So a
/// run of `n` probes of which `k` failed yields `n - k` reports.
pub proof fn lemma_one_entry_per_probe(outcomes: Seq<ProbeOutcome>)
    ensures
        successes(outcomes).len() + failures(outcomes).len() == outcomes.len(),
    decreases outcomes.len(),
{
    if outcomes.len() > 0 {
        lemma_one_entry_per_probe(outcomes.drop_last());
    }
}

/// When every probe of a run succeeds, there are as many reports as
/// probes.
pub proof fn lemma_all_succeed(outcomes: Seq<ProbeOutcome>)
    requires
        forall|i: int| 0 <= i < outcomes.len() ==> outcomes[i] is Ok,
    ensures
        successes(outcomes).len() == outcomes.len(),
        failures(outcomes).len() == 0,
    decreases outcomes.len(),
{
    if outcomes.len() > 0 {
        let rest = outcomes.drop_last();
        assert(forall|i: int| 0 <= i < rest.len() ==> rest[i] == outcomes[i]);
        lemma_all_succeed(rest);
        assert(outcomes.last() == outcomes[outcomes.len() - 1]);
    }
}

/// The place among the outcomes of the probe whose report stands at
/// place `j` among the reports.
pub open spec fn source_of(outcomes: Seq<ProbeOutcome>, j: int) -> int
    decreases outcomes.len(),
{
    if outcomes.len() == 0 {
        0
    } else if outcomes.last() is Ok && j == successes(outcomes.drop_last()).len() {
        outcomes.len() - 1
    } else {
        source_of(outcomes.drop_last(), j)
    }
}

/// Every report comes from a probe that succeeded, and is that probe's
/// report: there is no entry for a failed probe.
pub proof fn lemma_report_has_source(outcomes: Seq<ProbeOutcome>, j: int)
    requires
        0 <= j < successes(outcomes).len(),
    ensures
        0 <= source_of(outcomes, j) < outcomes.len(),
        outcomes[source_of(outcomes, j)] matches Ok(report) && report@ == successes(outcomes)[j],
    decreases outcomes.len(),
{
    if outcomes.len() > 0 {
        let rest = outcomes.drop_last();
        if outcomes.last() is Ok && j == successes(rest).len() {
        } else {
            lemma_report_has_source(rest, j);
            assert(rest[source_of(rest, j)] == outcomes[source_of(rest, j)]);
        }
    }
}

/// Reports stand in the order their probes were started, and no probe
/// has two of them.
pub proof fn lemma_reports_keep_start_order(outcomes: Seq<ProbeOutcome>, j: int, k: int)
    requires
        0 <= j < k < successes(outcomes).len(),
    ensures
        source_of(outcomes, j) < source_of(outcomes, k),
    decreases outcomes.len(),
{
    if outcomes.len() > 0 {
        let rest = outcomes.drop_last();
        if outcomes.last() is Ok && k == successes(rest).len() {
            lemma_report_has_source(rest, j);
        } else {
            lemma_reports_keep_start_order(rest, j, k);
        }
    }
}

} // verus!
