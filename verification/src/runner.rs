//! The decisions of one probe: what to do with each line its process
//! prints, and what the probe amounts to once the process is gone.
//!
//! Starting the process and reading its output belong to the caller. The
//! caller owns one [`ProbeRunner`] per target, hands it every line as it
//! arrives, forwards the [`ProgressEvent`] it gets back without ever
//! waiting on it, and ends the runner with [`ProbeRunner::finish`],
//! [`ProbeRunner::launch_failed`] or [`ProbeRunner::read_failed`].

use crate::classify::{classification, classify};
use crate::report::{ProbeReport, ProbeReportView};
use vstd::prelude::*;

verus! {

/// One raw line of output, tagged with the target it came from.
#[derive(Debug)]
pub struct ProgressEvent {
    pub target: String,
    pub line: String,
}

/// Why a probe produced no report.
#[derive(Debug)]
pub enum ProbeError {
    /// The process could not be started, or its output could not be
    /// attached.
    Launch { target: String, reason: String },
    /// The process ran and ended with a status other than zero. The status
    /// is absent when the process ended without one.
    Execution { target: String, status: Option<i32> },
    /// Reading the output failed part-way.
    StreamRead { target: String, reason: String },
}

impl ProbeError {
    /// The target whose probe failed.
    pub open spec fn target_view(&self) -> Seq<char> {
        match self {
            ProbeError::Launch { target, .. } => target@,
            ProbeError::Execution { target, .. } => target@,
            ProbeError::StreamRead { target, .. } => target@,
        }
    }

    /// The target whose probe failed.
    pub fn target(&self) -> (target: &str)
        ensures
            target@ == self.target_view(),
    {
        match self {
            ProbeError::Launch { target, .. } => target.as_str(),
            ProbeError::Execution { target, .. } => target.as_str(),
            ProbeError::StreamRead { target, .. } => target.as_str(),
        }
    }
}

/// How a probe ended: with its report, or with the reason there is none.
pub type ProbeOutcome = Result<ProbeReport, ProbeError>;

/// The report a probe ends with, given what it had gathered and the exit
/// status of its process: the report as it stands when the status is zero,
/// whatever was or was not seen; an execution error otherwise.
pub open spec fn outcome_is(
    outcome: ProbeOutcome,
    gathered: ProbeReportView,
    status: Option<i32>,
) -> bool {
    match outcome {
        Ok(report) => status == Some(0i32) && report@ == gathered,
        Err(error) => status != Some(0i32) && (error matches ProbeError::Execution {
            target,
            status: reported,
        } && target@ == gathered.destination && reported == status),
    }
}

/// The state of one probe while its process runs.
pub struct ProbeRunner {
    report: ProbeReport,
}

impl View for ProbeRunner {
    type V = ProbeReportView;

    /// What has been gathered so far.
    closed spec fn view(&self) -> ProbeReportView {
        self.report@
    }
}

impl ProbeRunner {
    /// A runner for `target` that has seen nothing yet.
    pub fn new(target: String) -> (runner: ProbeRunner)
        ensures
            runner@ == ProbeReportView::empty(target@),
    {
        ProbeRunner { report: ProbeReport::new(target) }
    }

    /// The target this runner probes.
    pub fn target(&self) -> (target: &str)
        ensures
            target@ == self@.destination,
    {
        self.report.destination.as_str()
    }

    /// Takes one line of output: the line is classified and recorded, and
    /// comes back tagged with the target, to be forwarded as progress.
    pub fn on_line(&mut self, line: &str) -> (event: ProgressEvent)
        ensures
            final(self)@ == old(self)@.record(classification(line@)),
            event.target@ == old(self)@.destination,
            event.line@ == line@,
    {
        let event = ProgressEvent { target: self.report.destination.clone(), line: line.to_owned() };
        let kind = classify(line);
        self.report.record(kind);
        event
    }

    /// Ends the probe once its process has exited with `status`.
    pub fn finish(self, status: Option<i32>) -> (outcome: ProbeOutcome)
        ensures
            outcome_is(outcome, self@, status),
    {
        match status {
            Some(0) => Ok(self.report),
            _ => Err(ProbeError::Execution { target: self.report.destination, status }),
        }
    }

    /// Ends the probe whose process could not be started.
    pub fn launch_failed(self, reason: String) -> (error: ProbeError)
        ensures
            error matches ProbeError::Launch { target, reason: told } && target@
                == self@.destination && told@ == reason@,
    {
        ProbeError::Launch { target: self.report.destination, reason }
    }

    /// Ends the probe whose output could no longer be read.
    pub fn read_failed(self, reason: String) -> (error: ProbeError)
        ensures
            error matches ProbeError::StreamRead { target, reason: told } && target@
                == self@.destination && told@ == reason@,
    {
        ProbeError::StreamRead { target: self.report.destination, reason }
    }
}

} // verus!
