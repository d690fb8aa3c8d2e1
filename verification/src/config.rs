//! What a run is asked to do.
//!
//! The values arrive decoded and checked from whoever starts the run; the
//! count and the timeout are expected to be positive.

use crate::decimal::{counter_text, decimal_text};
use crate::progress::{expected_events, ProgressSink};
use crate::report::ProbeReportView;
use crate::runner::ProbeRunner;
use vstd::prelude::*;
use vstd::string::StringExecFns;

verus! {

/// What one probe is asked to do.
#[derive(Debug)]
pub struct ProbeConfiguration {
    /// The host to probe.
    pub target: String,
    /// How many echo requests to send.
    pub count: u32,
    /// Seconds to wait. The value is carried along; no probe is cut short
    /// by it.
    pub timeout: u32,
}

impl ProbeConfiguration {
    /// A runner for this probe's target that has seen nothing yet.
    pub fn runner(&self) -> (runner: ProbeRunner)
        ensures
            runner@ == ProbeReportView::empty(self.target@),
    {
        ProbeRunner::new(self.target.clone())
    }
}

/// The command line that a probe runs: the probing program, the count of
/// echo requests, and the target.
pub open spec fn command_text(count: nat, target: Seq<char>) -> Seq<char> {
    "ping -c "@ + decimal_text(count) + " "@ + target
}

/// Puts together the command line of a probe. The count is bound into it;
/// the timeout is not.
pub fn probe_command(probe: &ProbeConfiguration) -> (command: String)
    ensures
        command@ == command_text(probe.count as nat, probe.target@),
{
    let mut command = "ping -c ".to_owned();
    let count = counter_text(probe.count);
    command.append(count.as_str());
    command.append(" ");
    command.append(probe.target.as_str());
    command
}

/// What a whole run is asked to do.
#[derive(Debug)]
pub struct RunConfiguration {
    /// The hosts to probe, in the order they were given. A host given
    /// twice is probed twice.
    pub targets: Vec<String>,
    /// How many echo requests each probe sends.
    pub count: u32,
    /// Seconds each probe is given.
    pub timeout: u32,
}

impl RunConfiguration {
    /// Whether `probe` is the probe of this run's target number `i`.
    pub open spec fn is_probe(&self, i: int, probe: ProbeConfiguration) -> bool {
        &&& probe.target@ == self.targets[i]@
        &&& probe.count == self.count
        &&& probe.timeout == self.timeout
    }

    /// One probe per target, in the order of the targets.
    pub fn probes(&self) -> (probes: Vec<ProbeConfiguration>)
        ensures
            probes.len() == self.targets.len(),
            forall|i: int| 0 <= i < probes.len() ==> self.is_probe(i, #[trigger] probes[i]),
    {
        let mut probes: Vec<ProbeConfiguration> = Vec::new();
        let mut i: usize = 0;
        while i < self.targets.len()
            invariant
                i <= self.targets.len(),
                probes.len() == i,
                forall|k: int| 0 <= k < i ==> self.is_probe(k, #[trigger] probes[k]),
            decreases self.targets.len() - i,
        {
            probes.push(
                ProbeConfiguration {
                    target: self.targets[i].clone(),
                    count: self.count,
                    timeout: self.timeout,
                },
            );
            i = i + 1;
        }
        probes
    }

    /// The sink for this run's progress events. It has counted nothing.
    pub fn progress_sink(&self) -> (sink: ProgressSink)
        ensures
            sink.consumed() == 0,
            sink.expected() == expected_events(self.count as nat, self.targets.len() as nat),
    {
        ProgressSink::new(self.count, self.targets.len())
    }
}

} // verus!
