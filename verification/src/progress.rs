//! Counting progress events against the number a run is expected to
//! produce.
//!
//! The sink does not look at what an event says or where it came from. It
//! counts each event and reports the count so far, and it is done once the
//! count has reached the expected total. The expected total is an
//! estimate: a run may end with the sink short of it.

use vstd::arithmetic::div_mod::lemma_div_is_ordered;
use vstd::prelude::*;

verus! {

/// Lines a probe is expected to print besides its echo replies: a header,
/// the packet summary and the round-trip summary.
pub const EXTRA_LINES_PER_TARGET: u128 = 3;

/// The number of progress events a run is expected to produce.
pub open spec fn expected_events(count: nat, targets: nat) -> nat {
    (count + 3) * targets
}

/// A share of `expected` in tenths of a percent, rounded to the nearest
/// tenth (halves upwards).
pub open spec fn tenths_of_percent(consumed: nat, expected: nat) -> nat
    recommends
        expected > 0,
{
    (2000 * consumed + expected) / (2 * expected)
}

/// No run expects more events than this.
pub open spec fn events_limit() -> nat {
    0x2_0000_0000_0000_0000_0000_0000
}

/// Computes the number of progress events a run of `targets` probes with
/// `count` echo requests each is expected to produce.
pub fn expected_progress_events(count: u32, targets: usize) -> (total: u128)
    ensures
        total == expected_events(count as nat, targets as nat),
        total < events_limit(),
{
    let per_target: u128 = count as u128 + EXTRA_LINES_PER_TARGET;
    assert(per_target * (targets as u128) < 0x2_0000_0000_0000_0000_0000_0000) by (nonlinear_arith)
        requires
            per_target <= 0x1_0000_0002,
            targets <= 0xffff_ffff_ffff_ffff,
    ;
    per_target * (targets as u128)
}

/// One step of the display: the count to show, out of how many.
pub struct ProgressUpdate {
    consumed: u128,
    expected: u128,
}

impl ProgressUpdate {
    #[verifier::type_invariant]
    spec fn well_formed(&self) -> bool {
        self.consumed <= self.expected < events_limit()
    }

    /// Events consumed so far, the one that caused this update included.
    pub closed spec fn consumed(&self) -> nat {
        self.consumed as nat
    }

    /// Events expected over the whole run.
    pub closed spec fn expected(&self) -> nat {
        self.expected as nat
    }

    /// Events consumed so far, the one that caused this update included.
    pub fn events_consumed(&self) -> (n: u128)
        ensures
            n == self.consumed(),
            n <= self.expected(),
    {
        proof {
            use_type_invariant(self);
        }
        self.consumed
    }

    /// Events expected over the whole run.
    pub fn events_expected(&self) -> (n: u128)
        ensures
            n == self.expected(),
    {
        self.expected
    }

    /// Whether the count has reached the expected total, so that the sink
    /// wants no more events.
    pub fn done(&self) -> (done: bool)
        ensures
            done == (self.consumed() == self.expected()),
    {
        self.consumed == self.expected
    }

    /// The share to display, in tenths of a percent; nothing when no
    /// events are expected at all.
    pub fn tenths(&self) -> (shown: Option<u128>)
        ensures
            self.expected() == 0 ==> shown is None,
            self.expected() > 0 ==> shown == Some(
                tenths_of_percent(self.consumed(), self.expected()) as u128,
            ),
            shown matches Some(value) ==> value <= 1000,
    {
        proof {
            use_type_invariant(self);
        }
        if self.expected == 0 {
            None
        } else {
            proof {
                lemma_tenths_bounded(self.consumed as nat, self.expected as nat);
            }
            Some((2000 * self.consumed + self.expected) / (2 * self.expected))
        }
    }
}

/// The single consumer of a run's progress events.
pub struct ProgressSink {
    consumed: u128,
    expected: u128,
}

impl ProgressSink {
    #[verifier::type_invariant]
    spec fn well_formed(&self) -> bool {
        self.consumed <= self.expected < events_limit()
    }

    /// Events counted so far.
    pub closed spec fn consumed(&self) -> nat {
        self.consumed as nat
    }

    /// Events expected over the whole run.
    pub closed spec fn expected(&self) -> nat {
        self.expected as nat
    }

    /// Whether the count has reached the expected total.
    pub open spec fn done(&self) -> bool {
        self.consumed() == self.expected()
    }

    /// A sink for a run of `targets` probes with `count` echo requests
    /// each. It has counted nothing.
    pub fn new(count: u32, targets: usize) -> (sink: ProgressSink)
        ensures
            sink.consumed() == 0,
            sink.expected() == expected_events(count as nat, targets as nat),
    {
        ProgressSink { consumed: 0, expected: expected_progress_events(count, targets) }
    }

    /// Takes one event: the event is counted, unless the sink was done
    /// already, and the update shows the count it has brought the sink to.
    pub fn on_event(&mut self) -> (update: ProgressUpdate)
        ensures
            final(self).expected() == old(self).expected(),
            final(self).consumed() == if old(self).done() {
                old(self).consumed()
            } else {
                old(self).consumed() + 1
            },
            final(self).consumed() <= final(self).expected(),
            update.consumed() == final(self).consumed(),
            update.expected() == final(self).expected(),
    {
        proof {
            use_type_invariant(&*self);
        }
        if self.consumed < self.expected {
            self.consumed = self.consumed + 1;
        }
        ProgressUpdate { consumed: self.consumed, expected: self.expected }
    }
}

/// The displayed share never goes down as events are counted.
pub proof fn lemma_tenths_monotone(earlier: nat, later: nat, expected: nat)
    requires
        earlier <= later,
        expected > 0,
    ensures
        tenths_of_percent(earlier, expected) <= tenths_of_percent(later, expected),
{
    lemma_div_is_ordered(
        (2000 * earlier + expected) as int,
        (2000 * later + expected) as int,
        (2 * expected) as int,
    );
}

/// A share never shows as more than 100 percent.
pub proof fn lemma_tenths_bounded(consumed: nat, expected: nat)
    requires
        consumed <= expected,
        expected > 0,
    ensures
        tenths_of_percent(consumed, expected) <= 1000,
{
    lemma_tenths_monotone(consumed, expected, expected);
    let d = 2 * expected;
    assert((2001 * expected) / d <= 1000) by (nonlinear_arith)
        requires
            d == 2 * expected,
            expected > 0,
    ;
}

} // verus!
