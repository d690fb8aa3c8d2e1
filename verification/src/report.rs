//! What a probe of one target yields: its echo replies and the two
//! summaries printed at the end of a run.

use crate::decimal::Decimal;
use vstd::prelude::*;

verus! {

/// One answered echo request.
#[derive(Debug)]
pub struct EchoReply {
    /// Size of the reply in bytes.
    pub bytes: u32,
    /// Sequence number of the request that was answered.
    pub sequence: u32,
    /// Time-to-live of the reply.
    pub ttl: u32,
    /// Round-trip time in milliseconds.
    pub time: Decimal,
}

/// The mathematical content of an [`EchoReply`].
pub struct EchoReplyView {
    pub bytes: u32,
    pub sequence: u32,
    pub ttl: u32,
    pub time: Seq<char>,
}

impl View for EchoReply {
    type V = EchoReplyView;

    open spec fn view(&self) -> EchoReplyView {
        EchoReplyView { bytes: self.bytes, sequence: self.sequence, ttl: self.ttl, time: self.time@ }
    }
}

/// The packet counters of a finished run.
#[derive(Debug)]
pub struct PacketStatistics {
    /// Requests sent.
    pub transmitted: u32,
    /// Replies received.
    pub received: u32,
    /// Share of requests left unanswered, in percent.
    pub loss_percent: Decimal,
}

/// The mathematical content of a [`PacketStatistics`].
pub struct PacketStatisticsView {
    pub transmitted: u32,
    pub received: u32,
    pub loss_percent: Seq<char>,
}

impl View for PacketStatistics {
    type V = PacketStatisticsView;

    open spec fn view(&self) -> PacketStatisticsView {
        PacketStatisticsView {
            transmitted: self.transmitted,
            received: self.received,
            loss_percent: self.loss_percent@,
        }
    }
}

/// The round-trip timing of a finished run, all in milliseconds.
#[derive(Debug)]
pub struct RoundTripStatistics {
    pub min: Decimal,
    pub avg: Decimal,
    pub max: Decimal,
    /// Spread of the round-trip times, whether the probe labelled it as
    /// standard deviation or as mean deviation.
    pub stddev: Decimal,
}

/// The mathematical content of a [`RoundTripStatistics`].
pub struct RoundTripStatisticsView {
    pub min: Seq<char>,
    pub avg: Seq<char>,
    pub max: Seq<char>,
    pub stddev: Seq<char>,
}

impl View for RoundTripStatistics {
    type V = RoundTripStatisticsView;

    open spec fn view(&self) -> RoundTripStatisticsView {
        RoundTripStatisticsView {
            min: self.min@,
            avg: self.avg@,
            max: self.max@,
            stddev: self.stddev@,
        }
    }
}

/// What one line of probe output turned out to be.
#[derive(Debug)]
pub enum LineKind {
    /// An answered echo request.
    Echo(EchoReply),
    /// The packet counters.
    Packets(PacketStatistics),
    /// The round-trip timing.
    RoundTrip(RoundTripStatistics),
    /// Anything else.
    Unrecognized,
}

/// The mathematical content of a [`LineKind`].
pub enum LineKindView {
    Echo(EchoReplyView),
    Packets(PacketStatisticsView),
    RoundTrip(RoundTripStatisticsView),
    Unrecognized,
}

impl View for LineKind {
    type V = LineKindView;

    open spec fn view(&self) -> LineKindView {
        match self {
            LineKind::Echo(reply) => LineKindView::Echo(reply@),
            LineKind::Packets(packets) => LineKindView::Packets(packets@),
            LineKind::RoundTrip(trips) => LineKindView::RoundTrip(trips@),
            LineKind::Unrecognized => LineKindView::Unrecognized,
        }
    }
}

/// The views of a run of echo replies, in order.
pub open spec fn replies_view(replies: Seq<EchoReply>) -> Seq<EchoReplyView> {
    Seq::new(replies.len(), |i: int| replies[i]@)
}

/// Everything learnt about one target.
#[derive(Debug)]
pub struct ProbeReport {
    /// The target as it was configured.
    pub destination: String,
    /// The echo replies, in the order the probe printed them.
    pub replies: Vec<EchoReply>,
    /// The packet counters, once their line was seen.
    pub packets: Option<PacketStatistics>,
    /// The round-trip timing, once its line was seen.
    pub round_trip: Option<RoundTripStatistics>,
}

/// The mathematical content of a [`ProbeReport`].
pub struct ProbeReportView {
    pub destination: Seq<char>,
    pub replies: Seq<EchoReplyView>,
    pub packets: Option<PacketStatisticsView>,
    pub round_trip: Option<RoundTripStatisticsView>,
}

impl ProbeReportView {
    /// The report of a target nothing has been heard from yet.
    pub open spec fn empty(destination: Seq<char>) -> ProbeReportView {
        ProbeReportView {
            destination,
            replies: Seq::empty(),
            packets: None,
            round_trip: None,
        }
    }

    /// The report after one more classified line: an echo reply is
    /// appended, a summary replaces the one held, anything else changes
    /// nothing.
    pub open spec fn record(self, kind: LineKindView) -> ProbeReportView {
        match kind {
            LineKindView::Echo(reply) => ProbeReportView {
                replies: self.replies.push(reply),
                ..self
            },
            LineKindView::Packets(packets) => ProbeReportView { packets: Some(packets), ..self },
            LineKindView::RoundTrip(trips) => ProbeReportView { round_trip: Some(trips), ..self },
            LineKindView::Unrecognized => self,
        }
    }
}

impl View for ProbeReport {
    type V = ProbeReportView;

    open spec fn view(&self) -> ProbeReportView {
        ProbeReportView {
            destination: self.destination@,
            replies: replies_view(self.replies@),
            packets: match self.packets {
                Some(packets) => Some(packets@),
                None => None,
            },
            round_trip: match self.round_trip {
                Some(trips) => Some(trips@),
                None => None,
            },
        }
    }
}

impl ProbeReport {
    /// A report for `destination` with nothing recorded.
    pub fn new(destination: String) -> (report: ProbeReport)
        ensures
            report@ == ProbeReportView::empty(destination@),
    {
        let report = ProbeReport {
            destination,
            replies: Vec::new(),
            packets: None,
            round_trip: None,
        };
        assert(report@.replies =~= Seq::empty());
        report
    }

    /// Takes one classified line into the report.
    pub fn record(&mut self, kind: LineKind)
        ensures
            final(self)@ == old(self)@.record(kind@),
    {
        match kind {
            LineKind::Echo(reply) => {
                self.replies.push(reply);
                assert(replies_view(self.replies@) =~= replies_view(old(self).replies@).push(
                    reply@,
                ));
            },
            LineKind::Packets(packets) => {
                self.packets = Some(packets);
            },
            LineKind::RoundTrip(trips) => {
                self.round_trip = Some(trips);
            },
            LineKind::Unrecognized => {},
        }
    }
}

} // verus!
