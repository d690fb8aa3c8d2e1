//! Telling the lines of probe output apart.
//!
//! A line is tried against the echo-reply pattern first, then against the
//! two packet-summary patterns, then against the two round-trip patterns.
//! A pattern whose fields do not read as numbers counts as not matching,
//! and the next one is tried. A line that fits none is unrecognized; that
//! is an ordinary outcome, not an error.

use crate::decimal::{counter_of, is_decimal, parse_counter, Decimal};
use crate::pattern::{
    captures, groups_stand_in, groups_view, is_slice_of, regex_captures, Groups,
};
use crate::report::{
    EchoReply, EchoReplyView, LineKind, LineKindView, PacketStatistics, PacketStatisticsView,
    ProbeReportView, RoundTripStatistics, RoundTripStatisticsView,
};
use vstd::prelude::*;

verus! {

/// One answered echo request: groups 2, 4, 5 and 6 carry the byte count,
/// the sequence number, the time-to-live and the elapsed time. The source
/// address (group 3) is matched but not kept.
///
/// Whatever stands ahead of the byte count (group 1) is taken as short as
/// can be, so the byte count keeps all of its digits, also on a line that
/// opens with it.
pub const ECHO_REPLY_PATTERN: &'static str =
    r"^(?P<destination>.*?)(\d+) bytes from (?P<source>.*?): icmp_seq=(?P<icmp_seq>\d+) ttl=(?P<ttl>\d+) time=(?P<time>[\d.]+) ms$";

/// The packet summary that ends the line with the loss.
pub const PACKETS_PLAIN_PATTERN: &'static str =
    r"^.*?(\d+) packets transmitted, (\d+) packets received, ([0-9.]+)% packet loss$";

/// The packet summary that goes on with the total elapsed time.
pub const PACKETS_TIMED_PATTERN: &'static str =
    r"(\d+) packets transmitted, (\d+) received, (\d+)% packet loss, time (\d+)ms";

/// The round-trip summary whose fourth figure is labelled `stddev`.
pub const ROUND_TRIP_STDDEV_PATTERN: &'static str =
    r"^.*?min/avg/max/stddev = ([0-9.]+)/([0-9.]+)/([0-9.]+)/([0-9.]+) ms$";

/// The round-trip summary whose fourth figure is labelled `mdev`.
pub const ROUND_TRIP_MDEV_PATTERN: &'static str =
    r"^.*?min/avg/max/mdev = ([0-9.]+)/([0-9.]+)/([0-9.]+)/([0-9.]+) ms$";

/// The text of group `i`, if the match has such a group and it took part.
pub open spec fn group(groups: Groups, i: int) -> Option<Seq<char>> {
    if 0 <= i < groups.len() {
        groups[i]
    } else {
        None
    }
}

/// Group `i` read as a counter.
pub open spec fn counter_field(groups: Groups, i: int) -> Option<u32> {
    match group(groups, i) {
        Some(text) => counter_of(text),
        None => None,
    }
}

/// Group `i` read as a measurement.
pub open spec fn decimal_field(groups: Groups, i: int) -> Option<Seq<char>> {
    match group(groups, i) {
        Some(text) => if is_decimal(text) {
            Some(text)
        } else {
            None
        },
        None => None,
    }
}

/// The echo reply that the groups of an echo-reply match describe, if all
/// four fields read as numbers.
pub open spec fn echo_reply_of(groups: Groups) -> Option<EchoReplyView> {
    match (
        counter_field(groups, 2),
        counter_field(groups, 4),
        counter_field(groups, 5),
        decimal_field(groups, 6),
    ) {
        (Some(bytes), Some(sequence), Some(ttl), Some(time)) => Some(
            EchoReplyView { bytes, sequence, ttl, time },
        ),
        _ => None,
    }
}

/// The packet counters that the groups of a packet-summary match describe,
/// if the first three fields read as numbers. Further groups are ignored.
pub open spec fn packet_statistics_of(groups: Groups) -> Option<PacketStatisticsView> {
    match (counter_field(groups, 1), counter_field(groups, 2), decimal_field(groups, 3)) {
        (Some(transmitted), Some(received), Some(loss_percent)) => Some(
            PacketStatisticsView { transmitted, received, loss_percent },
        ),
        _ => None,
    }
}

/// The timing that the groups of a round-trip match describe, if all four
/// fields read as numbers.
pub open spec fn round_trip_statistics_of(groups: Groups) -> Option<RoundTripStatisticsView> {
    match (
        decimal_field(groups, 1),
        decimal_field(groups, 2),
        decimal_field(groups, 3),
        decimal_field(groups, 4),
    ) {
        (Some(min), Some(avg), Some(max), Some(stddev)) => Some(
            RoundTripStatisticsView { min, avg, max, stddev },
        ),
        _ => None,
    }
}

/// The echo reply a line reports, if it is an echo-reply line.
pub open spec fn ping_line(line: Seq<char>) -> Option<EchoReplyView> {
    match regex_captures(ECHO_REPLY_PATTERN@, line) {
        Some(groups) => echo_reply_of(groups),
        None => None,
    }
}

/// The packet counters one pattern finds in a line.
pub open spec fn ping_statistics_by(pattern: Seq<char>, line: Seq<char>) -> Option<
    PacketStatisticsView,
> {
    match regex_captures(pattern, line) {
        Some(groups) => packet_statistics_of(groups),
        None => None,
    }
}

/// The packet counters a line reports, if it is a packet summary of either
/// form. The plain form is tried first.
pub open spec fn ping_statistics(line: Seq<char>) -> Option<PacketStatisticsView> {
    match ping_statistics_by(PACKETS_PLAIN_PATTERN@, line) {
        Some(packets) => Some(packets),
        None => ping_statistics_by(PACKETS_TIMED_PATTERN@, line),
    }
}

/// The timing one pattern finds in a line.
pub open spec fn round_trip_statistics_by(pattern: Seq<char>, line: Seq<char>) -> Option<
    RoundTripStatisticsView,
> {
    match regex_captures(pattern, line) {
        Some(groups) => round_trip_statistics_of(groups),
        None => None,
    }
}

/// The timing a line reports, if it is a round-trip summary under either
/// label. The `stddev` label is tried first.
pub open spec fn round_trip_statistics(line: Seq<char>) -> Option<RoundTripStatisticsView> {
    match round_trip_statistics_by(ROUND_TRIP_STDDEV_PATTERN@, line) {
        Some(trips) => Some(trips),
        None => round_trip_statistics_by(ROUND_TRIP_MDEV_PATTERN@, line),
    }
}

/// What a line is: the first of echo reply, packet summary and round-trip
/// summary that it reads as, or unrecognized.
pub open spec fn classification(line: Seq<char>) -> LineKindView {
    match ping_line(line) {
        Some(reply) => LineKindView::Echo(reply),
        None => match ping_statistics(line) {
            Some(packets) => LineKindView::Packets(packets),
            None => match round_trip_statistics(line) {
                Some(trips) => LineKindView::RoundTrip(trips),
                None => LineKindView::Unrecognized,
            },
        },
    }
}

/// `value` is what some piece of `line` reads as, taken as a counter.
pub open spec fn counter_stands_in(value: u32, line: Seq<char>) -> bool {
    exists|text: Seq<char>| is_slice_of(text, line) && #[trigger] counter_of(text) == Some(value)
}

/// Every field of `reply` is read from a piece of `line`.
pub open spec fn echo_stands_in(reply: EchoReplyView, line: Seq<char>) -> bool {
    &&& counter_stands_in(reply.bytes, line)
    &&& counter_stands_in(reply.sequence, line)
    &&& counter_stands_in(reply.ttl, line)
    &&& is_slice_of(reply.time, line)
}

/// Every field of `packets` is read from a piece of `line`.
pub open spec fn packets_stand_in(packets: PacketStatisticsView, line: Seq<char>) -> bool {
    &&& counter_stands_in(packets.transmitted, line)
    &&& counter_stands_in(packets.received, line)
    &&& is_slice_of(packets.loss_percent, line)
}

/// Every field of `trips` is a piece of `line`.
pub open spec fn trips_stand_in(trips: RoundTripStatisticsView, line: Seq<char>) -> bool {
    &&& is_slice_of(trips.min, line)
    &&& is_slice_of(trips.avg, line)
    &&& is_slice_of(trips.max, line)
    &&& is_slice_of(trips.stddev, line)
}

/// Whatever `kind` holds is read from pieces of `line`.
pub open spec fn kind_stands_in(kind: LineKindView, line: Seq<char>) -> bool {
    match kind {
        LineKindView::Echo(reply) => echo_stands_in(reply, line),
        LineKindView::Packets(packets) => packets_stand_in(packets, line),
        LineKindView::RoundTrip(trips) => trips_stand_in(trips, line),
        LineKindView::Unrecognized => true,
    }
}

/// A field read from the groups of a match is read from the line that was
/// matched.
proof fn lemma_fields_stand_in(groups: Groups, line: Seq<char>, i: int)
    requires
        groups_stand_in(groups, line),
    ensures
        counter_field(groups, i) matches Some(value) ==> counter_stands_in(value, line),
        decimal_field(groups, i) matches Some(text) ==> is_slice_of(text, line),
{
    if let Some(text) = group(groups, i) {
        assert(groups[i] == Some(text));
        assert(is_slice_of(text, line));
        if let Some(value) = counter_field(groups, i) {
            assert(counter_of(text) == Some(value));
        }
    }
}

/// The mathematical content of an optional echo reply.
pub open spec fn echo_view(reply: Option<EchoReply>) -> Option<EchoReplyView> {
    match reply {
        Some(reply) => Some(reply@),
        None => None,
    }
}

/// The mathematical content of optional packet counters.
pub open spec fn packets_view(packets: Option<PacketStatistics>) -> Option<PacketStatisticsView> {
    match packets {
        Some(packets) => Some(packets@),
        None => None,
    }
}

/// The mathematical content of an optional timing.
pub open spec fn trips_view(trips: Option<RoundTripStatistics>) -> Option<
    RoundTripStatisticsView,
> {
    match trips {
        Some(trips) => Some(trips@),
        None => None,
    }
}

fn counter_at(groups: &Vec<Option<String>>, i: usize) -> (value: Option<u32>)
    ensures
        value == counter_field(groups_view(groups), i as int),
{
    if i < groups.len() {
        match &groups[i] {
            Some(text) => parse_counter(text.as_str()),
            None => None,
        }
    } else {
        None
    }
}

fn decimal_at(groups: &Vec<Option<String>>, i: usize) -> (value: Option<Decimal>)
    ensures
        value is Some <==> decimal_field(groups_view(groups), i as int) is Some,
        value matches Some(d) ==> Some(d@) == decimal_field(groups_view(groups), i as int),
{
    if i < groups.len() {
        match &groups[i] {
            Some(text) => Decimal::parse(text.as_str()),
            None => None,
        }
    } else {
        None
    }
}

/// Builds the echo reply from the groups of an echo-reply match.
pub fn echo_reply_from_groups(groups: &Vec<Option<String>>) -> (reply: Option<EchoReply>)
    ensures
        echo_view(reply) == echo_reply_of(groups_view(groups)),
{
    let bytes = counter_at(groups, 2);
    let sequence = counter_at(groups, 4);
    let ttl = counter_at(groups, 5);
    let time = decimal_at(groups, 6);
    match (bytes, sequence, ttl, time) {
        (Some(bytes), Some(sequence), Some(ttl), Some(time)) => Some(
            EchoReply { bytes, sequence, ttl, time },
        ),
        _ => None,
    }
}

/// Builds the packet counters from the groups of a packet-summary match.
pub fn packet_statistics_from_groups(groups: &Vec<Option<String>>) -> (packets: Option<
    PacketStatistics,
>)
    ensures
        packets_view(packets) == packet_statistics_of(groups_view(groups)),
{
    let transmitted = counter_at(groups, 1);
    let received = counter_at(groups, 2);
    let loss_percent = decimal_at(groups, 3);
    match (transmitted, received, loss_percent) {
        (Some(transmitted), Some(received), Some(loss_percent)) => Some(
            PacketStatistics { transmitted, received, loss_percent },
        ),
        _ => None,
    }
}

/// Builds the timing from the groups of a round-trip match.
pub fn round_trip_statistics_from_groups(groups: &Vec<Option<String>>) -> (trips: Option<
    RoundTripStatistics,
>)
    ensures
        trips_view(trips) == round_trip_statistics_of(groups_view(groups)),
{
    let min = decimal_at(groups, 1);
    let avg = decimal_at(groups, 2);
    let max = decimal_at(groups, 3);
    let stddev = decimal_at(groups, 4);
    match (min, avg, max, stddev) {
        (Some(min), Some(avg), Some(max), Some(stddev)) => Some(
            RoundTripStatistics { min, avg, max, stddev },
        ),
        _ => None,
    }
}

/// Reads a line as an echo reply.
pub fn parse_ping_line(line: &str) -> (reply: Option<EchoReply>)
    ensures
        echo_view(reply) == ping_line(line@),
        reply matches Some(found) ==> echo_stands_in(found@, line@),
{
    match captures(ECHO_REPLY_PATTERN, line) {
        Some(groups) => {
            proof {
                lemma_fields_stand_in(groups_view(&groups), line@, 2);
                lemma_fields_stand_in(groups_view(&groups), line@, 4);
                lemma_fields_stand_in(groups_view(&groups), line@, 5);
                lemma_fields_stand_in(groups_view(&groups), line@, 6);
            }
            echo_reply_from_groups(&groups)
        },
        None => None,
    }
}

fn ping_statistics_with(pattern: &str, line: &str) -> (packets: Option<PacketStatistics>)
    ensures
        packets_view(packets) == ping_statistics_by(pattern@, line@),
        packets matches Some(found) ==> packets_stand_in(found@, line@),
{
    match captures(pattern, line) {
        Some(groups) => {
            proof {
                lemma_fields_stand_in(groups_view(&groups), line@, 1);
                lemma_fields_stand_in(groups_view(&groups), line@, 2);
                lemma_fields_stand_in(groups_view(&groups), line@, 3);
            }
            packet_statistics_from_groups(&groups)
        },
        None => None,
    }
}

/// Reads a line as a packet summary of either form.
pub fn parse_ping_statistics(line: &str) -> (packets: Option<PacketStatistics>)
    ensures
        packets_view(packets) == ping_statistics(line@),
        packets matches Some(found) ==> packets_stand_in(found@, line@),
{
    match ping_statistics_with(PACKETS_PLAIN_PATTERN, line) {
        Some(packets) => Some(packets),
        None => ping_statistics_with(PACKETS_TIMED_PATTERN, line),
    }
}

fn round_trip_statistics_with(pattern: &str, line: &str) -> (trips: Option<RoundTripStatistics>)
    ensures
        trips_view(trips) == round_trip_statistics_by(pattern@, line@),
        trips matches Some(found) ==> trips_stand_in(found@, line@),
{
    match captures(pattern, line) {
        Some(groups) => {
            proof {
                lemma_fields_stand_in(groups_view(&groups), line@, 1);
                lemma_fields_stand_in(groups_view(&groups), line@, 2);
                lemma_fields_stand_in(groups_view(&groups), line@, 3);
                lemma_fields_stand_in(groups_view(&groups), line@, 4);
            }
            round_trip_statistics_from_groups(&groups)
        },
        None => None,
    }
}

/// Reads a line as a round-trip summary under either label.
pub fn parse_round_trip_statistics(line: &str) -> (trips: Option<RoundTripStatistics>)
    ensures
        trips_view(trips) == round_trip_statistics(line@),
        trips matches Some(found) ==> trips_stand_in(found@, line@),
{
    match round_trip_statistics_with(ROUND_TRIP_STDDEV_PATTERN, line) {
        Some(trips) => Some(trips),
        None => round_trip_statistics_with(ROUND_TRIP_MDEV_PATTERN, line),
    }
}

/// Says what a line of probe output is.
pub fn classify(line: &str) -> (kind: LineKind)
    ensures
        kind@ == classification(line@),
        kind_stands_in(kind@, line@),
{
    if let Some(reply) = parse_ping_line(line) {
        return LineKind::Echo(reply);
    }
    if let Some(packets) = parse_ping_statistics(line) {
        return LineKind::Packets(packets);
    }
    if let Some(trips) = parse_round_trip_statistics(line) {
        return LineKind::RoundTrip(trips);
    }
    LineKind::Unrecognized
}

/// A line that the echo-reply pattern matches, and whose byte count,
/// sequence number, time-to-live and elapsed time read as numbers, is an
/// echo reply with exactly those four values.
pub proof fn lemma_echo_reply_is_read_exactly(
    line: Seq<char>,
    groups: Groups,
    bytes: u32,
    sequence: u32,
    ttl: u32,
    time: Seq<char>,
)
    requires
        regex_captures(ECHO_REPLY_PATTERN@, line) == Some(groups),
        counter_field(groups, 2) == Some(bytes),
        counter_field(groups, 4) == Some(sequence),
        counter_field(groups, 5) == Some(ttl),
        group(groups, 6) == Some(time),
        is_decimal(time),
    ensures
        classification(line) == LineKindView::Echo(EchoReplyView { bytes, sequence, ttl, time }),
{
}

/// The same line is always classified the same way.
pub proof fn lemma_classification_repeats(first: Seq<char>, second: Seq<char>)
    requires
        first == second,
    ensures
        classification(first) == classification(second),
{
}

/// A packet summary says the same whichever of its two forms it is
/// written in: when a line in the plain form and a line in the timed form
/// carry the same three fields, both read as the same counters.
pub proof fn lemma_packet_summary_forms_agree(
    plain_line: Seq<char>,
    timed_line: Seq<char>,
    plain: Groups,
    timed: Groups,
)
    requires
        regex_captures(PACKETS_PLAIN_PATTERN@, plain_line) == Some(plain),
        ping_statistics_by(PACKETS_PLAIN_PATTERN@, timed_line) is None,
        regex_captures(PACKETS_TIMED_PATTERN@, timed_line) == Some(timed),
        group(plain, 1) == group(timed, 1),
        group(plain, 2) == group(timed, 2),
        group(plain, 3) == group(timed, 3),
        packet_statistics_of(plain) is Some,
    ensures
        ping_statistics(plain_line) == ping_statistics(timed_line),
        ping_statistics(plain_line) == packet_statistics_of(plain),
{
}

/// A round-trip summary says the same under either label: when a line
/// labelled `stddev` and a line labelled `mdev` carry the same four
/// fields, both read as the same timing, field for field.
pub proof fn lemma_round_trip_labels_agree(
    stddev_line: Seq<char>,
    mdev_line: Seq<char>,
    stddev: Groups,
    mdev: Groups,
)
    requires
        regex_captures(ROUND_TRIP_STDDEV_PATTERN@, stddev_line) == Some(stddev),
        round_trip_statistics_by(ROUND_TRIP_STDDEV_PATTERN@, mdev_line) is None,
        regex_captures(ROUND_TRIP_MDEV_PATTERN@, mdev_line) == Some(mdev),
        group(stddev, 1) == group(mdev, 1),
        group(stddev, 2) == group(mdev, 2),
        group(stddev, 3) == group(mdev, 3),
        group(stddev, 4) == group(mdev, 4),
        round_trip_statistics_of(stddev) is Some,
    ensures
        round_trip_statistics(stddev_line) == round_trip_statistics(mdev_line),
        round_trip_statistics(stddev_line) == round_trip_statistics_of(stddev),
{
}

/// A line that none of the five patterns matches is unrecognized, and
/// recording it leaves a report as it was.
pub proof fn lemma_unmatched_line_changes_nothing(line: Seq<char>, report: ProbeReportView)
    requires
        regex_captures(ECHO_REPLY_PATTERN@, line) is None,
        regex_captures(PACKETS_PLAIN_PATTERN@, line) is None,
        regex_captures(PACKETS_TIMED_PATTERN@, line) is None,
        regex_captures(ROUND_TRIP_STDDEV_PATTERN@, line) is None,
        regex_captures(ROUND_TRIP_MDEV_PATTERN@, line) is None,
    ensures
        classification(line) == LineKindView::Unrecognized,
        report.record(classification(line)) == report,
{
}

} // verus!
