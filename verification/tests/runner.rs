use multiping::report::{LineKind, ProbeReport};
use multiping::runner::{ProbeError, ProbeRunner};
use multiping::classify::classify;

fn millis(text: &str) -> f32 {
    text.parse::<f32>().unwrap()
}

#[test]
fn three_replies_and_both_summaries() {
    let mut runner = ProbeRunner::new("10.0.0.1".to_string());
    let lines = [
        "64 bytes from 10.0.0.1: icmp_seq=1 ttl=64 time=1.0 ms",
        "64 bytes from 10.0.0.1: icmp_seq=2 ttl=64 time=2.0 ms",
        "64 bytes from 10.0.0.1: icmp_seq=3 ttl=64 time=3.0 ms",
        "3 packets transmitted, 3 packets received, 0% packet loss",
        "min/avg/max/stddev = 1.0/2.0/3.0/0.8 ms",
    ];
    for line in lines {
        let event = runner.on_line(line);
        assert_eq!(event.target, "10.0.0.1");
        assert_eq!(event.line, line);
    }
    let report = runner.finish(Some(0)).expect("a report");
    assert_eq!(report.destination, "10.0.0.1");
    assert_eq!(report.replies.len(), 3);
    let times: Vec<f32> = report.replies.iter().map(|r| millis(r.time.as_str())).collect();
    assert_eq!(times, vec![1.0, 2.0, 3.0]);
    let sequences: Vec<u32> = report.replies.iter().map(|r| r.sequence).collect();
    assert_eq!(sequences, vec![1, 2, 3]);
    assert!(report.replies.iter().all(|r| r.bytes == 64 && r.ttl == 64));
    let packets = report.packets.expect("packet statistics");
    assert_eq!(packets.transmitted, 3);
    assert_eq!(packets.received, 3);
    assert_eq!(millis(packets.loss_percent.as_str()), 0.0);
    let trips = report.round_trip.expect("round-trip statistics");
    assert_eq!(millis(trips.min.as_str()), 1.0);
    assert_eq!(millis(trips.avg.as_str()), 2.0);
    assert_eq!(millis(trips.max.as_str()), 3.0);
    assert_eq!(millis(trips.stddev.as_str()), 0.8);
}

#[test]
fn fresh_runner_has_an_empty_report() {
    let runner = ProbeRunner::new("example.org".to_string());
    assert_eq!(runner.target(), "example.org");
    let report = runner.finish(Some(0)).unwrap();
    assert_eq!(report.destination, "example.org");
    assert!(report.replies.is_empty());
    assert!(report.packets.is_none());
    assert!(report.round_trip.is_none());
}

#[test]
fn unrecognized_lines_change_nothing_but_are_forwarded() {
    let mut runner = ProbeRunner::new("10.0.0.9".to_string());
    for line in ["PING 10.0.0.9 (10.0.0.9): 56 data bytes", "", "Request timeout for icmp_seq 0"] {
        let event = runner.on_line(line);
        assert_eq!(event.target, "10.0.0.9");
        assert_eq!(event.line, line);
    }
    let report = runner.finish(Some(0)).unwrap();
    assert!(report.replies.is_empty());
    assert!(report.packets.is_none());
    assert!(report.round_trip.is_none());
}

#[test]
fn replies_keep_arrival_order() {
    let mut runner = ProbeRunner::new("h".to_string());
    for sequence in [5, 1, 9, 2] {
        runner.on_line(&format!("h 64 bytes from h: icmp_seq={} ttl=64 time=0.1 ms", sequence));
    }
    let report = runner.finish(Some(0)).unwrap();
    let sequences: Vec<u32> = report.replies.iter().map(|r| r.sequence).collect();
    assert_eq!(sequences, vec![5, 1, 9, 2]);
}

#[test]
fn a_later_summary_replaces_an_earlier_one() {
    let mut runner = ProbeRunner::new("h".to_string());
    runner.on_line("3 packets transmitted, 3 packets received, 0% packet loss");
    runner.on_line("3 packets transmitted, 1 packets received, 66.7% packet loss");
    let report = runner.finish(Some(0)).unwrap();
    let packets = report.packets.unwrap();
    assert_eq!(packets.received, 1);
    assert_eq!(packets.loss_percent.as_str(), "66.7");
}

#[test]
fn exit_status_two_gives_no_report() {
    let mut runner = ProbeRunner::new("10.0.0.2".to_string());
    runner.on_line("x 64 bytes from 10.0.0.2: icmp_seq=1 ttl=64 time=1.0 ms");
    match runner.finish(Some(2)) {
        Err(ProbeError::Execution { target, status }) => {
            assert_eq!(target, "10.0.0.2");
            assert_eq!(status, Some(2));
        }
        other => panic!("not an execution error: {:?}", other),
    }
}

#[test]
fn missing_exit_status_gives_no_report() {
    let runner = ProbeRunner::new("10.0.0.2".to_string());
    match runner.finish(None) {
        Err(ProbeError::Execution { target, status }) => {
            assert_eq!(target, "10.0.0.2");
            assert_eq!(status, None);
        }
        other => panic!("not an execution error: {:?}", other),
    }
}

#[test]
fn negative_exit_status_gives_no_report() {
    let runner = ProbeRunner::new("h".to_string());
    assert!(matches!(
        runner.finish(Some(-1)),
        Err(ProbeError::Execution { status: Some(-1), .. })
    ));
}

#[test]
fn launch_failure_names_the_target() {
    let runner = ProbeRunner::new("10.0.0.3".to_string());
    let error = runner.launch_failed("no such file".to_string());
    assert_eq!(error.target(), "10.0.0.3");
    match error {
        ProbeError::Launch { target, reason } => {
            assert_eq!(target, "10.0.0.3");
            assert_eq!(reason, "no such file");
        }
        other => panic!("not a launch error: {:?}", other),
    }
}

#[test]
fn read_failure_names_the_target() {
    let mut runner = ProbeRunner::new("10.0.0.4".to_string());
    runner.on_line("x 64 bytes from 10.0.0.4: icmp_seq=1 ttl=64 time=1.0 ms");
    let error = runner.read_failed("broken pipe".to_string());
    assert_eq!(error.target(), "10.0.0.4");
    match error {
        ProbeError::StreamRead { target, reason } => {
            assert_eq!(target, "10.0.0.4");
            assert_eq!(reason, "broken pipe");
        }
        other => panic!("not a read error: {:?}", other),
    }
}

#[test]
fn report_records_each_kind_in_its_place() {
    let mut report = ProbeReport::new("h".to_string());
    report.record(classify("h 64 bytes from h: icmp_seq=4 ttl=64 time=0.3 ms"));
    report.record(LineKind::Unrecognized);
    report.record(classify("1 packets transmitted, 1 received, 0% packet loss, time 0ms"));
    report.record(classify("rtt min/avg/max/mdev = 0.3/0.3/0.3/0.0 ms"));
    assert_eq!(report.replies.len(), 1);
    assert_eq!(report.replies[0].sequence, 4);
    assert_eq!(report.packets.as_ref().unwrap().transmitted, 1);
    assert_eq!(report.round_trip.as_ref().unwrap().stddev.as_str(), "0.0");
}
