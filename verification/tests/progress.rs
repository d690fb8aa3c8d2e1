use multiping::progress::{expected_progress_events, ProgressSink, EXTRA_LINES_PER_TARGET};

#[test]
fn expected_events_is_count_plus_three_per_target() {
    assert_eq!(EXTRA_LINES_PER_TARGET, 3);
    assert_eq!(expected_progress_events(10, 4), 52);
    assert_eq!(expected_progress_events(3, 1), 6);
    assert_eq!(expected_progress_events(0, 2), 6);
    assert_eq!(expected_progress_events(10, 0), 0);
}

#[test]
fn expected_events_does_not_overflow() {
    let total = expected_progress_events(u32::MAX, usize::MAX);
    assert_eq!(total, (u32::MAX as u128 + 3) * (usize::MAX as u128));
}

#[test]
fn sink_shows_the_count_after_each_event() {
    let mut sink = ProgressSink::new(2, 1);
    let mut shown = Vec::new();
    let mut consumed = Vec::new();
    loop {
        let update = sink.on_event();
        assert_eq!(update.events_expected(), 5);
        shown.push(update.tenths().unwrap());
        consumed.push(update.events_consumed());
        if update.done() {
            break;
        }
    }
    assert_eq!(consumed, vec![1, 2, 3, 4, 5]);
    assert_eq!(shown, vec![200, 400, 600, 800, 1000]);
}

#[test]
fn sink_is_done_on_the_event_that_reaches_the_total() {
    let mut sink = ProgressSink::new(0, 1);
    assert!(!sink.on_event().done());
    assert!(!sink.on_event().done());
    assert!(sink.on_event().done());
}

#[test]
fn sink_stays_done() {
    let mut sink = ProgressSink::new(0, 1);
    for _ in 0..3 {
        sink.on_event();
    }
    for _ in 0..4 {
        let update = sink.on_event();
        assert!(update.done());
        assert_eq!(update.events_consumed(), 3);
        assert_eq!(update.tenths(), Some(1000));
    }
}

#[test]
fn share_is_rounded_to_the_nearest_tenth() {
    let mut sink = ProgressSink::new(0, 1);
    let shown: Vec<u128> = (0..3).map(|_| sink.on_event().tenths().unwrap()).collect();
    assert_eq!(shown, vec![333, 667, 1000]);
}

#[test]
fn share_never_recedes_and_never_passes_one_hundred_percent() {
    let mut sink = ProgressSink::new(10, 7);
    let mut last = 0;
    for _ in 0..200 {
        let update = sink.on_event();
        let shown = update.tenths().unwrap();
        assert!(shown >= last);
        assert!(shown <= 1000);
        assert!(update.events_consumed() <= update.events_expected());
        last = shown;
    }
    assert_eq!(last, 1000);
}

#[test]
fn a_run_without_targets_expects_nothing() {
    let mut sink = ProgressSink::new(10, 0);
    let update = sink.on_event();
    assert!(update.done());
    assert_eq!(update.events_expected(), 0);
    assert_eq!(update.tenths(), None);
}
