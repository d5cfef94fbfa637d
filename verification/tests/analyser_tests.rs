use sweepbench::analyser::Analyser;
use sweepbench::analyser::AnalyserError;
use sweepbench::analyser::AnalyserStep;
use sweepbench::stats::Ratio;
use sweepbench::sweep::DeliveryGuarantee;

#[test]
fn starts_subscribed_to_the_first_data_topic() {
    let a = Analyser::new();
    assert_eq!(a.current_topic(), "counter/0/0");
}

#[test]
fn recognized_status_messages_feed_the_gate_up_to_six() {
    let mut a = Analyser::new();
    let topics = [
        "$SYS/broker/load/bytes/sent/1min",
        "$SYS/broker/load/bytes/received/1min",
        "$SYS/broker/load/publish/received/1min",
        "$SYS/broker/load/publish/sent/1min",
        "$SYS/broker/load/publish/dropped/1min",
        "$SYS/broker/clients/active",
    ];
    for (i, t) in topics.iter().enumerate() {
        match a.on_message(t, "12", 100 + i as u64) {
            Ok(AnalyserStep::Status { recognized, counted }) => {
                assert!(recognized);
                assert!(counted);
            }
            _ => panic!("expected a status step"),
        }
    }
    assert_eq!(a.sys_counter, 6);
    // A seventh recognized status message is not counted: six are enough.
    match a.on_message("$SYS/broker/heap/current", "4096", 200) {
        Ok(AnalyserStep::Status { recognized, counted }) => {
            assert!(recognized);
            assert!(!counted);
        }
        _ => panic!("expected a status step"),
    }
    assert_eq!(a.sys_counter, 6);
}

#[test]
fn unrecognized_status_subtopics_are_ignored() {
    let mut a = Analyser::new();
    match a.on_message("$SYS/broker/uptime", "33", 100) {
        Ok(AnalyserStep::Status { recognized, counted }) => {
            assert!(!recognized);
            assert!(!counted);
        }
        _ => panic!("expected a status step"),
    }
    assert_eq!(a.sys_counter, 0);
    // It still advances the arrival clock.
    assert_eq!(a.prev_time_ms, 100);
}

#[test]
fn malformed_counter_payloads_are_fatal() {
    let mut a = Analyser::new();
    assert_eq!(a.on_message("counter/0/0", "abc", 100).unwrap_err(), AnalyserError::BadPayload);
    assert_eq!(a.on_message("counter/0/0", "", 100).unwrap_err(), AnalyserError::BadPayload);
    // The failed message left no trace in the window.
    assert_eq!(a.window.seqs.len(), 0);
}

#[test]
fn data_messages_accumulate_until_a_window_boundary() {
    let mut a = Analyser::new();
    assert!(matches!(a.on_message("counter/0/0", "10", 2000), Ok(AnalyserStep::Recorded)));
    assert!(matches!(a.on_message("counter/0/0", "11", 3000), Ok(AnalyserStep::Recorded)));
    assert_eq!(a.window.seqs, vec![10, 11]);
    assert_eq!(a.window.gaps, vec![0, 1000]);
    assert_eq!(a.prev_time_ms, 3000);
}

#[test]
fn a_boundary_closes_the_window_and_advances_the_sweep() {
    let mut a = Analyser::new();
    assert!(matches!(a.on_message("counter/0/0", "10", 2000), Ok(AnalyserStep::Recorded)));
    assert!(matches!(a.on_message("counter/0/0", "11", 3000), Ok(AnalyserStep::Recorded)));
    // 10500 ms: past a ten-second boundary, within its first second.
    let rep = match a.on_message("counter/0/0", "12", 10500) {
        Ok(AnalyserStep::WindowClosed(rep)) => rep,
        _ => panic!("expected the window to close"),
    };
    let st = rep.stats;
    assert_eq!(st.n, 3);
    assert_eq!(st.expected_count, 2);
    assert_eq!(st.loss_rate, Some(Ratio { neg: true, num: 1, den: 2 }));
    assert_eq!(st.out_of_order_rate, Ratio { neg: false, num: 0, den: 3 });
    // Gaps [0, 1000, 7500]: mean 8500/3, odd-n positional median at index 2.
    assert_eq!(st.delay_mean, Ratio { neg: false, num: 8500, den: 3 });
    assert_eq!(st.delay_median, Some(7500));

    // The sweep moved from entry 0 to entry 1: same guarantee, delay 1.
    assert_eq!(rep.unsubscribe_topic, "counter/0/0");
    assert_eq!(rep.subscribe_topic, "counter/0/1");
    assert_eq!(rep.subscribe_guarantee, DeliveryGuarantee::AtMostOnce);
    // Delay changed, guarantee did not: only the delay is announced.
    assert_eq!(rep.announce_guarantee, None);
    assert_eq!(rep.announce_delay, Some(1));

    // The window and the status gate start over.
    assert_eq!(a.window.seqs.len(), 0);
    assert_eq!(a.window.gaps.len(), 0);
    assert_eq!(a.sys_counter, 0);
    assert_eq!(a.sweep.index, 1);
    assert_eq!(a.current_topic(), "counter/0/1");
}

#[test]
fn the_settle_period_suppresses_early_boundaries() {
    let mut a = Analyser::new();
    // 500 ms is inside `now % 10000 < 1000` but before the one-second
    // settle period, so the window must stay open.
    assert!(matches!(a.on_message("counter/0/0", "1", 500), Ok(AnalyserStep::Recorded)));
    assert_eq!(a.window.seqs, vec![1]);
}
