use sweepbench::stats::MeasurementWindow;
use sweepbench::stats::Ratio;

fn window_from(seqs: &[u64], elapsed: &[u64]) -> MeasurementWindow {
    let mut w = MeasurementWindow::new();
    for i in 0..seqs.len() {
        w.record(seqs[i], elapsed[i]);
    }
    w
}

#[test]
fn empty_window_has_no_stats() {
    let w = MeasurementWindow::new();
    assert!(w.stats().is_none());
}

#[test]
fn first_gap_is_sentinel_zero() {
    let w = window_from(&[7], &[999]);
    assert_eq!(w.gaps, vec![0]);
}

#[test]
fn mean_and_positional_median_even_n() {
    // gaps come out as [0, 5, 5, 5]: mean 15/4 = 3.75, median index 4/2 = 2.
    let w = window_from(&[0, 1, 2, 3], &[123, 5, 5, 5]);
    assert_eq!(w.gaps, vec![0, 5, 5, 5]);
    let st = w.stats().unwrap();
    assert_eq!(st.n, 4);
    assert_eq!(st.delay_mean, Ratio { neg: false, num: 15, den: 4 });
    assert_eq!(st.delay_mean.num as f64 / st.delay_mean.den as f64, 3.75);
    assert_eq!(st.delay_median, Some(5));
}

#[test]
fn positional_median_odd_n() {
    // n = 3, odd: index ceil(3/2) = 2.
    let w = window_from(&[0, 1, 2], &[0, 40, 70]);
    assert_eq!(w.gaps, vec![0, 40, 70]);
    let st = w.stats().unwrap();
    assert_eq!(st.delay_median, Some(70));
}

#[test]
fn median_undefined_for_single_message() {
    let w = window_from(&[9], &[0]);
    let st = w.stats().unwrap();
    assert_eq!(st.delay_median, None);
}

#[test]
fn negative_loss_is_kept() {
    // Sequence numbers 10..=19: n = 10, span 9, loss 1 - 10/9 = -1/9.
    let seqs: Vec<u64> = (10..=19).collect();
    let elapsed = vec![1u64; 10];
    let w = window_from(&seqs, &elapsed);
    let st = w.stats().unwrap();
    assert_eq!(st.n, 10);
    assert_eq!(st.expected_count, 9);
    let loss = st.loss_rate.unwrap();
    assert_eq!(loss, Ratio { neg: true, num: 1, den: 9 });
    let as_float = -(loss.num as f64 / loss.den as f64);
    assert!((as_float - (1.0 - 10.0 / 9.0)).abs() < 1e-12);
    // Message rate over the nominal ten-second window: 10/10 = 1 per second.
    assert_eq!(st.message_rate, Ratio { neg: false, num: 10, den: 10 });
}

#[test]
fn positive_loss_when_messages_missing() {
    // Span 10 but only 6 arrived: loss = 1 - 6/10 = 4/10.
    let w = window_from(&[0, 2, 4, 6, 8, 10], &[0, 1, 1, 1, 1, 1]);
    let st = w.stats().unwrap();
    assert_eq!(st.expected_count, 10);
    assert_eq!(st.loss_rate, Some(Ratio { neg: false, num: 4, den: 10 }));
}

#[test]
fn zero_span_loss_is_undefined_not_a_crash() {
    // Only one distinct sequence value: expected count 0 must be guarded.
    let w = window_from(&[5, 5, 5], &[0, 1, 1]);
    let st = w.stats().unwrap();
    assert_eq!(st.expected_count, 0);
    assert_eq!(st.loss_rate, None);
}

#[test]
fn out_of_order_rate_counts_adjacent_inversions() {
    // Arrival order [5, 6, 4, 7]: the only inversion is (6, 4) -> 1/4.
    let w = window_from(&[5, 6, 4, 7], &[0, 1, 1, 1]);
    let st = w.stats().unwrap();
    assert_eq!(st.out_of_order_rate, Ratio { neg: false, num: 1, den: 4 });
    assert_eq!(st.out_of_order_rate.num as f64 / st.out_of_order_rate.den as f64, 0.25);
}

#[test]
fn in_order_window_has_zero_out_of_order_rate() {
    let w = window_from(&[1, 2, 3, 4], &[0, 1, 1, 1]);
    let st = w.stats().unwrap();
    assert_eq!(st.out_of_order_rate, Ratio { neg: false, num: 0, den: 4 });
}

#[test]
fn reset_empties_the_window() {
    let mut w = window_from(&[1, 2], &[0, 3]);
    w.reset();
    assert!(w.seqs.is_empty());
    assert!(w.gaps.is_empty());
    assert!(w.stats().is_none());
}
