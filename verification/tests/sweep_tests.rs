use sweepbench::sweep::matrix_entry;
use sweepbench::sweep::topic_for;
use sweepbench::sweep::DeliveryGuarantee;
use sweepbench::sweep::SweepState;

#[test]
fn matrix_is_guarantee_major_delay_minor() {
    assert_eq!(matrix_entry(0), (DeliveryGuarantee::AtMostOnce, 0));
    assert_eq!(matrix_entry(1), (DeliveryGuarantee::AtMostOnce, 1));
    assert_eq!(matrix_entry(6), (DeliveryGuarantee::AtMostOnce, 200));
    assert_eq!(matrix_entry(7), (DeliveryGuarantee::AtLeastOnce, 0));
    assert_eq!(matrix_entry(13), (DeliveryGuarantee::AtLeastOnce, 200));
    assert_eq!(matrix_entry(14), (DeliveryGuarantee::ExactlyOnce, 0));
    assert_eq!(matrix_entry(20), (DeliveryGuarantee::ExactlyOnce, 200));
}

#[test]
fn full_cycle_visits_every_combination_once_then_repeats() {
    let guarantees = [
        DeliveryGuarantee::AtMostOnce,
        DeliveryGuarantee::AtLeastOnce,
        DeliveryGuarantee::ExactlyOnce,
    ];
    let delays = [0u64, 1, 2, 10, 20, 100, 200];
    let mut expected = Vec::new();
    for g in guarantees {
        for d in delays {
            expected.push((g, d));
        }
    }

    let mut s = SweepState::new();
    let mut visited = vec![s.current_entry()];
    for _ in 0..20 {
        let adv = s.advance();
        visited.push((adv.guarantee, adv.delay));
    }
    assert_eq!(visited, expected);

    // The next advancement wraps back to the first entry.
    let adv = s.advance();
    assert_eq!(s.index, 0);
    assert_eq!((adv.guarantee, adv.delay), expected[0]);
}

#[test]
fn delay_only_steps_announce_no_guarantee_change() {
    // Two consecutive steps inside the first guarantee block change the
    // delay only: no guarantee control message may be produced.
    let mut s = SweepState::new();
    let a1 = s.advance();
    assert_eq!(a1.announce_guarantee, None);
    assert_eq!(a1.announce_delay, Some(1));
    let a2 = s.advance();
    assert_eq!(a2.announce_guarantee, None);
    assert_eq!(a2.announce_delay, Some(2));
}

#[test]
fn block_boundary_announces_both_changes() {
    let mut s = SweepState::new();
    for _ in 0..6 {
        s.advance();
    }
    assert_eq!(s.index, 6);
    assert_eq!(s.last_delay, 200);
    let adv = s.advance();
    assert_eq!(adv.guarantee, DeliveryGuarantee::AtLeastOnce);
    assert_eq!(adv.delay, 0);
    assert_eq!(adv.announce_guarantee, Some(DeliveryGuarantee::AtLeastOnce));
    assert_eq!(adv.announce_delay, Some(0));
}

#[test]
fn unchanged_parameter_is_not_reannounced() {
    // After wrapping all the way around, the state is back where it
    // started and a step that changes neither parameter announces nothing.
    let mut s = SweepState::new();
    for _ in 0..21 {
        s.advance();
    }
    assert_eq!(s.index, 0);
    assert_eq!(s.last_guarantee, DeliveryGuarantee::AtMostOnce);
    assert_eq!(s.last_delay, 0);
    let a = s.advance();
    assert_eq!(a.announce_guarantee, None);
    assert_eq!(a.announce_delay, Some(1));
}

#[test]
fn topics_encode_guarantee_ordinal_and_delay() {
    assert_eq!(topic_for(DeliveryGuarantee::AtMostOnce, 0), "counter/0/0");
    assert_eq!(topic_for(DeliveryGuarantee::AtLeastOnce, 100), "counter/1/100");
    assert_eq!(topic_for(DeliveryGuarantee::ExactlyOnce, 20), "counter/2/20");
}
