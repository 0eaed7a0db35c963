use spectrum_core::ring::SampleRing;

#[test]
fn capacity_ten_keeps_first_ten_of_fifteen() {
    let mut ring = SampleRing::new(10);
    for v in 1u32..=15 {
        let accepted = ring.try_push(v);
        assert_eq!(accepted, v <= 10);
    }
    assert_eq!(ring.occupied_len(), 10);
    for v in 1u32..=10 {
        assert_eq!(ring.try_pop(), Some(v));
    }
    assert_eq!(ring.try_pop(), None);
}

#[test]
fn push_on_full_ring_fails_and_keeps_contents() {
    let mut ring = SampleRing::new(3);
    assert!(ring.try_push(7));
    assert!(ring.try_push(8));
    assert!(ring.try_push(9));
    assert!(!ring.try_push(10));
    assert_eq!(ring.occupied_len(), 3);
    assert_eq!(ring.capacity(), 3);
    assert_eq!(ring.pop_window(3), Some(vec![7, 8, 9]));
}

#[test]
fn push_all_reports_accepted_count() {
    let mut ring = SampleRing::new(4);
    assert_eq!(ring.push_all(&[1, 2, 3]), 3);
    assert_eq!(ring.push_all(&[4, 5, 6]), 1);
    assert_eq!(ring.occupied_len(), 4);
    assert_eq!(ring.pop_window(4), Some(vec![1, 2, 3, 4]));
}

#[test]
fn pop_window_waits_for_enough_samples() {
    let mut ring = SampleRing::new(8);
    ring.push_all(&[1, 2, 3]);
    assert_eq!(ring.pop_window(4), None);
    assert_eq!(ring.occupied_len(), 3);
    ring.push_all(&[4, 5]);
    assert_eq!(ring.pop_window(4), Some(vec![1, 2, 3, 4]));
    assert_eq!(ring.occupied_len(), 1);
    assert_eq!(ring.try_pop(), Some(5));
}

#[test]
fn length_never_exceeds_capacity() {
    let mut ring = SampleRing::new(5);
    for v in 0u32..50 {
        ring.try_push(v);
        assert!(ring.occupied_len() <= ring.capacity());
        if v % 7 == 0 {
            ring.try_pop();
        }
    }
}

#[test]
fn split_halves_carry_samples_in_order() {
    let ring = SampleRing::new(6);
    let (mut prod, mut cons) = ring.split();
    assert_eq!(prod.push_all(&[10, 11, 12, 13, 14, 15, 16, 17]), 6);
    assert_eq!(cons.occupied_len(), 6);
    assert_eq!(cons.pop_window(7), None);
    assert_eq!(cons.pop_window(4), Some(vec![10, 11, 12, 13]));
    assert_eq!(prod.push_all(&[18]), 1);
    assert_eq!(cons.pop_window(3), Some(vec![14, 15, 18]));
}

#[test]
fn float_samples_survive_the_ring() {
    let mut ring = SampleRing::new(2);
    ring.try_push(0.25f32.to_bits());
    ring.try_push((-1.5f32).to_bits());
    let w = ring.pop_window(2).unwrap();
    assert_eq!(f32::from_bits(w[0]), 0.25);
    assert_eq!(f32::from_bits(w[1]), -1.5);
}

#[test]
fn consumer_sees_what_ring_held_at_split() {
    let mut ring = SampleRing::new(4);
    ring.push_all(&[5, 6]);
    let (mut prod, mut cons) = ring.split();
    assert_eq!(cons.pop_window(0), Some(vec![]));
    assert_eq!(cons.occupied_len(), 2);
    assert_eq!(prod.push_all(&[7, 8, 9]), 2);
    assert_eq!(cons.pop_window(4), Some(vec![5, 6, 7, 8]));
    assert_eq!(cons.pop_window(1), None);
}
