use wheelful::{segment_number, TURN};

#[test]
fn test_segment_number() {
    // Four quarters: left-to-down, down-to-right, right-to-up, up-to-left.
    assert_eq!(segment_number(0, 4), 0);
    assert_eq!(segment_number(TURN / 4 - 1, 4), 0);
    assert_eq!(segment_number(TURN / 4, 4), 1);
    assert_eq!(segment_number(TURN / 2, 4), 2);
    assert_eq!(segment_number(3 * TURN / 4, 4), 3);
    assert_eq!(segment_number(TURN - 1, 4), 3);
}

#[test]
fn segment_of_thirds() {
    assert_eq!(segment_number(TURN / 3, 3), 0);
    assert_eq!(segment_number(TURN / 3 + 1, 3), 1);
    assert_eq!(segment_number(2 * TURN / 3 + 1, 3), 2);
}

#[test]
fn segment_start_is_zero_for_every_ring() {
    for count in 1..=64usize {
        assert_eq!(segment_number(0, count), 0);
    }
}

#[test]
fn segment_single_entry_ring() {
    assert_eq!(segment_number(0, 1), 0);
    assert_eq!(segment_number(TURN / 2, 1), 0);
    assert_eq!(segment_number(TURN - 1, 1), 0);
    assert_eq!(segment_number(u64::MAX, 1), 0);
}

#[test]
fn segment_rounding_overshoot_is_clamped() {
    assert_eq!(segment_number(TURN, 4), 3);
    assert_eq!(segment_number(TURN + 12345, 7), 6);
    assert_eq!(segment_number(u64::MAX, 5), 4);
    assert_eq!(segment_number(u64::MAX, usize::MAX), usize::MAX - 1);
}

#[test]
fn segment_stays_in_ring() {
    let counts: Vec<usize> = vec![1, 2, 3, 5, 8, 13, 1000, usize::MAX];
    for count in counts {
        let mut turn: u64 = 0;
        while turn < TURN {
            assert!(segment_number(turn, count) < count);
            turn += TURN / 97 + 1;
        }
    }
}

#[test]
fn segment_never_goes_back_over_a_revolution() {
    for count in 1..=12usize {
        let mut previous: usize = 0;
        let mut turn: u64 = 0;
        while turn <= TURN + 5 {
            let segment = segment_number(turn, count);
            assert!(segment >= previous);
            previous = segment;
            turn += TURN / 1000 + 3;
        }
        assert_eq!(previous, count - 1);
    }
}
