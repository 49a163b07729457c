use stepper_motion::{count_iter, search_pattern, starts_with, CircularBuffer};

#[test]
fn push_small() {
    let mut c = CircularBuffer::<u32, 1>::default();
    c.push(123);
    assert_eq!(c.length(), 1);
    assert_eq!(c.data[0], 123);
}

#[test]
fn push_overwrites() {
    let mut c = CircularBuffer::<u32, 1>::default();
    c.push(321);
    assert_eq!(c.length(), 1);
    assert_eq!(c.data[0], 321);
}

#[test]
fn push_begin_end_with_overlap() {
    let mut c = CircularBuffer::<u32, 2>::default();
    assert_eq!(c.begin, 0);
    assert_eq!(c.length, 0);
    c.push(111);
    assert_eq!(c.begin, 0);
    assert_eq!(c.length, 1);
    c.push(222);
    assert_eq!(c.begin, 0);
    assert_eq!(c.length, 2);
    c.push(321);
    assert_eq!(c.begin, 1);
    assert_eq!(c.length, 2);
}

#[test]
fn push_size2_overwrites() {
    let mut c = CircularBuffer::<u32, 2>::default();
    c.push(111);
    c.push(222);
    c.push(321);
    assert_eq!(c.length(), 2);
    assert_eq!(c.data[0], 321);
    assert_eq!(c.data[1], 222);
}

#[test]
fn default_buffer_is_filled_with_defaults() {
    let c = CircularBuffer::<u8, 5>::default();
    assert_eq!(c.data, [0u8; 5]);
    assert!(c.is_empty());
}

#[test]
fn consume_hands_out_oldest_first_and_empties() {
    let mut c = CircularBuffer::<u8, 4>::default();
    c.push(1);
    c.push(2);
    c.push(3);
    assert!(!c.is_empty());
    assert_eq!(c.consume(), vec![1, 2, 3]);
    assert!(c.is_empty());
    assert_eq!(c.begin, 0);
    assert_eq!(c.consume(), Vec::<u8>::new());
    c.push(9);
    assert_eq!(c.data, [9, 2, 3, 0]);
    assert_eq!(c.consume(), vec![9]);
}

#[test]
fn consume_wraps_around() {
    let mut c = CircularBuffer::<u8, 3> { data: [7, 8, 9], begin: 2, length: 3 };
    assert_eq!(c.consume(), vec![9, 7, 8]);
}

#[test]
fn search_pattern_finds_first_occurrence() {
    assert_eq!(search_pattern(&[1, 2, 3, 2, 3], &[2, 3]), 1);
    assert_eq!(search_pattern(&[1, 2, 3], &[3]), 2);
    assert_eq!(search_pattern(&[1, 2, 3], &[3, 4]), -1);
    assert_eq!(search_pattern(&[1, 2, 3], &[]), 0);
    assert_eq!(search_pattern::<u8>(&[], &[]), 0);
    assert_eq!(search_pattern(&[], &[1]), -1);
    assert_eq!(search_pattern(&[1, 2], &[1, 2, 3]), -1);
    assert_eq!(search_pattern(&[5, 5, 6], &[5, 6]), 1);
}

#[test]
fn starts_with_compares_the_common_part() {
    assert!(starts_with(&[1, 2, 3], &[1, 2]));
    assert!(starts_with(&[1, 2], &[1, 2, 3]));
    assert!(!starts_with(&[1, 2, 3], &[1, 3]));
    assert!(starts_with::<u8>(&[], &[1]));
    assert_eq!(count_iter(&[1, 2, 3]), 3);
}
