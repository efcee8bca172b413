use velora_ta::CircularBuffer;

#[test]
fn test_new_buffer() {
    let buffer: CircularBuffer<f64> = CircularBuffer::new(5);
    assert_eq!(buffer.capacity(), 5);
    assert_eq!(buffer.len(), 0);
    assert!(buffer.is_empty());
    assert!(!buffer.is_full());
}

#[test]
fn test_push_and_get() {
    let mut buffer = CircularBuffer::new(3);
    buffer.push(10.0);
    buffer.push(20.0);
    buffer.push(30.0);

    assert_eq!(buffer.len(), 3);
    assert!(buffer.is_full());
    assert_eq!(buffer.get(0), Some(10.0));
    assert_eq!(buffer.get(1), Some(20.0));
    assert_eq!(buffer.get(2), Some(30.0));
    assert_eq!(buffer.get(3), None);
}

#[test]
fn test_circular_overwrite() {
    let mut buffer = CircularBuffer::new(3);
    buffer.push(10.0);
    buffer.push(20.0);
    buffer.push(30.0);
    buffer.push(40.0); // Overwrites 10.0

    assert_eq!(buffer.len(), 3);
    assert_eq!(buffer.get(0), Some(20.0));
    assert_eq!(buffer.get(1), Some(30.0));
    assert_eq!(buffer.get(2), Some(40.0));
}

#[test]
fn test_first_and_last() {
    let mut buffer = CircularBuffer::new(3);
    assert_eq!(buffer.first(), None);
    assert_eq!(buffer.last(), None);

    buffer.push(10.0);
    assert_eq!(buffer.first(), Some(10.0));
    assert_eq!(buffer.last(), Some(10.0));

    buffer.push(20.0);
    buffer.push(30.0);
    assert_eq!(buffer.first(), Some(10.0));
    assert_eq!(buffer.last(), Some(30.0));

    buffer.push(40.0); // Overwrites 10.0
    assert_eq!(buffer.first(), Some(20.0));
    assert_eq!(buffer.last(), Some(40.0));
}

#[test]
fn test_sum() {
    let mut buffer = CircularBuffer::new(3);
    buffer.push(10.0);
    buffer.push(20.0);
    buffer.push(30.0);

    assert_eq!(buffer.sum(), 60.0);

    buffer.push(40.0); // Overwrites 10.0, sum = 20 + 30 + 40 = 90
    assert_eq!(buffer.sum(), 90.0);
}

#[test]
fn test_max_min() {
    let mut buffer = CircularBuffer::new(3);
    assert_eq!(buffer.max(), None);
    assert_eq!(buffer.min(), None);

    buffer.push(20.0);
    buffer.push(10.0);
    buffer.push(30.0);

    assert_eq!(buffer.max(), Some(30.0));
    assert_eq!(buffer.min(), Some(10.0));
}

#[test]
fn test_clear() {
    let mut buffer = CircularBuffer::new(3);
    buffer.push(10.0);
    buffer.push(20.0);
    buffer.push(30.0);

    assert_eq!(buffer.len(), 3);

    buffer.clear();
    assert_eq!(buffer.len(), 0);
    assert!(buffer.is_empty());
    assert_eq!(buffer.first(), None);
    assert_eq!(buffer.last(), None);
}

/// Collects what the buffer's iterator yields, oldest first.
fn collect_values(buffer: &CircularBuffer<f64>) -> Vec<f64> {
    let mut values = Vec::new();
    let mut iter = buffer.iter();
    while let Some(value) = iter.next() {
        values.push(*value);
    }
    values
}

#[test]
fn test_iterator() {
    let mut buffer = CircularBuffer::new(3);
    buffer.push(10.0);
    buffer.push(20.0);
    buffer.push(30.0);

    let values: Vec<f64> = collect_values(&buffer);
    assert_eq!(values, vec![10.0, 20.0, 30.0]);

    buffer.push(40.0); // Overwrites 10.0
    let values: Vec<f64> = collect_values(&buffer);
    assert_eq!(values, vec![20.0, 30.0, 40.0]);
}

#[test]
fn test_iterator_size_hint() {
    let mut buffer = CircularBuffer::new(5);
    buffer.push(1.0);
    buffer.push(2.0);
    buffer.push(3.0);

    let iter = buffer.iter();
    assert_eq!(iter.size_hint(), (3, Some(3)));
}

#[test]
fn window_keeps_the_latest_values_after_many_pushes() {
    let mut buffer: CircularBuffer<i64> = CircularBuffer::new(3);
    for value in 1..=10 {
        buffer.push(value);
        assert!(buffer.len() <= buffer.capacity());
    }
    assert_eq!(buffer.as_slice(), vec![8, 9, 10]);
    assert_eq!(buffer.first(), Some(8));
    assert_eq!(buffer.last(), Some(10));
    assert_eq!(buffer.capacity(), 3);
}

#[test]
fn window_not_yet_full_keeps_everything() {
    let mut buffer: CircularBuffer<u64> = CircularBuffer::new(4);
    buffer.push(5);
    buffer.push(6);
    assert_eq!(buffer.as_slice(), vec![5, 6]);
    assert!(!buffer.is_full());
    assert_eq!(buffer.get(1), Some(6));
    assert_eq!(buffer.get(2), None);
}

#[test]
fn capacity_one_holds_only_the_newest_value() {
    let mut buffer: CircularBuffer<i64> = CircularBuffer::new(1);
    buffer.push(7);
    buffer.push(-3);
    assert_eq!(buffer.as_slice(), vec![-3]);
    assert_eq!(buffer.first(), Some(-3));
    assert_eq!(buffer.last(), Some(-3));
    assert!(buffer.is_full());
}

#[test]
fn clear_keeps_capacity_and_starts_a_new_window() {
    let mut buffer: CircularBuffer<i64> = CircularBuffer::new(2);
    buffer.push(1);
    buffer.push(2);
    buffer.push(3);
    buffer.clear();
    assert_eq!(buffer.capacity(), 2);
    buffer.push(4);
    assert_eq!(buffer.as_slice(), vec![4]);
    buffer.push(5);
    buffer.push(6);
    assert_eq!(buffer.as_slice(), vec![5, 6]);
}

#[test]
fn integer_sum_is_the_total_of_the_window() {
    let mut buffer: CircularBuffer<i64> = CircularBuffer::new(3);
    assert_eq!(buffer.sum(), 0);
    buffer.push(-5);
    buffer.push(7);
    assert_eq!(buffer.sum(), 2);
    buffer.push(100);
    buffer.push(1);
    assert_eq!(buffer.sum(), 108);
}

#[test]
fn integer_extremes_are_window_members() {
    let mut buffer: CircularBuffer<i64> = CircularBuffer::new(4);
    for value in [3, -2, 9, 9, 4, -7] {
        buffer.push(value);
    }
    // window is [9, 9, 4, -7]
    assert_eq!(buffer.max(), Some(9));
    assert_eq!(buffer.min(), Some(-7));
}

#[test]
fn max_and_min_follow_partial_cmp_with_incomparable_values_as_equal() {
    let mut buffer: CircularBuffer<f64> = CircularBuffer::new(2);
    buffer.push(1.0);
    buffer.push(f64::NAN);
    // 1.0 and NaN compare as equal: max takes the later value, min keeps the earlier one.
    assert!(buffer.max().unwrap().is_nan());
    assert_eq!(buffer.min(), Some(1.0));

    buffer.push(2.0); // window is [NaN, 2.0]
    assert_eq!(buffer.max(), Some(2.0));
    assert!(buffer.min().unwrap().is_nan());
}

#[test]
fn clone_is_independent() {
    let mut buffer: CircularBuffer<i64> = CircularBuffer::new(2);
    buffer.push(1);
    buffer.push(2);
    let copy = buffer.clone();
    buffer.push(3);
    assert_eq!(copy.as_slice(), vec![1, 2]);
    assert_eq!(buffer.as_slice(), vec![2, 3]);
    assert_eq!(copy.capacity(), 2);
}

#[test]
fn iterator_yields_window_in_order_and_counts_down() {
    let mut buffer: CircularBuffer<i64> = CircularBuffer::new(3);
    for value in [1, 2, 3, 4] {
        buffer.push(value);
    }
    let mut iter = buffer.iter();
    assert_eq!(iter.size_hint(), (3, Some(3)));
    assert_eq!(iter.next(), Some(&2));
    assert_eq!(iter.size_hint(), (2, Some(2)));
    assert_eq!(iter.next(), Some(&3));
    assert_eq!(iter.next(), Some(&4));
    assert_eq!(iter.size_hint(), (0, Some(0)));
    assert_eq!(iter.next(), None);
    assert_eq!(iter.next(), None);
}
