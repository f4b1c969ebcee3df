use process_viewer::peak::PeakTracker;
use process_viewer::rotating::RotatingBuffer;

#[test]
fn push_front_keeps_length_and_newest_first() {
    let mut buffer = RotatingBuffer::new(vec![0u64; 61]);
    assert_eq!(buffer.len(), 61);
    for value in 1..=200u64 {
        buffer.push_front(value);
        assert_eq!(buffer.len(), 61);
        assert_eq!(buffer.get(0), Some(&value));
    }
    for index in 0..61usize {
        assert_eq!(buffer.get(index), Some(&(200 - index as u64)));
    }
    assert_eq!(buffer.get(61), None);
}

#[test]
fn push_front_drops_the_oldest_sample() {
    let mut buffer = RotatingBuffer::new(vec![1u64, 2, 3]);
    buffer.push_front(9);
    assert_eq!(buffer.get(0), Some(&9));
    assert_eq!(buffer.get(1), Some(&1));
    assert_eq!(buffer.get(2), Some(&2));
    assert_eq!(buffer.get(3), None);
}

#[test]
fn rotating_buffer_holds_floats_too() {
    let mut buffer = RotatingBuffer::new(vec![0f64; 4]);
    buffer.push_front(1.5);
    buffer.push_front(2.5);
    assert_eq!(buffer.get(0), Some(&2.5));
    assert_eq!(buffer.get(1), Some(&1.5));
    assert_eq!(buffer.get(2), Some(&0.0));
    assert_eq!(buffer.len(), 4);
}

#[test]
fn get_mut_writes_through() {
    let mut buffer = RotatingBuffer::new(vec![1u64, 2, 3]);
    buffer.push_front(7);
    if let Some(sample) = buffer.get_mut(1) {
        *sample = 40;
    }
    assert_eq!(buffer.get(0), Some(&7));
    assert_eq!(buffer.get(1), Some(&40));
    assert_eq!(buffer.get(2), Some(&2));
}

#[test]
fn get_mut_past_the_end_is_none() {
    let mut buffer = RotatingBuffer::new(vec![1u64, 2, 3]);
    assert!(buffer.get_mut(3).is_none());
    assert!(buffer.get_mut(usize::MAX).is_none());
    assert_eq!(buffer.get(0), Some(&1));
}

#[test]
fn set_reports_whether_it_wrote() {
    let mut buffer = RotatingBuffer::new(vec![1u64, 2, 3]);
    assert!(buffer.set(2, 30));
    assert!(!buffer.set(3, 99));
    assert_eq!(buffer.get(2), Some(&30));
    assert_eq!(buffer.len(), 3);
}

#[test]
fn empty_buffer_stays_empty() {
    let mut buffer: RotatingBuffer<u64> = RotatingBuffer::new(Vec::new());
    assert!(buffer.is_empty());
    buffer.push_front(5);
    assert!(buffer.is_empty());
    assert_eq!(buffer.get(0), None);
    assert!(!buffer.set(0, 1));
}

#[test]
fn single_slot_buffer_holds_the_last_value() {
    let mut buffer = RotatingBuffer::new(vec![0u64]);
    buffer.push_front(1);
    buffer.push_front(2);
    assert_eq!(buffer.get(0), Some(&2));
    assert_eq!(buffer.len(), 1);
}

#[test]
fn observe_reports_strict_increase_only() {
    let mut tracker = PeakTracker::new(0);
    assert!(tracker.observe(100));
    assert_eq!(tracker.peak(), 100);
    assert!(!tracker.observe(50));
    assert_eq!(tracker.peak(), 100);
    assert!(!tracker.observe(100));
    assert_eq!(tracker.peak(), 100);
    assert!(tracker.observe(200));
    assert_eq!(tracker.peak(), 200);
}

#[test]
fn peak_never_decreases() {
    let mut tracker = PeakTracker::new(10);
    let mut last = tracker.peak();
    for value in [3u64, 10, 11, 0, 500, 499, u64::MAX, 1] {
        let before = tracker.peak();
        let changed = tracker.observe(value);
        assert!(tracker.peak() >= last);
        assert_eq!(changed, tracker.peak() > before);
        last = tracker.peak();
    }
    assert_eq!(tracker.peak(), u64::MAX);
}
