use process_viewer::graph::{inflate, GraphError, SeriesGraph};
use process_viewer::labels::{axis_labels, LabelPolicy};
use process_viewer::rotating::RotatingBuffer;

fn zeros(n: usize) -> RotatingBuffer<u64> {
    RotatingBuffer::new(vec![0u64; n])
}

fn quadruple(policy: LabelPolicy, ceiling: u64) -> [String; 4] {
    let labels = axis_labels(policy, ceiling);
    [labels.top, labels.mid, labels.bottom, labels.unit]
}

#[test]
fn new_graph_is_empty_with_zero_floor() {
    let graph = SeriesGraph::new(None, LabelPolicy::Percentage);
    assert_eq!(graph.series_count(), 0);
    assert_eq!(graph.largest_sample(), 0);
    assert_eq!(graph.effective_ceiling(), 0);
    assert!(!graph.needs_repaint());
    assert_eq!(graph.series_name(0), None);
    assert_eq!(graph.sample(0, 0), None);
}

#[test]
fn add_series_refuses_other_lengths() {
    let mut graph = SeriesGraph::new(None, LabelPolicy::ByteMagnitude);
    assert_eq!(graph.add_series(zeros(61), "RAM", Some(4)), Ok(0));
    assert_eq!(graph.add_series(zeros(61), "Swap", Some(2)), Ok(1));
    assert_eq!(graph.add_series(zeros(60), "short", None), Err(GraphError::LengthMismatch));
    assert_eq!(graph.series_count(), 2);
    assert_eq!(graph.series_name(0), Some("RAM"));
    assert_eq!(graph.series_name(1), Some("Swap"));
    assert_eq!(graph.series_name(2), None);
}

#[test]
fn sample_update_shifts_into_the_named_series() {
    let mut graph = SeriesGraph::new(None, LabelPolicy::ByteMagnitude);
    graph.add_series(zeros(3), "a", None).unwrap();
    graph.add_series(zeros(3), "b", None).unwrap();
    assert_eq!(graph.sample_update(1, 7), Ok(()));
    assert_eq!(graph.sample_update(1, 8), Ok(()));
    assert_eq!(graph.sample(1, 0), Some(8));
    assert_eq!(graph.sample(1, 1), Some(7));
    assert_eq!(graph.sample(1, 2), Some(0));
    assert_eq!(graph.sample(1, 3), None);
    assert_eq!(graph.sample(0, 0), Some(0));
    assert_eq!(graph.sample_update(2, 1), Err(GraphError::NoSuchSeries));
    assert_eq!(graph.largest_sample(), 8);
}

#[test]
fn ceiling_follows_samples_with_overhead() {
    let mut graph = SeriesGraph::new(None, LabelPolicy::ByteMagnitude);
    graph.add_series(zeros(4), "", None).unwrap();
    graph.set_overhead(Some(20));
    graph.sample_update(0, 1_000).unwrap();
    assert_eq!(graph.effective_ceiling(), 1_200);
    graph.sample_update(0, 10).unwrap();
    assert_eq!(graph.effective_ceiling(), 1_200);
    for _ in 0..4 {
        graph.sample_update(0, 10).unwrap();
    }
    assert_eq!(graph.effective_ceiling(), 12);
}

#[test]
fn ceiling_is_clamped_to_the_floor() {
    let mut graph = SeriesGraph::new(None, LabelPolicy::Percentage);
    graph.add_series(zeros(4), "", None).unwrap();
    graph.set_minimum(100_000);
    graph.sample_update(0, 40_000).unwrap();
    assert_eq!(graph.effective_ceiling(), 100_000);
    graph.sample_update(0, 250_500).unwrap();
    assert_eq!(graph.effective_ceiling(), 250_500);
}

#[test]
fn fixed_ceiling_ignores_samples_but_not_the_floor() {
    let mut graph = SeriesGraph::new(Some(500), LabelPolicy::ByteMagnitude);
    graph.add_series(zeros(2), "", None).unwrap();
    graph.set_overhead(Some(20));
    graph.sample_update(0, 9_000).unwrap();
    assert_eq!(graph.effective_ceiling(), 500);
    graph.set_minimum(700);
    assert_eq!(graph.effective_ceiling(), 700);
}

#[test]
fn inflate_adds_the_margin_and_saturates() {
    assert_eq!(inflate(1_000, None), 1_000);
    assert_eq!(inflate(1_000, Some(0)), 1_000);
    assert_eq!(inflate(1_000, Some(20)), 1_200);
    assert_eq!(inflate(7, Some(20)), 8);
    assert_eq!(inflate(u64::MAX, Some(20)), u64::MAX);
    assert_eq!(inflate(u64::MAX, Some(u64::MAX)), u64::MAX);
    assert_eq!(inflate(0, Some(u64::MAX)), 0);
}

#[test]
fn invalidate_asks_for_a_repaint() {
    let mut graph = SeriesGraph::new(None, LabelPolicy::Temperature);
    graph.invalidate();
    assert!(graph.needs_repaint());
    graph.mark_painted();
    assert!(!graph.needs_repaint());
}

#[test]
fn percentage_axis_up_to_one_hundred() {
    assert_eq!(quadruple(LabelPolicy::Percentage, 0), ["100", "50", "0", "%"]);
    assert_eq!(quadruple(LabelPolicy::Percentage, 100_000), ["100", "50", "0", "%"]);
}

#[test]
fn percentage_axis_above_one_hundred() {
    assert_eq!(quadruple(LabelPolicy::Percentage, 100_001), ["101", "50", "0", "%"]);
    assert_eq!(quadruple(LabelPolicy::Percentage, 250_500), ["251", "125", "0", "%"]);
    assert_eq!(quadruple(LabelPolicy::Percentage, 400_000), ["400", "200", "0", "%"]);
}

#[test]
fn magnitude_axis_units_by_threshold() {
    assert_eq!(quadruple(LabelPolicy::ByteMagnitude, 0), ["0", "0", "0", "kB"]);
    assert_eq!(quadruple(LabelPolicy::ByteMagnitude, 99_999), ["99999", "49999.5", "0", "kB"]);
    assert_eq!(quadruple(LabelPolicy::ByteMagnitude, 100_000), ["100.0", "50.0", "0", "MB"]);
    assert_eq!(quadruple(LabelPolicy::ByteMagnitude, 9_999_999), ["10000.0", "5000.0", "0", "MB"]);
    assert_eq!(quadruple(LabelPolicy::ByteMagnitude, 10_000_000), ["10.0", "5.0", "0", "GB"]);
    assert_eq!(quadruple(LabelPolicy::ByteMagnitude, 16_300_000), ["16.3", "8.2", "0", "GB"]);
    assert_eq!(
        quadruple(LabelPolicy::ByteMagnitude, 10_000_000_000),
        ["10.0", "5.0", "0", "TB"]
    );
}

#[test]
fn temperature_axis_in_celsius() {
    assert_eq!(quadruple(LabelPolicy::Temperature, 72_000), ["72.0", "36.0", "0", "\u{b0}C"]);
    assert_eq!(quadruple(LabelPolicy::Temperature, 45_250), ["45.3", "22.6", "0", "\u{b0}C"]);
}

#[test]
fn graph_labels_follow_the_ceiling() {
    let mut graph = SeriesGraph::new(None, LabelPolicy::Percentage);
    graph.add_series(zeros(3), "", None).unwrap();
    graph.set_minimum(100_000);
    let labels = graph.labels();
    assert_eq!(labels.top, "100");
    graph.sample_update(0, 180_000).unwrap();
    let labels = graph.labels();
    assert_eq!(labels.top, "180");
    assert_eq!(labels.mid, "90");
    graph.set_label_callback(LabelPolicy::Temperature);
    assert_eq!(graph.labels().top, "180.0");
}

#[test]
fn order_hint_and_labels_width_are_passed_through() {
    let mut graph = SeriesGraph::new(None, LabelPolicy::ByteMagnitude);
    assert_eq!(graph.labels_width(), None);
    graph.set_labels_width(70);
    assert_eq!(graph.labels_width(), Some(70));
    graph.add_series(zeros(2), "RAM", Some(4)).unwrap();
    graph.add_series(zeros(2), "Swap", None).unwrap();
    assert_eq!(graph.series_order_hint(0), Some(4));
    assert_eq!(graph.series_order_hint(1), None);
    assert_eq!(graph.series_order_hint(2), None);
}

#[test]
fn byte_count_axis_divides_before_the_thresholds() {
    assert_eq!(quadruple(LabelPolicy::ByteCount, 0), ["0", "0", "0", "kB"]);
    assert_eq!(quadruple(LabelPolicy::ByteCount, 999), ["0", "0", "0", "kB"]);
    assert_eq!(quadruple(LabelPolicy::ByteCount, 1_000), ["1", "0.5", "0", "kB"]);
    assert_eq!(quadruple(LabelPolicy::ByteCount, 99_999_999), ["99999", "49999.5", "0", "kB"]);
    assert_eq!(quadruple(LabelPolicy::ByteCount, 100_000_000), ["100.0", "50.0", "0", "MB"]);
    assert_eq!(quadruple(LabelPolicy::ByteCount, 16_300_000_000), ["16.3", "8.2", "0", "GB"]);
    assert_eq!(
        quadruple(LabelPolicy::ByteCount, 10_000_000_000_000),
        ["10.0", "5.0", "0", "TB"]
    );
    assert_eq!(quadruple(LabelPolicy::ByteCount, u64::MAX), ["18446744.1", "9223372.0", "0", "TB"]);
}
