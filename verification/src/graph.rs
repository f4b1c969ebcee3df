//! A graph of several named series over one time window, with the scaling
//! policy that decides how high its value axis reaches.

use crate::labels::{axis_labels, axis_text, AxisLabels, LabelPolicy};
use crate::rotating::{shifted, RotatingBuffer};
use vstd::prelude::*;
use vstd::string::StringExecFns;

verus! {

/// One named track of samples.
struct Series {
    name: String,
    buffer: RotatingBuffer<u64>,
    order_hint: Option<u32>,
}

/// What a series holds: its name, its samples (newest first) and the
/// ordering weight it was registered with. The weight is kept for the
/// painter and read by nothing here.
pub struct SeriesView {
    pub name: Seq<char>,
    pub samples: Seq<u64>,
    pub order_hint: Option<u32>,
}

/// What a graph holds.
pub struct GraphView {
    /// The series, in the order in which they were added.
    pub series: Seq<SeriesView>,
    /// A fixed top of the axis; `None` lets the axis follow the samples.
    pub value_ceiling: Option<u64>,
    /// The least height the axis may have.
    pub value_floor: u64,
    /// Headroom above the largest sample, in percent of it.
    pub overhead_margin: Option<u64>,
    /// How the ceiling is turned into labels.
    pub policy: LabelPolicy,
    /// Room for the labels in pixels; handed through to the painter.
    pub labels_width: Option<u32>,
    /// Whether a repaint has been asked for and not yet made.
    pub repaint_due: bool,
}

/// Why a graph refused an operation.
#[derive(Clone, Copy, Debug, PartialEq, Eq, Structural)]
pub enum GraphError {
    /// The series offered is not as long as the series already there.
    LengthMismatch,
    /// There is no series at the index given.
    NoSuchSeries,
}

/// The largest of `samples`, zero if there are none.
pub open spec fn seq_max(samples: Seq<u64>) -> u64
    decreases samples.len(),
{
    if samples.len() == 0 {
        0
    } else if samples.last() > seq_max(samples.drop_last()) {
        samples.last()
    } else {
        seq_max(samples.drop_last())
    }
}

/// The largest sample that any of `series` holds, zero if there is none.
pub open spec fn max_sample(series: Seq<SeriesView>) -> u64
    decreases series.len(),
{
    if series.len() == 0 {
        0
    } else if seq_max(series.last().samples) > max_sample(series.drop_last()) {
        seq_max(series.last().samples)
    } else {
        max_sample(series.drop_last())
    }
}

/// `largest` with the headroom added: `largest * (1 + margin / 100)`, rounded
/// down and held at `u64::MAX`.
pub open spec fn inflated(largest: u64, overhead_margin: Option<u64>) -> u64 {
    match overhead_margin {
        Some(margin) => {
            if largest + largest * margin / 100 > u64::MAX {
                u64::MAX
            } else {
                (largest + largest * margin / 100) as u64
            }
        },
        None => largest,
    }
}

impl GraphView {
    /// All series span the same number of samples.
    pub open spec fn is_uniform(self) -> bool {
        forall|i: int, j: int|
            0 <= i < self.series.len() && 0 <= j < self.series.len()
                ==> self.series[i].samples.len() == self.series[j].samples.len()
    }

    /// The top of the axis before the floor is applied: the fixed ceiling
    /// where there is one, else the largest sample with its headroom.
    pub open spec fn raw_ceiling(self) -> u64 {
        match self.value_ceiling {
            Some(ceiling) => ceiling,
            None => inflated(max_sample(self.series), self.overhead_margin),
        }
    }

    /// The top of the axis: never below the floor.
    pub open spec fn effective_ceiling(self) -> u64 {
        if self.raw_ceiling() < self.value_floor {
            self.value_floor
        } else {
            self.raw_ceiling()
        }
    }
}

/// A graph of named series that share one window length.
pub struct SeriesGraph {
    series: Vec<Series>,
    value_ceiling: Option<u64>,
    value_floor: u64,
    overhead_margin: Option<u64>,
    policy: LabelPolicy,
    labels_width: Option<u32>,
    repaint_due: bool,
}

impl View for SeriesGraph {
    type V = GraphView;

    closed spec fn view(&self) -> GraphView {
        GraphView {
            series: Seq::new(
                self.series@.len(),
                |i: int|
                    SeriesView {
                        name: self.series@[i].name@,
                        samples: self.series@[i].buffer@,
                        order_hint: self.series@[i].order_hint,
                    },
            ),
            value_ceiling: self.value_ceiling,
            value_floor: self.value_floor,
            overhead_margin: self.overhead_margin,
            policy: self.policy,
            labels_width: self.labels_width,
            repaint_due: self.repaint_due,
        }
    }
}

impl SeriesGraph {
    /// Every buffer is in order.
    pub closed spec fn buffers_wf(&self) -> bool {
        forall|i: int| 0 <= i < self.series@.len() ==> (#[trigger] self.series@[i]).buffer.wf()
    }

    /// The graph is in order: its buffers are, and they are equally long.
    pub open spec fn wf(&self) -> bool {
        self.buffers_wf() && self@.is_uniform()
    }

    /// A graph without series. With `value_ceiling` the axis is fixed; with
    /// `None` it follows the samples. The floor starts at zero, without
    /// headroom.
    pub fn new(value_ceiling: Option<u64>, policy: LabelPolicy) -> (graph: Self)
        ensures
            graph.wf(),
            graph@ == (GraphView {
                series: Seq::empty(),
                value_ceiling,
                value_floor: 0,
                overhead_margin: None,
                policy,
                labels_width: None,
                repaint_due: false,
            }),
    {
        let graph = SeriesGraph {
            series: Vec::new(),
            value_ceiling,
            value_floor: 0,
            overhead_margin: None,
            policy,
            labels_width: None,
            repaint_due: false,
        };
        assert(graph@.series =~= Seq::empty());
        graph
    }

    /// Registers a series. It is refused, and the graph left as it was, when
    /// it is not as long as the series already there. On success the result
    /// is the new series' index.
    pub fn add_series(
        &mut self,
        initial_samples: RotatingBuffer<u64>,
        name: &str,
        order_hint: Option<u32>,
    ) -> (added: Result<usize, GraphError>)
        requires
            old(self).wf(),
            initial_samples.wf(),
        ensures
            final(self).wf(),
            added is Ok <==> (old(self)@.series.len() == 0 || old(self)@.series[0].samples.len()
                == initial_samples@.len()),
            added is Ok ==> added == Ok::<usize, GraphError>(old(self)@.series.len() as usize)
                && final(self)@ == (GraphView {
                series: old(self)@.series.push(
                    SeriesView { name: name@, samples: initial_samples@, order_hint },
                ),
                ..old(self)@
            }),
            added is Err ==> added == Err::<usize, GraphError>(GraphError::LengthMismatch)
                && final(self)@ == old(self)@,
    {
        if self.series.len() > 0 && self.series[0].buffer.len() != initial_samples.len() {
            assert(old(self)@.series[0].samples == self.series@[0].buffer@);
            return Err(GraphError::LengthMismatch);
        }
        let index = self.series.len();
        let ghost added_view = SeriesView { name: name@, samples: initial_samples@, order_hint };
        self.series.push(
            Series { name: String::from_str(name), buffer: initial_samples, order_hint },
        );
        proof {
            assert(self@.series =~= old(self)@.series.push(added_view));
            assert forall|i: int, j: int|
                0 <= i < self@.series.len() && 0 <= j < self@.series.len()
                    implies self@.series[i].samples.len() == self@.series[j].samples.len() by {
                if old(self)@.series.len() > 0 {
                    assert(old(self)@.series[0].samples == old(self).series@[0].buffer@);
                    if i < index {
                        assert(old(self)@.series[i].samples.len()
                            == old(self)@.series[0].samples.len());
                    }
                    if j < index {
                        assert(old(self)@.series[j].samples.len()
                            == old(self)@.series[0].samples.len());
                    }
                }
            }
        }
        Ok(index)
    }

    /// Installs the policy that turns the ceiling into labels.
    pub fn set_label_callback(&mut self, policy: LabelPolicy)
        ensures
            final(self)@ == (GraphView { policy, ..old(self)@ }),
            old(self).wf() ==> final(self).wf(),
    {
        self.policy = policy;
    }

    /// Sets the headroom kept above the largest sample, in percent of it.
    pub fn set_overhead(&mut self, margin: Option<u64>)
        ensures
            final(self)@ == (GraphView { overhead_margin: margin, ..old(self)@ }),
            old(self).wf() ==> final(self).wf(),
    {
        self.overhead_margin = margin;
    }

    /// Sets the least height of the axis.
    pub fn set_minimum(&mut self, floor: u64)
        ensures
            final(self)@ == (GraphView { value_floor: floor, ..old(self)@ }),
            old(self).wf() ==> final(self).wf(),
    {
        self.value_floor = floor;
    }

    /// Sets the room given to the labels.
    pub fn set_labels_width(&mut self, width: u32)
        ensures
            final(self)@ == (GraphView { labels_width: Some(width), ..old(self)@ }),
            old(self).wf() ==> final(self).wf(),
    {
        self.labels_width = Some(width);
    }

    /// Asks for a repaint. Nothing is recomputed here: labels and ceiling are
    /// worked out from the samples whenever they are read.
    pub fn invalidate(&mut self)
        ensures
            final(self)@ == (GraphView { repaint_due: true, ..old(self)@ }),
            old(self).wf() ==> final(self).wf(),
    {
        self.repaint_due = true;
    }

    /// Whether a repaint has been asked for since the last one.
    pub fn needs_repaint(&self) -> (due: bool)
        ensures
            due == self@.repaint_due,
    {
        self.repaint_due
    }

    /// Records that the graph has been painted.
    pub fn mark_painted(&mut self)
        ensures
            final(self)@ == (GraphView { repaint_due: false, ..old(self)@ }),
            old(self).wf() ==> final(self).wf(),
    {
        self.repaint_due = false;
    }

    /// The number of series.
    pub fn series_count(&self) -> (n: usize)
        ensures
            n == self@.series.len(),
    {
        self.series.len()
    }

    /// The name of the series at `series_index`, or `None` if there is none.
    pub fn series_name(&self, series_index: usize) -> (name: Option<&str>)
        ensures
            series_index < self@.series.len() ==> name is Some && name.unwrap()@
                == self@.series[series_index as int].name,
            series_index >= self@.series.len() ==> name is None,
    {
        if series_index < self.series.len() {
            Some(self.series[series_index].name.as_str())
        } else {
            None
        }
    }

    /// The ordering weight that the series at `series_index` was registered
    /// with; `None` if it has none or there is no such series.
    pub fn series_order_hint(&self, series_index: usize) -> (hint: Option<u32>)
        ensures
            hint == if series_index < self@.series.len() {
                self@.series[series_index as int].order_hint
            } else {
                None
            },
    {
        if series_index < self.series.len() {
            self.series[series_index].order_hint
        } else {
            None
        }
    }

    /// The room given to the labels, if any was set.
    pub fn labels_width(&self) -> (width: Option<u32>)
        ensures
            width == self@.labels_width,
    {
        self.labels_width
    }

    /// The `index`-th newest sample of the series at `series_index`, or
    /// `None` if there is no such series or no such sample.
    pub fn sample(&self, series_index: usize, index: usize) -> (sample: Option<u64>)
        requires
            self.wf(),
        ensures
            sample == if series_index < self@.series.len() && index
                < self@.series[series_index as int].samples.len() {
                Some(self@.series[series_index as int].samples[index as int])
            } else {
                None
            },
    {
        if series_index < self.series.len() {
            match self.series[series_index].buffer.get(index) {
                Some(value) => Some(*value),
                None => None,
            }
        } else {
            None
        }
    }

    /// Shifts `value` in as the newest sample of the series at
    /// `series_index`; its oldest sample is dropped. Without such a series
    /// nothing changes.
    pub fn sample_update(&mut self, series_index: usize, value: u64) -> (done: Result<
        (),
        GraphError,
    >)
        requires
            old(self).wf(),
        ensures
            final(self).wf(),
            done is Ok <==> series_index < old(self)@.series.len(),
            done is Err ==> done == Err::<(), GraphError>(GraphError::NoSuchSeries) && final(self)@
                == old(self)@,
            done is Ok ==> final(self)@ == (GraphView {
                series: old(self)@.series.update(
                    series_index as int,
                    SeriesView {
                        samples: shifted(old(self)@.series[series_index as int].samples, value),
                        ..old(self)@.series[series_index as int]
                    },
                ),
                ..old(self)@
            }),
    {
        if series_index >= self.series.len() {
            return Err(GraphError::NoSuchSeries);
        }
        self.series[series_index].buffer.push_front(value);
        proof {
            let before = old(self)@.series[series_index as int];
            let after = SeriesView { samples: shifted(before.samples, value), ..before };
            assert(self.series@[series_index as int].buffer@ =~= shifted(before.samples, value));
            assert(self@.series =~= old(self)@.series.update(series_index as int, after));
            assert forall|i: int, j: int|
                0 <= i < self@.series.len() && 0 <= j < self@.series.len()
                    implies self@.series[i].samples.len() == self@.series[j].samples.len() by {
                assert(old(self)@.series[i].samples.len() == old(self)@.series[j].samples.len());
            }
        }
        Ok(())
    }

    /// The largest sample that the graph holds.
    pub fn largest_sample(&self) -> (largest: u64)
        requires
            self.wf(),
        ensures
            largest == max_sample(self@.series),
    {
        let mut largest: u64 = 0;
        let mut i: usize = 0;
        while i < self.series.len()
            invariant
                self.wf(),
                0 <= i <= self.series@.len(),
                largest == max_sample(self@.series.take(i as int)),
            decreases self.series@.len() - i,
        {
            let buffer = &self.series[i].buffer;
            let mut within: u64 = 0;
            let mut j: usize = 0;
            while j < buffer.len()
                invariant
                    buffer.wf(),
                    0 <= j <= buffer@.len(),
                    within == seq_max(buffer@.take(j as int)),
                decreases buffer@.len() - j,
            {
                let value = buffer.get(j);
                assert(buffer@.take(j + 1).drop_last() =~= buffer@.take(j as int));
                match value {
                    Some(v) => {
                        if *v > within {
                            within = *v;
                        }
                    },
                    None => {},
                }
                j = j + 1;
            }
            proof {
                assert(buffer@.take(j as int) =~= buffer@);
                assert(self@.series.take(i + 1).drop_last() =~= self@.series.take(i as int));
                assert(self@.series.take(i + 1).last().samples == buffer@);
            }
            if within > largest {
                largest = within;
            }
            i = i + 1;
        }
        assert(self@.series.take(i as int) =~= self@.series);
        largest
    }

    /// The top of the value axis: the fixed ceiling where one is set, else
    /// the largest sample with its headroom; and never below the floor.
    pub fn effective_ceiling(&self) -> (ceiling: u64)
        requires
            self.wf(),
        ensures
            ceiling == self@.effective_ceiling(),
            ceiling >= self@.value_floor,
    {
        let raw: u64 = match self.value_ceiling {
            Some(ceiling) => ceiling,
            None => inflate(self.largest_sample(), self.overhead_margin),
        };
        if raw < self.value_floor {
            self.value_floor
        } else {
            raw
        }
    }

    /// The axis labels for the ceiling as it is now.
    pub fn labels(&self) -> (labels: AxisLabels)
        requires
            self.wf(),
        ensures
            labels@ == axis_text(self@.policy, self@.effective_ceiling() as nat),
    {
        axis_labels(self.policy, self.effective_ceiling())
    }
}

/// Adds the headroom to `largest`.
pub fn inflate(largest: u64, overhead_margin: Option<u64>) -> (ceiling: u64)
    ensures
        ceiling == inflated(largest, overhead_margin),
{
    match overhead_margin {
        Some(margin) => {
            assert(largest * margin <= 0xFFFF_FFFF_FFFF_FFFF * 0xFFFF_FFFF_FFFF_FFFF)
                by (nonlinear_arith)
                requires
                    largest <= 0xFFFF_FFFF_FFFF_FFFF,
                    margin <= 0xFFFF_FFFF_FFFF_FFFF,
            ;
            let extra: u128 = (largest as u128) * (margin as u128) / 100;
            let sum: u128 = (largest as u128) + extra;
            if sum > u64::MAX as u128 {
                u64::MAX
            } else {
                sum as u64
            }
        },
        None => largest,
    }
}

/// No sample lies above the largest one.
pub proof fn lemma_seq_max_bounds(samples: Seq<u64>, i: int)
    requires
        0 <= i < samples.len(),
    ensures
        samples[i] <= seq_max(samples),
    decreases samples.len(),
{
    if i < samples.len() - 1 {
        lemma_seq_max_bounds(samples.drop_last(), i);
    }
}

/// No sample of any series lies above the graph's largest sample.
pub proof fn lemma_max_sample_bounds(series: Seq<SeriesView>, i: int, j: int)
    requires
        0 <= i < series.len(),
        0 <= j < series[i].samples.len(),
    ensures
        series[i].samples[j] <= max_sample(series),
    decreases series.len(),
{
    if i < series.len() - 1 {
        lemma_max_sample_bounds(series.drop_last(), i, j);
    } else {
        lemma_seq_max_bounds(series[i].samples, j);
    }
}

/// The axis always spans from the floor to the effective ceiling: the
/// ceiling is never below the floor, and a graph that follows its samples
/// has every sample at or below the ceiling.
pub proof fn lemma_axis_spans_samples(graph: GraphView, i: int, j: int)
    requires
        0 <= i < graph.series.len(),
        0 <= j < graph.series[i].samples.len(),
    ensures
        graph.effective_ceiling() >= graph.value_floor,
        graph.value_ceiling is None ==> graph.series[i].samples[j] <= graph.effective_ceiling(),
{
    lemma_max_sample_bounds(graph.series, i, j);
    if let Some(margin) = graph.overhead_margin {
        let largest = max_sample(graph.series);
        assert(largest * margin / 100 >= 0) by (nonlinear_arith)
            requires
                largest >= 0,
                margin >= 0,
        ;
    }
}

} // verus!
