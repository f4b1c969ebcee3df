//! What the system page shows: processor, memory and swap gauges, the
//! temperature of each component, and a history graph for each of the three.

use crate::detail::{zero_history, HISTORY_LEN};
use crate::graph::{GraphView, SeriesGraph, SeriesView};
use crate::labels::{LabelPolicy, FULL_PERCENTAGE};
use crate::rotating::shifted;
use crate::text::{
    decimal, decimal_string, one_decimal, one_decimal_string, ratio_string, ratio_text,
};
use crate::units::{bytes_text, format_bytes};
use vstd::prelude::*;
use vstd::string::StringExecFns;

verus! {

/// The room, in pixels, given to the labels of the memory and temperature
/// graphs.
pub const WIDE_LABELS: u32 = 70;

/// The headroom, in percent, that the temperature graph keeps above its
/// largest sample.
pub const TEMPERATURE_OVERHEAD: u64 = 20;

/// The ordering weight of the memory series.
pub const RAM_WEIGHT: u32 = 4;

/// The ordering weight of the swap series.
pub const SWAP_WEIGHT: u32 = 2;

/// One temperature sensor as a snapshot reports it.
pub struct ComponentInfo {
    pub label: String,
    /// In thousandths of a degree Celsius.
    pub temperature: u64,
}

/// The system-wide figures of a snapshot.
pub struct SystemInfo {
    /// In thousandths of a percent.
    pub global_cpu_usage: u64,
    /// One entry per core, in thousandths of a percent.
    pub per_core_cpu_usage: Vec<u64>,
    /// In kilobytes, as the three figures after it.
    pub total_memory: u64,
    pub used_memory: u64,
    pub total_swap: u64,
    pub used_swap: u64,
    pub components: Vec<ComponentInfo>,
}

/// `ComponentInfo` with its label as a character sequence.
pub struct ComponentView {
    pub label: Seq<char>,
    pub temperature: u64,
}

/// `SystemInfo` as contracts see it.
pub struct SystemInfoView {
    pub global_cpu_usage: u64,
    pub per_core_cpu_usage: Seq<u64>,
    pub total_memory: u64,
    pub used_memory: u64,
    pub total_swap: u64,
    pub used_swap: u64,
    pub components: Seq<ComponentView>,
}

impl View for ComponentInfo {
    type V = ComponentView;

    open spec fn view(&self) -> ComponentView {
        ComponentView { label: self.label@, temperature: self.temperature }
    }
}

impl View for SystemInfo {
    type V = SystemInfoView;

    open spec fn view(&self) -> SystemInfoView {
        SystemInfoView {
            global_cpu_usage: self.global_cpu_usage,
            per_core_cpu_usage: self.per_core_cpu_usage@,
            total_memory: self.total_memory,
            used_memory: self.used_memory,
            total_swap: self.total_swap,
            used_swap: self.used_swap,
            components: Seq::new(self.components@.len(), |i: int| self.components@[i]@),
        }
    }
}

impl SystemInfoView {
    /// The temperatures of the components, in their order.
    pub open spec fn temperatures(self) -> Seq<u64> {
        Seq::new(self.components.len(), |i: int| self.components[i].temperature)
    }
}

/// A progress bar: its caption, and how full it is in thousandths.
pub struct Gauge {
    pub text: String,
    pub fraction: u64,
}

/// A progress bar as contracts see it.
pub struct GaugeView {
    pub text: Seq<char>,
    pub fraction: u64,
}

impl View for Gauge {
    type V = GaugeView;

    open spec fn view(&self) -> GaugeView {
        GaugeView { text: self.text@, fraction: self.fraction }
    }
}

/// The gauge of a processor at `cpu` thousandths of a percent.
pub open spec fn percent_gauge(cpu: u64) -> GaugeView {
    GaugeView { text: one_decimal(cpu as nat) + seq![' ', '%'], fraction: cpu / 100 }
}

/// Kilobytes in bytes, held at `u64::MAX`.
pub open spec fn kilobytes(kb: u64) -> u64 {
    if kb * 1_000 > u64::MAX {
        u64::MAX
    } else {
        (kb * 1_000) as u64
    }
}

/// `used` of `total`, both in kilobytes, as a gauge's caption.
pub open spec fn usage_text(used: u64, total: u64) -> Seq<char> {
    bytes_text(kilobytes(used) as nat) + seq![' ', '/', ' '] + bytes_text(kilobytes(total) as nat)
}

/// The share of `total` that `used` takes, in thousandths and held at
/// `u64::MAX`. Of a total of zero every share is zero.
pub open spec fn share(used: u64, total: u64) -> u64 {
    if total == 0 {
        0
    } else if used * 1_000 / (total as int) > u64::MAX {
        u64::MAX
    } else {
        (used * 1_000 / (total as int)) as u64
    }
}

/// The larger of the two.
pub open spec fn larger(a: u64, b: u64) -> u64 {
    if a > b {
        a
    } else {
        b
    }
}

/// The memory gauge for a snapshot.
pub open spec fn ram_gauge(info: SystemInfoView) -> GaugeView {
    GaugeView {
        text: usage_text(info.used_memory, info.total_memory),
        fraction: share(info.used_memory, info.total_memory),
    }
}

/// How full the swap gauge is. Without any swap it is empty, whatever is
/// reported as used; with swap, its fullness is measured against the larger
/// of swap and memory.
pub open spec fn swap_share(info: SystemInfoView) -> u64 {
    if info.total_swap == 0 {
        0
    } else {
        share(info.used_swap, larger(info.total_swap, info.total_memory))
    }
}

/// The swap gauge for a snapshot.
pub open spec fn swap_gauge(info: SystemInfoView) -> GaugeView {
    GaugeView { text: usage_text(info.used_swap, info.total_swap), fraction: swap_share(info) }
}

/// A gauge never divides by zero: of a total of zero every share is zero.
/// So the memory gauge of a snapshot without memory is empty, and the swap
/// gauge of a snapshot without swap is empty.
pub proof fn lemma_zero_total_gives_empty_gauge(info: SystemInfoView)
    ensures
        forall|used: u64| share(used, 0) == 0,
        info.total_memory == 0 ==> ram_gauge(info).fraction == 0,
        info.total_swap == 0 ==> swap_gauge(info).fraction == 0,
{
}

/// Nine times the Celsius reading plus 160 000, held at `u64::MAX`: divided
/// by 5 000 it is the reading in degrees Fahrenheit.
pub open spec fn fahrenheit_numerator(temperature: u64) -> u64 {
    if 9 * temperature + 160_000 > u64::MAX {
        u64::MAX
    } else {
        (9 * temperature + 160_000) as u64
    }
}

/// A temperature, given in thousandths of a degree Celsius, as it is shown:
/// one fractional digit, in Celsius or in Fahrenheit.
pub open spec fn temperature_text(temperature: u64, fahrenheit: bool) -> Seq<char> {
    if fahrenheit {
        ratio_text(fahrenheit_numerator(temperature) as nat, 5_000) + seq![' ', '\u{b0}', 'F']
    } else {
        one_decimal(temperature as nat) + seq![' ', '\u{b0}', 'C']
    }
}

/// Renders a processor's gauge.
pub fn make_percent_gauge(cpu: u64) -> (gauge: Gauge)
    ensures
        gauge@ == percent_gauge(cpu),
{
    proof {
        reveal_strlit(" %");
    }
    let mut text = one_decimal_string(cpu);
    text.append(" %");
    assert(text@ =~= percent_gauge(cpu).text);
    Gauge { text, fraction: cpu / 100 }
}

/// Turns kilobytes into bytes.
pub fn to_bytes(kb: u64) -> (bytes: u64)
    ensures
        bytes == kilobytes(kb),
{
    if kb > u64::MAX / 1_000 {
        u64::MAX
    } else {
        kb * 1_000
    }
}

/// Renders the caption of a memory gauge.
pub fn format_usage(used: u64, total: u64) -> (s: String)
    ensures
        s@ == usage_text(used, total),
{
    proof {
        reveal_strlit(" / ");
    }
    let mut s = format_bytes(to_bytes(used));
    s.append(" / ");
    let total_text = format_bytes(to_bytes(total));
    s.append(total_text.as_str());
    assert(s@ =~= usage_text(used, total));
    s
}

/// Computes the share of `total` that `used` takes.
pub fn compute_share(used: u64, total: u64) -> (fraction: u64)
    ensures
        fraction == share(used, total),
{
    if total == 0 {
        0
    } else {
        let scaled: u128 = (used as u128) * 1_000;
        let quotient: u128 = scaled / (total as u128);
        if quotient > u64::MAX as u128 {
            u64::MAX
        } else {
            quotient as u64
        }
    }
}

/// Computes how full the swap gauge is.
pub fn compute_swap_share(info: &SystemInfo) -> (fraction: u64)
    ensures
        fraction == swap_share(info@),
{
    if info.total_swap == 0 {
        0
    } else if info.total_swap > info.total_memory {
        compute_share(info.used_swap, info.total_swap)
    } else {
        compute_share(info.used_swap, info.total_memory)
    }
}

/// Renders a temperature.
pub fn format_temperature(temperature: u64, fahrenheit: bool) -> (s: String)
    ensures
        s@ == temperature_text(temperature, fahrenheit),
{
    proof {
        reveal_strlit(" \u{b0}F");
        reveal_strlit(" \u{b0}C");
    }
    if fahrenheit {
        let numerator: u64 = if temperature > (u64::MAX - 160_000) / 9 {
            u64::MAX
        } else {
            9 * temperature + 160_000
        };
        let mut s = ratio_string(numerator, 5_000);
        s.append(" \u{b0}F");
        assert(s@ =~= temperature_text(temperature, fahrenheit));
        s
    } else {
        let mut s = one_decimal_string(temperature);
        s.append(" \u{b0}C");
        assert(s@ =~= temperature_text(temperature, fahrenheit));
        s
    }
}

/// What the system page holds.
pub struct SystemView {
    /// The total processor usage first, then one gauge per core.
    pub cpu_gauges: Seq<GaugeView>,
    pub ram: GaugeView,
    pub swap: GaugeView,
    /// The temperature of each component, as text.
    pub component_labels: Seq<Seq<char>>,
    /// One series per core, in thousandths of a percent.
    pub cpu_usage_history: GraphView,
    /// Memory first, swap second, in kilobytes.
    pub ram_usage_history: GraphView,
    /// One series per component, in thousandths of a degree Celsius.
    pub temperature_usage_history: GraphView,
}

/// A graph after one more tick: `values[i]` is shifted into the `i`-th
/// series. Series without a value, and values without a series, are passed
/// over.
pub open spec fn with_samples(graph: GraphView, values: Seq<u64>) -> GraphView {
    GraphView {
        series: Seq::new(
            graph.series.len(),
            |i: int|
                if i < values.len() {
                    SeriesView {
                        samples: shifted(graph.series[i].samples, values[i]),
                        ..graph.series[i]
                    }
                } else {
                    graph.series[i]
                },
        ),
        ..graph
    }
}

/// A series of zeros over the whole window.
pub open spec fn zero_series(name: Seq<char>, order_hint: Option<u32>) -> SeriesView {
    SeriesView {
        name,
        samples: Seq::new(HISTORY_LEN as nat, |i: int| 0u64),
        order_hint,
    }
}

/// The name of the series of core `i`.
pub open spec fn core_name(i: nat) -> Seq<char> {
    "processor "@ + decimal(i)
}

/// The system page as it is laid out for a snapshot, before any figure of
/// memory, swap or temperature history is taken.
pub open spec fn laid_out(info: SystemInfoView) -> SystemView {
    SystemView {
        cpu_gauges: Seq::new(
            info.per_core_cpu_usage.len() + 1,
            |i: int|
                if i == 0 {
                    percent_gauge(info.global_cpu_usage)
                } else {
                    percent_gauge(info.per_core_cpu_usage[i - 1])
                },
        ),
        ram: GaugeView { text: Seq::empty(), fraction: 0 },
        swap: GaugeView { text: Seq::empty(), fraction: 0 },
        component_labels: Seq::new(
            info.components.len(),
            |i: int| temperature_text(info.components[i].temperature, false),
        ),
        cpu_usage_history: GraphView {
            series: Seq::new(
                info.per_core_cpu_usage.len(),
                |i: int| zero_series(core_name(i as nat), None),
            ),
            value_ceiling: Some(FULL_PERCENTAGE),
            value_floor: 0,
            overhead_margin: None,
            policy: LabelPolicy::Percentage,
            labels_width: None,
            repaint_due: false,
        },
        ram_usage_history: GraphView {
            series: seq![
                zero_series("RAM"@, Some(RAM_WEIGHT)),
                zero_series("Swap"@, Some(SWAP_WEIGHT)),
            ],
            value_ceiling: Some(info.total_memory),
            value_floor: 0,
            overhead_margin: None,
            policy: LabelPolicy::ByteMagnitude,
            labels_width: Some(WIDE_LABELS),
            repaint_due: false,
        },
        temperature_usage_history: GraphView {
            series: Seq::new(
                info.components.len(),
                |i: int| zero_series(info.components[i].label, None),
            ),
            value_ceiling: None,
            value_floor: 0,
            overhead_margin: Some(TEMPERATURE_OVERHEAD),
            policy: LabelPolicy::Temperature,
            labels_width: Some(WIDE_LABELS),
            repaint_due: false,
        },
    }
}

/// The system page after the memory, swap and temperature figures of a
/// snapshot have been taken.
pub open spec fn refreshed(before: SystemView, info: SystemInfoView, fahrenheit: bool) -> SystemView {
    SystemView {
        ram: ram_gauge(info),
        swap: swap_gauge(info),
        component_labels: Seq::new(
            before.component_labels.len(),
            |i: int|
                if i < info.components.len() {
                    temperature_text(info.components[i].temperature, fahrenheit)
                } else {
                    before.component_labels[i]
                },
        ),
        ram_usage_history: with_samples(
            before.ram_usage_history,
            seq![info.used_memory, info.used_swap],
        ),
        temperature_usage_history: with_samples(
            before.temperature_usage_history,
            info.temperatures(),
        ),
        ..before
    }
}

/// The system page after the processor figures of a snapshot have been
/// taken; all three graphs are then due for a repaint.
pub open spec fn redisplayed(before: SystemView, info: SystemInfoView) -> SystemView {
    SystemView {
        cpu_gauges: Seq::new(
            before.cpu_gauges.len(),
            |i: int|
                if i == 0 {
                    percent_gauge(info.global_cpu_usage)
                } else if i - 1 < info.per_core_cpu_usage.len() {
                    percent_gauge(info.per_core_cpu_usage[i - 1])
                } else {
                    before.cpu_gauges[i]
                },
        ),
        cpu_usage_history: GraphView {
            repaint_due: true,
            ..with_samples(before.cpu_usage_history, info.per_core_cpu_usage)
        },
        ram_usage_history: GraphView { repaint_due: true, ..before.ram_usage_history },
        temperature_usage_history: GraphView {
            repaint_due: true,
            ..before.temperature_usage_history
        },
        ..before
    }
}

impl SystemView {
    /// There is a gauge for the total and one per core series, two memory
    /// series, and a label per temperature series.
    pub open spec fn is_settled(self) -> bool {
        &&& self.cpu_gauges.len() == self.cpu_usage_history.series.len() + 1
        &&& self.ram_usage_history.series.len() == 2
        &&& self.component_labels.len() == self.temperature_usage_history.series.len()
    }
}

/// Shifts `values[i]` into the `i`-th series of `graph`, for every `i` that
/// both have.
pub fn record_each(graph: &mut SeriesGraph, values: &Vec<u64>)
    requires
        old(graph).wf(),
    ensures
        final(graph).wf(),
        final(graph)@ == with_samples(old(graph)@, values@),
{
    let ghost start = graph@;
    let count = graph.series_count();
    let mut i: usize = 0;
    assert(graph@.series =~= with_samples(start, values@.take(0)).series);
    while i < values.len() && i < count
        invariant
            graph.wf(),
            count == start.series.len(),
            0 <= i <= values@.len(),
            i <= count,
            graph@ == with_samples(start, values@.take(i as int)),
        decreases values@.len() - i,
    {
        let _done = graph.sample_update(i, values[i]);
        assert(graph@.series =~= with_samples(start, values@.take(i + 1)).series);
        i = i + 1;
    }
    assert(graph@.series =~= with_samples(start, values@).series);
}

/// Refreshes the temperature labels from the components of a snapshot, label
/// by label as far as both reach, and hands back the temperatures.
fn relabel(labels: &mut Vec<String>, components: &Vec<ComponentInfo>, fahrenheit: bool) -> (temperatures:
    Vec<u64>)
    ensures
        temperatures@.len() == components@.len(),
        forall|k: int|
            0 <= k < components@.len() ==> temperatures@[k] == components@[k].temperature,
        final(labels)@.len() == old(labels)@.len(),
        forall|k: int|
            0 <= k < old(labels)@.len() ==> (#[trigger] final(labels)@[k])@ == if k
                < components@.len() {
                temperature_text(components@[k].temperature, fahrenheit)
            } else {
                old(labels)@[k]@
            },
{
    let mut temperatures: Vec<u64> = Vec::new();
    let mut i: usize = 0;
    while i < components.len()
        invariant
            0 <= i <= components@.len(),
            temperatures@.len() == i,
            labels@.len() == old(labels)@.len(),
            forall|k: int| 0 <= k < i ==> temperatures@[k] == components@[k].temperature,
            forall|k: int|
                0 <= k < labels@.len() ==> (#[trigger] labels@[k])@ == if k < i {
                    temperature_text(components@[k].temperature, fahrenheit)
                } else {
                    old(labels)@[k]@
                },
        decreases components@.len() - i,
    {
        let component = &components[i];
        temperatures.push(component.temperature);
        if i < labels.len() {
            labels.set(i, format_temperature(component.temperature, fahrenheit));
        }
        i = i + 1;
    }
    temperatures
}

/// Refreshes the processor gauges from a snapshot: the total first, then core
/// by core as far as gauges and cores reach.
fn regauge(gauges: &mut Vec<Gauge>, info: &SystemInfo)
    requires
        old(gauges)@.len() >= 1,
    ensures
        final(gauges)@.len() == old(gauges)@.len(),
        forall|k: int|
            0 <= k < old(gauges)@.len() ==> (#[trigger] final(gauges)@[k])@ == if k == 0 {
                percent_gauge(info.global_cpu_usage)
            } else if k - 1 < info.per_core_cpu_usage@.len() {
                percent_gauge(info.per_core_cpu_usage@[k - 1])
            } else {
                old(gauges)@[k]@
            },
{
    gauges.set(0, make_percent_gauge(info.global_cpu_usage));
    let mut i: usize = 0;
    while i < info.per_core_cpu_usage.len() && i + 1 < gauges.len()
        invariant
            0 <= i <= info.per_core_cpu_usage@.len(),
            i + 1 <= gauges@.len(),
            gauges@.len() == old(gauges)@.len(),
            forall|k: int|
                0 <= k < gauges@.len() ==> (#[trigger] gauges@[k])@ == if k == 0 {
                    percent_gauge(info.global_cpu_usage)
                } else if k - 1 < i {
                    percent_gauge(info.per_core_cpu_usage@[k - 1])
                } else {
                    old(gauges)@[k]@
                },
        decreases info.per_core_cpu_usage@.len() - i,
    {
        gauges.set(i + 1, make_percent_gauge(info.per_core_cpu_usage[i]));
        i = i + 1;
    }
}

/// The state behind the system page.
pub struct SystemTracker {
    cpu_gauges: Vec<Gauge>,
    ram: Gauge,
    swap: Gauge,
    component_labels: Vec<String>,
    cpu_usage_history: SeriesGraph,
    ram_usage_history: SeriesGraph,
    temperature_usage_history: SeriesGraph,
}

impl View for SystemTracker {
    type V = SystemView;

    closed spec fn view(&self) -> SystemView {
        SystemView {
            cpu_gauges: Seq::new(self.cpu_gauges@.len(), |i: int| self.cpu_gauges@[i]@),
            ram: self.ram@,
            swap: self.swap@,
            component_labels: Seq::new(
                self.component_labels@.len(),
                |i: int| self.component_labels@[i]@,
            ),
            cpu_usage_history: self.cpu_usage_history@,
            ram_usage_history: self.ram_usage_history@,
            temperature_usage_history: self.temperature_usage_history@,
        }
    }
}

impl SystemTracker {
    /// The graphs are in order.
    pub closed spec fn graphs_wf(&self) -> bool {
        self.cpu_usage_history.wf() && self.ram_usage_history.wf()
            && self.temperature_usage_history.wf()
    }

    /// The tracker is in order.
    pub open spec fn wf(&self) -> bool {
        self.graphs_wf() && self@.is_settled()
    }

    /// Lays the page out for a snapshot: gauges, labels, and graphs whose
    /// series are all zero.
    fn lay_out(info: &SystemInfo) -> (tracker: Self)
        ensures
            tracker.wf(),
            tracker@ == laid_out(info@),
    {
        let mut cpu_gauges: Vec<Gauge> = Vec::new();
        cpu_gauges.push(make_percent_gauge(info.global_cpu_usage));
        let mut cpu_usage_history = SeriesGraph::new(Some(FULL_PERCENTAGE), LabelPolicy::Percentage);
        let mut i: usize = 0;
        assert(cpu_usage_history@.series =~= Seq::new(
            0,
            |k: int| zero_series(core_name(k as nat), None),
        ));
        while i < info.per_core_cpu_usage.len()
            invariant
                0 <= i <= info.per_core_cpu_usage@.len(),
                cpu_usage_history.wf(),
                cpu_gauges@.len() == i + 1,
                cpu_gauges@[0]@ == percent_gauge(info.global_cpu_usage),
                forall|k: int|
                    1 <= k <= i ==> cpu_gauges@[k]@ == percent_gauge(
                        #[trigger] info.per_core_cpu_usage@[k - 1],
                    ),
                cpu_usage_history@ == (GraphView {
                    series: Seq::new(i as nat, |k: int| zero_series(core_name(k as nat), None)),
                    ..laid_out(info@).cpu_usage_history
                }),
            decreases info.per_core_cpu_usage@.len() - i,
        {
            cpu_gauges.push(make_percent_gauge(info.per_core_cpu_usage[i]));
            let mut name = String::from_str("processor ");
            let digits = decimal_string(i as u64);
            name.append(digits.as_str());
            let ghost before = cpu_usage_history@;
            let _added = cpu_usage_history.add_series(zero_history(), name.as_str(), None);
            assert(cpu_usage_history@.series =~= Seq::new(
                (i + 1) as nat,
                |k: int| zero_series(core_name(k as nat), None),
            ));
            i = i + 1;
        }
        let mut ram_usage_history = SeriesGraph::new(
            Some(info.total_memory),
            LabelPolicy::ByteMagnitude,
        );
        ram_usage_history.set_labels_width(WIDE_LABELS);
        let _ram_added = ram_usage_history.add_series(zero_history(), "RAM", Some(RAM_WEIGHT));
        let _swap_added = ram_usage_history.add_series(zero_history(), "Swap", Some(SWAP_WEIGHT));
        assert(ram_usage_history@.series =~= laid_out(info@).ram_usage_history.series);
        let mut temperature_usage_history = SeriesGraph::new(None, LabelPolicy::Temperature);
        temperature_usage_history.set_overhead(Some(TEMPERATURE_OVERHEAD));
        temperature_usage_history.set_labels_width(WIDE_LABELS);
        let mut component_labels: Vec<String> = Vec::new();
        let mut j: usize = 0;
        assert(temperature_usage_history@.series =~= Seq::new(
            0,
            |k: int| zero_series(info.components@[k].label@, None),
        ));
        while j < info.components.len()
            invariant
                0 <= j <= info.components@.len(),
                temperature_usage_history.wf(),
                component_labels@.len() == j,
                forall|k: int|
                    0 <= k < j ==> (#[trigger] component_labels@[k])@ == temperature_text(
                        info.components@[k].temperature,
                        false,
                    ),
                temperature_usage_history@ == (GraphView {
                    series: Seq::new(
                        j as nat,
                        |k: int| zero_series(info.components@[k].label@, None),
                    ),
                    ..laid_out(info@).temperature_usage_history
                }),
            decreases info.components@.len() - j,
        {
            let component = &info.components[j];
            component_labels.push(format_temperature(component.temperature, false));
            let ghost before = temperature_usage_history@;
            let _added = temperature_usage_history.add_series(
                zero_history(),
                component.label.as_str(),
                None,
            );
            assert(temperature_usage_history@.series =~= Seq::new(
                (j + 1) as nat,
                |k: int| zero_series(info.components@[k].label@, None),
            ));
            j = j + 1;
        }
        let tracker = SystemTracker {
            cpu_gauges,
            ram: Gauge { text: String::new(), fraction: 0 },
            swap: Gauge { text: String::new(), fraction: 0 },
            component_labels,
            cpu_usage_history,
            ram_usage_history,
            temperature_usage_history,
        };
        proof {
            let target = laid_out(info@);
            assert(tracker@.cpu_gauges =~= target.cpu_gauges);
            assert(tracker@.component_labels =~= target.component_labels);
            assert(tracker@.cpu_usage_history.series =~= target.cpu_usage_history.series);
            assert(tracker@.temperature_usage_history.series
                =~= target.temperature_usage_history.series);
        }
        tracker
    }

    /// Opens the system page on a snapshot: the page is laid out, and the
    /// snapshot's memory, swap and temperature figures are taken at once.
    pub fn new(info: &SystemInfo, display_fahrenheit: bool) -> (tracker: Self)
        ensures
            tracker.wf(),
            tracker@ == refreshed(laid_out(info@), info@, display_fahrenheit),
    {
        let mut tracker = SystemTracker::lay_out(info);
        tracker.update_system_info(info, display_fahrenheit);
        tracker
    }

    /// Takes the memory, swap and temperature figures of a snapshot.
    pub fn update_system_info(&mut self, info: &SystemInfo, display_fahrenheit: bool)
        requires
            old(self).wf(),
        ensures
            final(self).wf(),
            final(self)@ == refreshed(old(self)@, info@, display_fahrenheit),
    {
        self.ram = Gauge {
            text: format_usage(info.used_memory, info.total_memory),
            fraction: compute_share(info.used_memory, info.total_memory),
        };
        self.swap = Gauge {
            text: format_usage(info.used_swap, info.total_swap),
            fraction: compute_swap_share(info),
        };
        let mut memory: Vec<u64> = Vec::new();
        memory.push(info.used_memory);
        memory.push(info.used_swap);
        assert(memory@ =~= seq![info.used_memory, info.used_swap]);
        record_each(&mut self.ram_usage_history, &memory);
        let temperatures = relabel(&mut self.component_labels, &info.components, display_fahrenheit);
        assert(temperatures@ =~= info@.temperatures());
        record_each(&mut self.temperature_usage_history, &temperatures);
        proof {
            let target = refreshed(old(self)@, info@, display_fahrenheit);
            assert(self@.component_labels =~= target.component_labels);
            assert(self@.cpu_gauges =~= target.cpu_gauges);
        }
    }

    /// Takes the processor figures of a snapshot and asks for a repaint of
    /// all three graphs.
    pub fn update_system_info_display(&mut self, info: &SystemInfo)
        requires
            old(self).wf(),
        ensures
            final(self).wf(),
            final(self)@ == redisplayed(old(self)@, info@),
    {
        regauge(&mut self.cpu_gauges, info);
        record_each(&mut self.cpu_usage_history, &info.per_core_cpu_usage);
        self.cpu_usage_history.invalidate();
        self.ram_usage_history.invalidate();
        self.temperature_usage_history.invalidate();
        proof {
            let target = redisplayed(old(self)@, info@);
            assert(self@.cpu_gauges =~= target.cpu_gauges);
            assert(self@.component_labels =~= target.component_labels);
        }
    }

    /// Records that the three graphs have been painted.
    pub fn mark_painted(&mut self)
        ensures
            final(self)@ == (SystemView {
                cpu_usage_history: GraphView { repaint_due: false, ..old(self)@.cpu_usage_history },
                ram_usage_history: GraphView { repaint_due: false, ..old(self)@.ram_usage_history },
                temperature_usage_history: GraphView {
                    repaint_due: false,
                    ..old(self)@.temperature_usage_history
                },
                ..old(self)@
            }),
            old(self).wf() ==> final(self).wf(),
    {
        self.cpu_usage_history.mark_painted();
        self.ram_usage_history.mark_painted();
        self.temperature_usage_history.mark_painted();
        assert(self@.cpu_gauges =~= old(self)@.cpu_gauges);
        assert(self@.component_labels =~= old(self)@.component_labels);
    }

    /// The processor gauges: the total first, then one per core.
    pub fn cpu_gauges(&self) -> (gauges: &Vec<Gauge>)
        ensures
            gauges@.len() == self@.cpu_gauges.len(),
            forall|i: int| 0 <= i < gauges@.len() ==> gauges@[i]@ == self@.cpu_gauges[i],
    {
        &self.cpu_gauges
    }

    /// The memory gauge.
    pub fn ram(&self) -> (gauge: &Gauge)
        ensures
            gauge@ == self@.ram,
    {
        &self.ram
    }

    /// The swap gauge.
    pub fn swap(&self) -> (gauge: &Gauge)
        ensures
            gauge@ == self@.swap,
    {
        &self.swap
    }

    /// The temperature of each component, as text.
    pub fn component_labels(&self) -> (labels: &Vec<String>)
        ensures
            labels@.len() == self@.component_labels.len(),
            forall|i: int| 0 <= i < labels@.len() ==> labels@[i]@ == self@.component_labels[i],
    {
        &self.component_labels
    }

    /// The graph of processor usage.
    pub fn cpu_usage_history(&self) -> (graph: &SeriesGraph)
        ensures
            graph@ == self@.cpu_usage_history,
            self.wf() ==> graph.wf(),
    {
        &self.cpu_usage_history
    }

    /// The graph of memory and swap usage.
    pub fn ram_usage_history(&self) -> (graph: &SeriesGraph)
        ensures
            graph@ == self@.ram_usage_history,
            self.wf() ==> graph.wf(),
    {
        &self.ram_usage_history
    }

    /// The graph of component temperatures.
    pub fn temperature_usage_history(&self) -> (graph: &SeriesGraph)
        ensures
            graph@ == self@.temperature_usage_history,
            self.wf() ==> graph.wf(),
    {
        &self.temperature_usage_history
    }
}

} // verus!
