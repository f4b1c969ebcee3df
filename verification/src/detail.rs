//! What the detail view of one process shows, and how it follows the
//! process from tick to tick until the process is gone.

use crate::graph::{GraphView, SeriesGraph, SeriesView};
use crate::labels::{LabelPolicy, FULL_PERCENTAGE};
use crate::peak::{peak_step, PeakTracker};
use crate::process::{infos, texts, InfoView, ProcessInfo};
use crate::rotating::{shifted, RotatingBuffer};
use crate::strings::{first_index_of, split_once_at};
use crate::text::{decimal, decimal_string, one_decimal, one_decimal_string};
use crate::units::{bytes_text, duration_text, format_bytes, format_time};
use vstd::prelude::*;
use vstd::string::StringExecFns;

verus! {

/// The number of ticks that a history graph spans.
pub const HISTORY_LEN: usize = 61;

/// The headroom, in percent, that memory and disk graphs keep above their
/// largest sample.
pub const HISTORY_OVERHEAD: u64 = 20;

/// The strings that a detail view shows.
pub struct DetailLabels {
    pub title: String,
    pub name: String,
    pub pid: String,
    pub command: String,
    pub executable_path: String,
    pub root_directory: String,
    pub working_directory: String,
    pub memory_usage: String,
    pub memory_peak: String,
    pub disk_usage: String,
    pub disk_peak: String,
    pub cpu_usage: String,
    pub run_time: String,
}

/// The strings of a detail view as character sequences.
pub struct DetailText {
    pub title: Seq<char>,
    pub name: Seq<char>,
    pub pid: Seq<char>,
    pub command: Seq<char>,
    pub executable_path: Seq<char>,
    pub root_directory: Seq<char>,
    pub working_directory: Seq<char>,
    pub memory_usage: Seq<char>,
    pub memory_peak: Seq<char>,
    pub disk_usage: Seq<char>,
    pub disk_peak: Seq<char>,
    pub cpu_usage: Seq<char>,
    pub run_time: Seq<char>,
}

impl View for DetailLabels {
    type V = DetailText;

    open spec fn view(&self) -> DetailText {
        DetailText {
            title: self.title@,
            name: self.name@,
            pid: self.pid@,
            command: self.command@,
            executable_path: self.executable_path@,
            root_directory: self.root_directory@,
            working_directory: self.working_directory@,
            memory_usage: self.memory_usage@,
            memory_peak: self.memory_peak@,
            disk_usage: self.disk_usage@,
            disk_peak: self.disk_peak@,
            cpu_usage: self.cpu_usage@,
            run_time: self.run_time@,
        }
    }
}

/// `item` between double quotes.
pub open spec fn quoted(item: Seq<char>) -> Seq<char> {
    seq!['"'] + item + seq!['"']
}

/// The items, each between double quotes, parted by a comma and a space.
pub open spec fn quoted_list(items: Seq<Seq<char>>) -> Seq<char>
    decreases items.len(),
{
    if items.len() == 0 {
        Seq::empty()
    } else if items.len() == 1 {
        quoted(items[0])
    } else {
        quoted_list(items.drop_last()) + seq![',', ' '] + quoted(items.last())
    }
}

/// A command line as the detail view shows it: `["a", "b"]`.
pub open spec fn command_text(cmd: Seq<Seq<char>>) -> Seq<char> {
    seq!['['] + quoted_list(cmd) + seq![']']
}

/// Renders a command line.
pub fn format_command(cmd: &Vec<String>) -> (s: String)
    ensures
        s@ == command_text(texts(cmd@)),
{
    proof {
        reveal_strlit("[");
        reveal_strlit("]");
        assert("["@ =~= seq!['[']);
        assert("]"@ =~= seq![']']);
    }
    let ghost items = texts(cmd@);
    let mut s = String::from_str("[");
    let mut i: usize = 0;
    assert(items.take(0) =~= Seq::<Seq<char>>::empty());
    assert(s@ =~= seq!['['] + quoted_list(items.take(0)));
    while i < cmd.len()
        invariant
            items == texts(cmd@),
            0 <= i <= cmd@.len(),
            s@ == seq!['['] + quoted_list(items.take(i as int)),
        decreases cmd@.len() - i,
    {
        proof {
            reveal_strlit(", ");
            reveal_strlit("\"");
            assert(", "@ =~= seq![',', ' ']);
            assert("\""@ =~= seq!['"']);
        }
        let ghost before = s@;
        if i > 0 {
            s.append(", ");
        }
        let ghost parted = s@;
        s.append("\"");
        s.append(cmd[i].as_str());
        s.append("\"");
        proof {
            let longer = items.take(i + 1);
            assert(longer.drop_last() =~= items.take(i as int));
            assert(longer.last() == cmd@[i as int]@);
            assert(s@ =~= parted + quoted(cmd@[i as int]@));
            if i == 0 {
                assert(quoted_list(items.take(0)) =~= Seq::<char>::empty());
                assert(s@ =~= seq!['['] + quoted_list(longer));
            } else {
                assert(parted =~= before + seq![',', ' ']);
                assert(s@ =~= seq!['['] + quoted_list(longer));
            }
        }
        i = i + 1;
    }
    assert(items.take(i as int) =~= items);
    s.append("]");
    assert(s@ =~= command_text(items));
    s
}

/// An environment entry parted into name and value at its first `=`. An
/// entry without `=` is all name, with an empty value.
pub open spec fn env_pair(entry: Seq<char>) -> (Seq<char>, Seq<char>) {
    match first_index_of(entry, '=') {
        Some(i) => (entry.take(i), entry.skip(i + 1)),
        None => (entry, Seq::empty()),
    }
}

/// The environment entries, each parted into name and value.
pub open spec fn env_pairs(environ: Seq<Seq<char>>) -> Seq<(Seq<char>, Seq<char>)> {
    Seq::new(environ.len(), |i: int| env_pair(environ[i]))
}

/// The pairs of strings as pairs of character sequences.
pub open spec fn pair_texts(pairs: Seq<(String, String)>) -> Seq<(Seq<char>, Seq<char>)> {
    Seq::new(pairs.len(), |i: int| (pairs[i].0@, pairs[i].1@))
}

/// Parts an environment entry into name and value.
pub fn split_env_entry(entry: &str) -> (pair: (String, String))
    ensures
        (pair.0@, pair.1@) == env_pair(entry@),
{
    match split_once_at(entry, '=') {
        Some(parts) => parts,
        None => (String::from_str(entry), String::new()),
    }
}

/// Parts every environment entry into name and value.
pub fn environment_table(environ: &Vec<String>) -> (table: Vec<(String, String)>)
    ensures
        pair_texts(table@) == env_pairs(texts(environ@)),
{
    let mut table: Vec<(String, String)> = Vec::new();
    let mut i: usize = 0;
    while i < environ.len()
        invariant
            0 <= i <= environ@.len(),
            table@.len() == i,
            forall|k: int|
                0 <= k < i ==> (table@[k].0@, table@[k].1@) == env_pair(#[trigger] environ@[k]@),
        decreases environ@.len() - i,
    {
        table.push(split_env_entry(environ[i].as_str()));
        i = i + 1;
    }
    assert(pair_texts(table@) =~= env_pairs(texts(environ@)));
    table
}

/// A CPU usage given in thousandths of a percent, as the detail view shows
/// it: one fractional digit and a percent sign.
pub open spec fn cpu_text(cpu: u64) -> Seq<char> {
    one_decimal(cpu as nat) + seq!['%']
}

/// Renders a CPU usage.
pub fn format_cpu(cpu: u64) -> (s: String)
    ensures
        s@ == cpu_text(cpu),
{
    proof {
        reveal_strlit("%");
    }
    let mut s = one_decimal_string(cpu);
    s.append("%");
    assert(s@ =~= cpu_text(cpu));
    s
}

/// A window of `HISTORY_LEN` samples, all zero.
pub fn zero_history() -> (buffer: RotatingBuffer<u64>)
    ensures
        buffer.wf(),
        buffer@ == Seq::new(HISTORY_LEN as nat, |i: int| 0u64),
{
    let mut samples: Vec<u64> = Vec::new();
    let mut i: usize = 0;
    while i < HISTORY_LEN
        invariant
            0 <= i <= HISTORY_LEN,
            samples@.len() == i,
            forall|k: int| 0 <= k < i ==> samples@[k] == 0,
        decreases HISTORY_LEN - i,
    {
        samples.push(0);
        i = i + 1;
    }
    assert(samples@ =~= Seq::new(HISTORY_LEN as nat, |i: int| 0u64));
    RotatingBuffer::new(samples)
}

/// What a detail view holds.
pub struct DetailView {
    pub pid: u32,
    /// Set once the process has gone; from then on nothing is updated.
    pub is_dead: bool,
    /// Set once the view has been closed and waits to be taken away.
    pub to_be_closed: bool,
    pub labels: DetailText,
    /// The environment as pairs of name and value.
    pub environment: Seq<(Seq<char>, Seq<char>)>,
    /// The largest memory usage seen, in bytes.
    pub memory_peak: u64,
    /// The largest disk usage seen, in bytes.
    pub disk_peak: u64,
    /// CPU usage over time, in thousandths of a percent.
    pub cpu_history: GraphView,
    /// Memory usage over time, in bytes.
    pub ram_history: GraphView,
    /// Disk usage over time: bytes read and written per tick, as one sum.
    pub disk_history: GraphView,
}

/// A history graph as a detail view starts it: one unnamed series of zeros.
pub open spec fn fresh_history(policy: LabelPolicy, floor: u64, overhead: Option<u64>) -> GraphView {
    GraphView {
        series: seq![
            SeriesView {
                name: Seq::empty(),
                samples: Seq::new(HISTORY_LEN as nat, |i: int| 0u64),
                order_hint: None,
            },
        ],
        value_ceiling: None,
        value_floor: floor,
        overhead_margin: overhead,
        policy,
        labels_width: None,
        repaint_due: true,
    }
}

/// A history graph after one more tick: `value` is shifted into its first
/// series, and a repaint is due.
pub open spec fn with_sample(graph: GraphView, value: u64) -> GraphView {
    GraphView {
        series: graph.series.update(
            0,
            SeriesView { samples: shifted(graph.series[0].samples, value), ..graph.series[0] },
        ),
        repaint_due: true,
        ..graph
    }
}

/// The detail view of a process as it is first shown.
pub open spec fn opened(info: InfoView) -> DetailView {
    DetailView {
        pid: info.pid,
        is_dead: false,
        to_be_closed: false,
        labels: DetailText {
            title: "Information about "@ + info.name,
            name: info.name,
            pid: decimal(info.pid as nat),
            command: command_text(info.cmd),
            executable_path: info.exe_path,
            root_directory: info.root,
            working_directory: info.cwd,
            memory_usage: bytes_text(info.memory_bytes as nat),
            memory_peak: bytes_text(info.memory_bytes as nat),
            disk_usage: bytes_text(info.disk_usage() as nat),
            disk_peak: bytes_text(info.disk_usage() as nat),
            cpu_usage: cpu_text(info.cpu_usage),
            run_time: duration_text(info.run_time_seconds as nat),
        },
        environment: env_pairs(info.environ),
        memory_peak: info.memory_bytes,
        disk_peak: info.disk_usage(),
        cpu_history: fresh_history(LabelPolicy::Percentage, FULL_PERCENTAGE, None),
        ram_history: fresh_history(LabelPolicy::ByteCount, 0, Some(HISTORY_OVERHEAD)),
        disk_history: fresh_history(LabelPolicy::ByteCount, 0, Some(HISTORY_OVERHEAD)),
    }
}

/// The detail view after a tick on which the process reported `info`. A
/// dead view stays as it is. A peak label changes only when its peak rises.
pub open spec fn updated(before: DetailView, info: InfoView) -> DetailView {
    if before.is_dead {
        before
    } else {
        DetailView {
            labels: DetailText {
                working_directory: info.cwd,
                memory_usage: bytes_text(info.memory_bytes as nat),
                memory_peak: if info.memory_bytes > before.memory_peak {
                    bytes_text(info.memory_bytes as nat)
                } else {
                    before.labels.memory_peak
                },
                disk_usage: bytes_text(info.disk_usage() as nat),
                disk_peak: if info.disk_usage() > before.disk_peak {
                    bytes_text(info.disk_usage() as nat)
                } else {
                    before.labels.disk_peak
                },
                cpu_usage: cpu_text(info.cpu_usage),
                run_time: duration_text(info.run_time_seconds as nat),
                ..before.labels
            },
            memory_peak: peak_step(before.memory_peak, info.memory_bytes),
            disk_peak: peak_step(before.disk_peak, info.disk_usage()),
            cpu_history: with_sample(before.cpu_history, info.cpu_usage),
            ram_history: with_sample(before.ram_history, info.memory_bytes),
            disk_history: with_sample(before.disk_history, info.disk_usage()),
            ..before
        }
    }
}

/// After a tick on a live view the newest sample of each history is the
/// figure of that tick: the memory in bytes, the CPU usage in thousandths of
/// a percent, and the bytes read and written taken together.
pub proof fn lemma_update_samples_newest(before: DetailView, info: InfoView)
    requires
        !before.is_dead,
        before.is_settled(),
    ensures
        updated(before, info).ram_history.series[0].samples[0] == info.memory_bytes,
        updated(before, info).cpu_history.series[0].samples[0] == info.cpu_usage,
        updated(before, info).disk_history.series[0].samples[0] == info.disk_usage(),
        updated(before, info).is_settled(),
{
}

/// The detail view once its process has gone: the usage figures read zero
/// and the run time tells how long the process ran. A view that is dead
/// already stays as it is.
pub open spec fn deceased(before: DetailView) -> DetailView {
    if before.is_dead {
        before
    } else {
        DetailView {
            is_dead: true,
            labels: DetailText {
                memory_usage: seq!['0'],
                disk_usage: seq!['0'],
                cpu_usage: seq!['0', '%'],
                run_time: "Ran for "@ + if before.labels.run_time.len() == 0 {
                    seq!['0', 's']
                } else {
                    before.labels.run_time
                },
                ..before.labels
            },
            ..before
        }
    }
}

/// The position of the last entry of `snapshot` that belongs to `pid`, if
/// there is one.
pub open spec fn last_mention(snapshot: Seq<InfoView>, pid: u32) -> Option<int>
    decreases snapshot.len(),
{
    if snapshot.len() == 0 {
        None
    } else if snapshot.last().pid == pid {
        Some(snapshot.len() - 1)
    } else {
        last_mention(snapshot.drop_last(), pid)
    }
}

/// What `last_mention` finds is an entry of `pid`, and no later entry is
/// one; where it finds nothing, no entry is one.
pub proof fn lemma_last_mention(snapshot: Seq<InfoView>, pid: u32)
    ensures
        match last_mention(snapshot, pid) {
            Some(i) => 0 <= i < snapshot.len() && snapshot[i].pid == pid && forall|j: int|
                i < j < snapshot.len() ==> snapshot[j].pid != pid,
            None => forall|j: int| 0 <= j < snapshot.len() ==> snapshot[j].pid != pid,
        },
    decreases snapshot.len(),
{
    if snapshot.len() > 0 {
        lemma_last_mention(snapshot.drop_last(), pid);
        assert forall|j: int| 0 <= j < snapshot.len() - 1 implies snapshot[j]
            == snapshot.drop_last()[j] by {}
    }
}

/// The detail view after a tick with the snapshot `snapshot`: updated from
/// the entry of its process, or dead if the snapshot has no such entry.
pub open spec fn followed(before: DetailView, snapshot: Seq<InfoView>) -> DetailView {
    match last_mention(snapshot, before.pid) {
        Some(i) => updated(before, snapshot[i]),
        None => deceased(before),
    }
}

impl DetailView {
    /// The peak labels read their peaks, and each history graph has one
    /// series of `HISTORY_LEN` samples.
    pub open spec fn is_settled(self) -> bool {
        &&& self.labels.memory_peak == bytes_text(self.memory_peak as nat)
        &&& self.labels.disk_peak == bytes_text(self.disk_peak as nat)
        &&& self.cpu_history.series.len() == 1
        &&& self.ram_history.series.len() == 1
        &&& self.disk_history.series.len() == 1
        &&& self.cpu_history.series[0].samples.len() == HISTORY_LEN
        &&& self.ram_history.series[0].samples.len() == HISTORY_LEN
        &&& self.disk_history.series[0].samples.len() == HISTORY_LEN
    }
}

/// The state behind the detail view of one process.
pub struct ProcessDetailTracker {
    pid: u32,
    is_dead: bool,
    to_be_closed: bool,
    labels: DetailLabels,
    environment: Vec<(String, String)>,
    memory_peak: PeakTracker,
    disk_peak: PeakTracker,
    cpu_history: SeriesGraph,
    ram_history: SeriesGraph,
    disk_history: SeriesGraph,
}

impl View for ProcessDetailTracker {
    type V = DetailView;

    closed spec fn view(&self) -> DetailView {
        DetailView {
            pid: self.pid,
            is_dead: self.is_dead,
            to_be_closed: self.to_be_closed,
            labels: self.labels@,
            environment: pair_texts(self.environment@),
            memory_peak: self.memory_peak.peak(),
            disk_peak: self.disk_peak.peak(),
            cpu_history: self.cpu_history@,
            ram_history: self.ram_history@,
            disk_history: self.disk_history@,
        }
    }
}

/// Builds a history graph with one unnamed series of zeros.
fn new_history(policy: LabelPolicy, floor: u64, overhead: Option<u64>) -> (graph: SeriesGraph)
    ensures
        graph.wf(),
        graph@ == fresh_history(policy, floor, overhead),
{
    let mut graph = SeriesGraph::new(None, policy);
    graph.set_minimum(floor);
    graph.set_overhead(overhead);
    let _added = graph.add_series(zero_history(), "", None);
    graph.invalidate();
    proof {
        reveal_strlit("");
        assert(""@ =~= Seq::<char>::empty());
        assert(graph@.series =~= fresh_history(policy, floor, overhead).series);
    }
    graph
}

/// Records one more tick in a history graph.
fn record(graph: &mut SeriesGraph, value: u64)
    requires
        old(graph).wf(),
        old(graph)@.series.len() == 1,
    ensures
        final(graph).wf(),
        final(graph)@ == with_sample(old(graph)@, value),
{
    let _done = graph.sample_update(0, value);
    graph.invalidate();
}

impl ProcessDetailTracker {
    /// The graphs are in order.
    pub closed spec fn graphs_wf(&self) -> bool {
        self.cpu_history.wf() && self.ram_history.wf() && self.disk_history.wf()
    }

    /// The tracker is in order.
    pub open spec fn wf(&self) -> bool {
        self.graphs_wf() && self@.is_settled()
    }

    /// Opens the detail view of a process.
    pub fn new(info: &ProcessInfo) -> (tracker: Self)
        ensures
            tracker.wf(),
            tracker@ == opened(info@),
    {
        let memory = info.memory_bytes;
        let disk = info.disk_usage();
        let mut title = String::from_str("Information about ");
        title.append(info.name.as_str());
        let labels = DetailLabels {
            title,
            name: info.name.clone(),
            pid: decimal_string(info.pid as u64),
            command: format_command(&info.cmd),
            executable_path: info.exe_path.clone(),
            root_directory: info.root.clone(),
            working_directory: info.cwd.clone(),
            memory_usage: format_bytes(memory),
            memory_peak: format_bytes(memory),
            disk_usage: format_bytes(disk),
            disk_peak: format_bytes(disk),
            cpu_usage: format_cpu(info.cpu_usage),
            run_time: format_time(info.run_time_seconds),
        };
        ProcessDetailTracker {
            pid: info.pid,
            is_dead: false,
            to_be_closed: false,
            labels,
            environment: environment_table(&info.environ),
            memory_peak: PeakTracker::new(memory),
            disk_peak: PeakTracker::new(disk),
            cpu_history: new_history(LabelPolicy::Percentage, FULL_PERCENTAGE, None),
            ram_history: new_history(LabelPolicy::ByteCount, 0, Some(HISTORY_OVERHEAD)),
            disk_history: new_history(LabelPolicy::ByteCount, 0, Some(HISTORY_OVERHEAD)),
        }
    }

    /// Takes the figures of one more tick. A dead tracker takes nothing.
    pub fn update(&mut self, info: &ProcessInfo)
        requires
            old(self).wf(),
        ensures
            final(self).wf(),
            final(self)@ == updated(old(self)@, info@),
    {
        if self.is_dead {
            return ;
        }
        self.labels.working_directory = info.cwd.clone();
        let memory = info.memory_bytes;
        if self.memory_peak.observe(memory) {
            self.labels.memory_peak = format_bytes(memory);
        }
        self.labels.memory_usage = format_bytes(memory);
        let disk = info.disk_usage();
        if self.disk_peak.observe(disk) {
            self.labels.disk_peak = format_bytes(disk);
        }
        self.labels.disk_usage = format_bytes(disk);
        self.labels.cpu_usage = format_cpu(info.cpu_usage);
        self.labels.run_time = format_time(info.run_time_seconds);
        record(&mut self.ram_history, memory);
        record(&mut self.cpu_history, info.cpu_usage);
        record(&mut self.disk_history, disk);
        assert(self@.labels == updated(old(self)@, info@).labels);
    }

    /// Takes one tick: the tracker is updated from the snapshot's entry for
    /// its process, and set dead if the snapshot has none. That a process is
    /// missing from a snapshot is the one sign that it has gone.
    pub fn follow(&mut self, snapshot: &Vec<ProcessInfo>)
        requires
            old(self).wf(),
        ensures
            final(self).wf(),
            final(self)@ == followed(old(self)@, infos(snapshot@)),
    {
        let ghost entries = infos(snapshot@);
        let mut found: Option<usize> = None;
        let mut i: usize = 0;
        assert(entries.take(0) =~= Seq::<InfoView>::empty());
        while i < snapshot.len()
            invariant
                entries == infos(snapshot@),
                0 <= i <= snapshot@.len(),
                match found {
                    Some(at) => last_mention(entries.take(i as int), self.pid) == Some(at as int),
                    None => last_mention(entries.take(i as int), self.pid) is None,
                },
            decreases snapshot@.len() - i,
        {
            assert(entries.take(i + 1).drop_last() =~= entries.take(i as int));
            if snapshot[i].pid == self.pid {
                found = Some(i);
            }
            i = i + 1;
        }
        assert(entries.take(i as int) =~= entries);
        match found {
            Some(at) => {
                proof {
                    lemma_last_mention(entries, self.pid);
                }
                self.update(&snapshot[at]);
            },
            None => {
                self.set_dead();
            },
        }
    }

    /// Whether the view has been closed and waits to be taken away.
    pub fn need_remove(&self) -> (closed: bool)
        ensures
            closed == self@.to_be_closed,
    {
        self.to_be_closed
    }

    /// Records that the view has been closed.
    pub fn close(&mut self)
        ensures
            final(self)@ == (DetailView { to_be_closed: true, ..old(self)@ }),
            old(self).wf() ==> final(self).wf(),
    {
        self.to_be_closed = true;
    }

    /// Records that the process has gone. The first call freezes the view;
    /// any further call changes nothing.
    pub fn set_dead(&mut self)
        ensures
            final(self)@ == deceased(old(self)@),
            final(self)@.is_dead,
            old(self).wf() ==> final(self).wf(),
    {
        if self.is_dead {
            return ;
        }
        proof {
            reveal_strlit("0");
            reveal_strlit("0%");
            reveal_strlit("0s");
        }
        self.is_dead = true;
        self.labels.memory_usage = String::from_str("0");
        self.labels.disk_usage = String::from_str("0");
        self.labels.cpu_usage = String::from_str("0%");
        let mut ran = String::from_str("Ran for ");
        if self.labels.run_time.as_str().is_empty() {
            ran.append("0s");
        } else {
            ran.append(self.labels.run_time.as_str());
        }
        self.labels.run_time = ran;
        assert(self@.labels.memory_usage =~= deceased(old(self)@).labels.memory_usage);
        assert(self@.labels.disk_usage =~= deceased(old(self)@).labels.disk_usage);
        assert(self@.labels.cpu_usage =~= deceased(old(self)@).labels.cpu_usage);
        assert(self@.labels.run_time =~= deceased(old(self)@).labels.run_time);
    }

    /// Records that the three graphs have been painted.
    pub fn mark_painted(&mut self)
        ensures
            final(self)@ == (DetailView {
                cpu_history: GraphView { repaint_due: false, ..old(self)@.cpu_history },
                ram_history: GraphView { repaint_due: false, ..old(self)@.ram_history },
                disk_history: GraphView { repaint_due: false, ..old(self)@.disk_history },
                ..old(self)@
            }),
            old(self).wf() ==> final(self).wf(),
    {
        self.cpu_history.mark_painted();
        self.ram_history.mark_painted();
        self.disk_history.mark_painted();
    }

    /// The pid of the process shown.
    pub fn pid(&self) -> (pid: u32)
        ensures
            pid == self@.pid,
    {
        self.pid
    }

    /// Whether the process has gone.
    pub fn is_dead(&self) -> (dead: bool)
        ensures
            dead == self@.is_dead,
    {
        self.is_dead
    }

    /// The strings shown.
    pub fn labels(&self) -> (labels: &DetailLabels)
        ensures
            labels@ == self@.labels,
    {
        &self.labels
    }

    /// The environment as pairs of name and value.
    pub fn environment(&self) -> (table: &Vec<(String, String)>)
        ensures
            pair_texts(table@) == self@.environment,
    {
        &self.environment
    }

    /// The largest memory usage seen, in bytes.
    pub fn memory_peak(&self) -> (peak: u64)
        ensures
            peak == self@.memory_peak,
    {
        self.memory_peak.peak()
    }

    /// The largest disk usage seen, in bytes.
    pub fn disk_peak(&self) -> (peak: u64)
        ensures
            peak == self@.disk_peak,
    {
        self.disk_peak.peak()
    }

    /// The graph of CPU usage.
    pub fn cpu_history(&self) -> (graph: &SeriesGraph)
        ensures
            graph@ == self@.cpu_history,
            self.wf() ==> graph.wf(),
    {
        &self.cpu_history
    }

    /// The graph of memory usage.
    pub fn ram_history(&self) -> (graph: &SeriesGraph)
        ensures
            graph@ == self@.ram_history,
            self.wf() ==> graph.wf(),
    {
        &self.ram_history
    }

    /// The graph of disk usage.
    pub fn disk_history(&self) -> (graph: &SeriesGraph)
        ensures
            graph@ == self@.disk_history,
            self.wf() ==> graph.wf(),
    {
        &self.disk_history
    }
}

} // verus!
