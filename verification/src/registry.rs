//! The table of running processes, keyed by process id and brought up to
//! date from one snapshot after another.

use crate::process::{infos, InfoView, ProcessInfo};
use crate::row::{row_of, row_of_info, ProcessRow, RowView};
use std::collections::{HashMap, HashSet};
use vstd::prelude::*;

verus! {

/// The process table. Each pid has at most one row. The rows keep their
/// order among each other for as long as they stay in the table; the row of
/// a new pid goes behind the last row.
pub struct ProcessRegistry {
    rows: Vec<ProcessRow>,
    index: HashMap<u32, usize>,
}

/// `index` tells for each pid where its row stands in `rows`, and for
/// nothing else.
spec fn index_matches(rows: Seq<ProcessRow>, index: Map<u32, usize>) -> bool {
    &&& forall|pid: u32| #[trigger]
        index.contains_key(pid) ==> index[pid] < rows.len() && rows[index[pid] as int]@.pid == pid
    &&& forall|i: int|
        0 <= i < rows.len() ==> index.contains_key((#[trigger] rows[i])@.pid)
            && index[rows[i]@.pid] == i
}

/// The position of the last entry of `snapshot` that is listed and belongs
/// to `pid`, if there is one.
pub open spec fn last_listed(snapshot: Seq<InfoView>, pid: u32) -> Option<int>
    decreases snapshot.len(),
{
    if snapshot.len() == 0 {
        None
    } else if snapshot.last().pid == pid && snapshot.last().is_listed() {
        Some(snapshot.len() - 1)
    } else {
        last_listed(snapshot.drop_last(), pid)
    }
}

/// Some entry of `snapshot` belongs to `pid`.
pub open spec fn mentions(snapshot: Seq<InfoView>, pid: u32) -> bool {
    exists|i: int| 0 <= i < snapshot.len() && snapshot[i].pid == pid
}

/// The table that `before` becomes when it is reconciled with `snapshot`.
///
/// A pid that the snapshot does not mention has no row. A pid with a listed
/// entry has the row of that entry (of the last one, should the snapshot
/// hold several). A pid that the snapshot mentions only in entries that are
/// not listed keeps the row it had, if it had one.
pub open spec fn reconciled(before: Map<u32, RowView>, snapshot: Seq<InfoView>) -> Map<
    u32,
    RowView,
> {
    Map::new(
        |pid: u32|
            last_listed(snapshot, pid) is Some || (before.contains_key(pid) && mentions(
                snapshot,
                pid,
            )),
        |pid: u32|
            match last_listed(snapshot, pid) {
                Some(i) => row_of_info(snapshot[i]),
                None => before[pid],
            },
    )
}

/// What `last_listed` finds is a listed entry of `pid`, and no later entry
/// is one; where it finds nothing, no entry is one.
pub proof fn lemma_last_listed(snapshot: Seq<InfoView>, pid: u32)
    ensures
        match last_listed(snapshot, pid) {
            Some(i) => {
                &&& 0 <= i < snapshot.len()
                &&& snapshot[i].pid == pid
                &&& snapshot[i].is_listed()
                &&& forall|j: int|
                    i < j < snapshot.len() ==> !(snapshot[j].pid == pid && snapshot[j].is_listed())
            },
            None => forall|j: int|
                0 <= j < snapshot.len() ==> !(snapshot[j].pid == pid && snapshot[j].is_listed()),
        },
    decreases snapshot.len(),
{
    if snapshot.len() > 0 {
        lemma_last_listed(snapshot.drop_last(), pid);
        assert forall|j: int| 0 <= j < snapshot.len() - 1 implies snapshot[j]
            == snapshot.drop_last()[j] by {}
    }
}

/// Some row of `rows` belongs to `pid`.
pub open spec fn has_row(rows: Seq<RowView>, pid: u32) -> bool {
    exists|i: int| 0 <= i < rows.len() && rows[i].pid == pid
}

/// `rows` with `row` put in: in the place of the row that its pid has, all
/// other rows staying where they are; or behind the last row, if its pid has
/// none.
pub open spec fn placed(rows: Seq<RowView>, row: RowView) -> Seq<RowView> {
    if has_row(rows, row.pid) {
        Seq::new(
            rows.len(),
            |i: int|
                if rows[i].pid == row.pid {
                    row
                } else {
                    rows[i]
                },
        )
    } else {
        rows.push(row)
    }
}

/// `rows` after the row of every listed entry of `snapshot` has been put
/// in, entry by entry.
pub open spec fn with_listed(rows: Seq<RowView>, snapshot: Seq<InfoView>) -> Seq<RowView>
    decreases snapshot.len(),
{
    if snapshot.len() == 0 {
        rows
    } else if snapshot.last().is_listed() {
        placed(with_listed(rows, snapshot.drop_last()), row_of_info(snapshot.last()))
    } else {
        with_listed(rows, snapshot.drop_last())
    }
}

/// Those of `rows` whose pids `snapshot` mentions, in the order they have.
pub open spec fn mentioned_rows(rows: Seq<RowView>, snapshot: Seq<InfoView>) -> Seq<RowView>
    decreases rows.len(),
{
    if rows.len() == 0 {
        rows
    } else if mentions(snapshot, rows.last().pid) {
        mentioned_rows(rows.drop_last(), snapshot).push(rows.last())
    } else {
        mentioned_rows(rows.drop_last(), snapshot)
    }
}

/// The rows, in table order, that `before` becomes when it is reconciled
/// with `snapshot`: rows of listed entries are updated where they stand,
/// rows of new pids follow behind in the order of the snapshot, and the rows
/// of pids that the snapshot does not mention are taken out, the others
/// closing up without changing their order.
pub open spec fn reconciled_rows(before: Seq<RowView>, snapshot: Seq<InfoView>) -> Seq<RowView> {
    mentioned_rows(with_listed(before, snapshot), snapshot)
}

/// The table by pid after the row of every listed entry of `snapshot` has
/// been put in.
spec fn listed_over(before: Map<u32, RowView>, snapshot: Seq<InfoView>) -> Map<u32, RowView> {
    Map::new(
        |pid: u32| before.contains_key(pid) || last_listed(snapshot, pid) is Some,
        |pid: u32|
            match last_listed(snapshot, pid) {
                Some(i) => row_of_info(snapshot[i]),
                None => before[pid],
            },
    )
}

/// One entry more: a listed entry puts its row under its pid, any other
/// entry changes nothing.
proof fn lemma_listed_over_step(before: Map<u32, RowView>, snapshot: Seq<InfoView>, entry: InfoView)
    ensures
        listed_over(before, snapshot.push(entry)) == if entry.is_listed() {
            listed_over(before, snapshot).insert(entry.pid, row_of_info(entry))
        } else {
            listed_over(before, snapshot)
        },
{
    let longer = snapshot.push(entry);
    let target = if entry.is_listed() {
        listed_over(before, snapshot).insert(entry.pid, row_of_info(entry))
    } else {
        listed_over(before, snapshot)
    };
    assert(longer.drop_last() =~= snapshot);
    assert forall|pid: u32|
        listed_over(before, longer).contains_key(pid) == target.contains_key(pid) && (
        listed_over(before, longer).contains_key(pid) ==> listed_over(before, longer)[pid]
            == target[pid]) by {
        lemma_last_listed(snapshot, pid);
        if let Some(i) = last_listed(snapshot, pid) {
            assert(longer[i] == snapshot[i]);
        }
    }
    assert(listed_over(before, longer) =~= target);
}

/// One entry more is mentioned: the pid of that entry.
proof fn lemma_mentions_step(snapshot: Seq<InfoView>, entry: InfoView, pid: u32)
    ensures
        mentions(snapshot.push(entry), pid) <==> mentions(snapshot, pid) || entry.pid == pid,
{
    let longer = snapshot.push(entry);
    if mentions(snapshot, pid) {
        let i = choose|i: int| 0 <= i < snapshot.len() && snapshot[i].pid == pid;
        assert(longer[i].pid == pid);
    }
    if entry.pid == pid {
        assert(longer[longer.len() - 1].pid == pid);
    }
    if mentions(longer, pid) && entry.pid != pid {
        let i = choose|i: int| 0 <= i < longer.len() && longer[i].pid == pid;
        assert(snapshot[i].pid == pid);
    }
}

impl View for ProcessRegistry {
    type V = Map<u32, RowView>;

    /// The rows by pid.
    closed spec fn view(&self) -> Map<u32, RowView> {
        Map::new(
            |pid: u32| self.index@.contains_key(pid),
            |pid: u32| self.rows@[self.index@[pid] as int]@,
        )
    }
}

impl ProcessRegistry {
    /// The rows in table order.
    pub closed spec fn rows(&self) -> Seq<RowView> {
        Seq::new(self.rows@.len(), |i: int| self.rows@[i]@)
    }

    /// The table is in order: the index and the rows agree, and every row's
    /// display strings are those of its keys.
    pub closed spec fn wf(&self) -> bool {
        &&& index_matches(self.rows@, self.index@)
        &&& forall|i: int| 0 <= i < self.rows@.len() ==> (#[trigger] self.rows@[i])@.is_consistent()
    }

    /// An empty table.
    pub fn new() -> (registry: Self)
        ensures
            registry.wf(),
            registry@ == Map::<u32, RowView>::empty(),
            registry.rows().len() == 0,
    {
        let registry = ProcessRegistry { rows: Vec::new(), index: HashMap::new() };
        assert(registry@ =~= Map::<u32, RowView>::empty());
        registry
    }

    /// The number of rows.
    pub fn len(&self) -> (n: usize)
        ensures
            n == self.rows().len(),
    {
        self.rows.len()
    }

    /// Whether the table has no rows.
    pub fn is_empty(&self) -> (empty: bool)
        ensures
            empty == (self.rows().len() == 0),
    {
        self.rows.len() == 0
    }

    /// Whether `pid` has a row.
    pub fn contains(&self, pid: u32) -> (present: bool)
        ensures
            present == self@.contains_key(pid),
    {
        broadcast use vstd::std_specs::hash::group_hash_axioms;

        self.index.contains_key(&pid)
    }

    /// The row of `pid`, if it has one.
    pub fn get(&self, pid: u32) -> (row: Option<&ProcessRow>)
        requires
            self.wf(),
        ensures
            row is Some <==> self@.contains_key(pid),
            row is Some ==> row.unwrap()@ == self@[pid],
    {
        broadcast use vstd::std_specs::hash::group_hash_axioms;

        match self.index.get(&pid) {
            Some(slot) => Some(&self.rows[*slot]),
            None => None,
        }
    }

    /// The row at position `position` of the table, if there is one.
    pub fn row_at(&self, position: usize) -> (row: Option<&ProcessRow>)
        ensures
            row is Some <==> position < self.rows().len(),
            row is Some ==> row.unwrap()@ == self.rows()[position as int],
    {
        if position < self.rows.len() {
            Some(&self.rows[position])
        } else {
            None
        }
    }

    /// Puts `row` into the table: in place of the row that its pid has, or
    /// behind the last row if its pid has none.
    fn put(&mut self, row: ProcessRow)
        requires
            old(self).wf(),
            row@.is_consistent(),
        ensures
            final(self).wf(),
            final(self)@ == old(self)@.insert(row@.pid, row@),
            final(self).rows() == placed(old(self).rows(), row@),
    {
        broadcast use vstd::std_specs::hash::group_hash_axioms;

        let pid = row.pid();
        let found: Option<usize> = match self.index.get(&pid) {
            Some(slot) => Some(*slot),
            None => None,
        };
        match found {
            Some(slot) => {
                self.rows.set(slot, row);
                assert(index_matches(self.rows@, self.index@));
                proof {
                    let before = old(self).rows();
                    assert(before[slot as int].pid == pid);
                    assert forall|i: int| 0 <= i < before.len() && i != slot implies before[i].pid
                        != pid by {
                        assert(before[i] == old(self).rows@[i]@);
                    }
                    assert(self.rows() =~= placed(before, row@));
                }
            },
            None => {
                let slot: usize = self.rows.len();
                self.index.insert(pid, slot);
                self.rows.push(row);
                assert(index_matches(self.rows@, self.index@)) by {
                    assert forall|i: int| 0 <= i < self.rows@.len() implies self.index@.contains_key(
                        (#[trigger] self.rows@[i])@.pid,
                    ) && self.index@[self.rows@[i]@.pid] == i by {
                        if i < slot {
                            assert(self.rows@[i] == old(self).rows@[i]);
                        }
                    }
                }
                proof {
                    let before = old(self).rows();
                    assert forall|i: int| 0 <= i < before.len() implies before[i].pid != pid by {
                        assert(before[i] == old(self).rows@[i]@);
                    }
                    assert(self.rows() =~= before.push(row@));
                }
            },
        }
        assert(self@ =~= old(self)@.insert(row@.pid, row@));
    }

    /// Brings one process into the table. An entry that is not listed (its
    /// resolved name or its command line is empty) changes nothing and gives
    /// `false`; any other entry takes the place of the row that its pid had,
    /// or becomes a new row.
    pub fn upsert(&mut self, info: &ProcessInfo) -> (listed: bool)
        requires
            old(self).wf(),
        ensures
            final(self).wf(),
            listed == info@.is_listed(),
            listed ==> final(self)@ == old(self)@.insert(info@.pid, row_of_info(info@))
                && final(self).rows() == placed(old(self).rows(), row_of_info(info@)),
            !listed ==> final(self)@ == old(self)@ && final(self).rows() == old(self).rows(),
    {
        match ProcessRow::from_info(info) {
            Some(row) => {
                self.put(row);
                true
            },
            None => false,
        }
    }

    /// Brings the table up to date with a snapshot. By pid the table is then
    /// `reconciled`; in table order it is `reconciled_rows`: rows that stay
    /// keep their places among each other, updated where they stand, and new
    /// rows follow. One pass over the snapshot and one over the rows do it,
    /// with one look-up each per entry and per row.
    pub fn reconcile(&mut self, snapshot: &Vec<ProcessInfo>)
        requires
            old(self).wf(),
        ensures
            final(self).wf(),
            final(self)@ == reconciled(old(self)@, infos(snapshot@)),
            final(self).rows() == reconciled_rows(old(self).rows(), infos(snapshot@)),
    {
        broadcast use vstd::std_specs::hash::group_hash_axioms;

        let ghost entries = infos(snapshot@);
        let mut mentioned: HashSet<u32> = HashSet::new();
        let mut i: usize = 0;
        proof {
            assert(entries.take(0) =~= Seq::<InfoView>::empty());
            assert(self@ =~= listed_over(old(self)@, entries.take(0)));
        }
        while i < snapshot.len()
            invariant
                self.wf(),
                entries == infos(snapshot@),
                0 <= i <= snapshot@.len(),
                self@ == listed_over(old(self)@, entries.take(i as int)),
                self.rows() == with_listed(old(self).rows(), entries.take(i as int)),
                forall|pid: u32|
                    mentioned@.contains(pid) <==> mentions(entries.take(i as int), pid),
            decreases snapshot@.len() - i,
        {
            let info = &snapshot[i];
            proof {
                assert(entries.take(i + 1) =~= entries.take(i as int).push(info@));
                assert(entries.take(i + 1).drop_last() =~= entries.take(i as int));
                lemma_listed_over_step(old(self)@, entries.take(i as int), info@);
                assert forall|pid: u32|
                    mentioned@.insert(info.pid).contains(pid) <==> mentions(
                        entries.take(i + 1),
                        pid,
                    ) by {
                    lemma_mentions_step(entries.take(i as int), info@, pid);
                }
            }
            mentioned.insert(info.pid);
            match ProcessRow::from_info(info) {
                Some(row) => {
                    self.put(row);
                },
                None => {},
            }
            i = i + 1;
        }
        assert(entries.take(i as int) =~= entries);
        let mut kept = ProcessRegistry::new();
        let mut j: usize = 0;
        proof {
            assert(self.rows().take(0) =~= Seq::<RowView>::empty());
            assert(kept.rows() =~= mentioned_rows(self.rows().take(0), entries));
        }
        while j < self.rows.len()
            invariant
                self.wf(),
                kept.wf(),
                0 <= j <= self.rows@.len(),
                forall|pid: u32| mentioned@.contains(pid) <==> mentions(entries, pid),
                self@ == listed_over(old(self)@, entries),
                self.rows() == with_listed(old(self).rows(), entries),
                kept.rows() == mentioned_rows(self.rows().take(j as int), entries),
                forall|pid: u32| #[trigger]
                    kept@.contains_key(pid) <==> self@.contains_key(pid) && mentions(entries, pid)
                        && self.index@[pid] < j,
                forall|pid: u32| #[trigger] kept@.contains_key(pid) ==> kept@[pid] == self@[pid],
            decreases self.rows@.len() - j,
        {
            let row = &self.rows[j];
            proof {
                assert(self.rows().take(j + 1).drop_last() =~= self.rows().take(j as int));
                assert(self.rows().take(j + 1).last() == row@);
                assert(self.index@[row@.pid] == j);
            }
            if mentioned.contains(&row.pid()) {
                proof {
                    kept.lemma_has_row(row@.pid);
                }
                kept.put(row.duplicate());
            }
            j = j + 1;
        }
        proof {
            assert(self.rows().take(j as int) =~= self.rows());
            let target = reconciled(old(self)@, entries);
            assert forall|pid: u32|
                (#[trigger] kept@.dom().contains(pid)) == target.dom().contains(pid) && (
                kept@.dom().contains(pid) ==> kept@[pid] == target[pid]) by {
                lemma_last_listed(entries, pid);
                if let Some(k) = last_listed(entries, pid) {
                    assert(entries[k].pid == pid);
                }
                if self@.contains_key(pid) {
                    assert(self.index@.contains_key(pid));
                    assert(self.index@[pid] < j);
                }
            }
            assert(kept@.dom() =~= target.dom());
            assert(kept@ =~= target);
        }
        *self = kept;
    }

    /// A table built from nothing but a snapshot.
    pub fn rebuild(snapshot: &Vec<ProcessInfo>) -> (registry: Self)
        ensures
            registry.wf(),
            registry@ == reconciled(Map::<u32, RowView>::empty(), infos(snapshot@)),
            registry.rows() == reconciled_rows(Seq::<RowView>::empty(), infos(snapshot@)),
    {
        let mut registry = ProcessRegistry::new();
        assert(registry.rows() =~= Seq::<RowView>::empty());
        registry.reconcile(snapshot);
        registry
    }

    /// A pid has a row in table order exactly when it has one by pid.
    pub proof fn lemma_has_row(&self, pid: u32)
        requires
            self.wf(),
        ensures
            has_row(self.rows(), pid) <==> self@.contains_key(pid),
    {
        if self@.contains_key(pid) {
            let slot = self.index@[pid] as int;
            assert(self.rows()[slot].pid == pid);
        }
        if has_row(self.rows(), pid) {
            let i = choose|i: int| 0 <= i < self.rows().len() && self.rows()[i].pid == pid;
            assert(self.rows()[i] == self.rows@[i]@);
        }
    }

    /// The rows in table order are the rows by pid: every row stands under
    /// its own pid, every pid's row stands somewhere in the table, and no
    /// two rows share a pid.
    pub proof fn lemma_rows_match_view(&self)
        requires
            self.wf(),
        ensures
            forall|i: int|
                0 <= i < self.rows().len() ==> self@.contains_key((#[trigger] self.rows()[i]).pid)
                    && self@[self.rows()[i].pid] == self.rows()[i],
            forall|pid: u32| #[trigger]
                self@.contains_key(pid) ==> self.rows().contains(self@[pid]),
            forall|i: int, j: int|
                0 <= i < self.rows().len() && 0 <= j < self.rows().len() && i != j
                    ==> self.rows()[i].pid != self.rows()[j].pid,
    {
        assert forall|i: int| 0 <= i < self.rows().len() implies self@.contains_key(
            (#[trigger] self.rows()[i]).pid,
        ) && self@[self.rows()[i].pid] == self.rows()[i] by {
            assert(self.rows()[i] == self.rows@[i]@);
        }
        assert forall|pid: u32| #[trigger] self@.contains_key(pid) implies self.rows().contains(
            self@[pid],
        ) by {
            let slot = self.index@[pid] as int;
            assert(self.rows()[slot] == self@[pid]);
        }
        assert forall|i: int, j: int|
            0 <= i < self.rows().len() && 0 <= j < self.rows().len() && i != j implies self.rows()[i].pid
            != self.rows()[j].pid by {
            assert(self.rows()[i] == self.rows@[i]@);
            assert(self.rows()[j] == self.rows@[j]@);
        }
    }

    /// Every row of a table in order has display strings that are those of
    /// its keys, and stands under its own pid.
    pub proof fn lemma_rows_are_consistent(&self, pid: u32)
        requires
            self.wf(),
            self@.contains_key(pid),
        ensures
            self@[pid].is_consistent(),
            self@[pid].pid == pid,
    {
    }
}

/// Fills in the row of one process: `cpu` in thousandths of a percent,
/// `memory` in bytes, the disk column at zero. A process without a command
/// line or without a name gets no row, and the table stays as it was.
pub fn create_and_fill_model(
    registry: &mut ProcessRegistry,
    pid: u32,
    cmdline: &[String],
    name: &str,
    cpu: u64,
    memory: u64,
) -> (listed: bool)
    requires
        old(registry).wf(),
    ensures
        final(registry).wf(),
        listed == (cmdline@.len() > 0 && name@.len() > 0),
        listed ==> final(registry)@ == old(registry)@.insert(
            pid,
            row_of(pid, name@, cpu, memory, 0),
        ) && final(registry).rows() == placed(
            old(registry).rows(),
            row_of(pid, name@, cpu, memory, 0),
        ),
        !listed ==> final(registry)@ == old(registry)@ && final(registry).rows() == old(
            registry,
        ).rows(),
{
    if cmdline.len() == 0 || name.is_empty() {
        return false;
    }
    registry.put(ProcessRow::new(pid, name, cpu, memory, 0));
    true
}

} // verus!
