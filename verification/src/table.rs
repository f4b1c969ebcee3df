//! The process table as it is shown: the rows that pass the filter, ordered
//! by the key of one column.

use crate::filter::{is_visible, FilterState};
use crate::registry::ProcessRegistry;
use crate::row::{ProcessRow, RowView};
use crate::strings::{lemma_lex_le_total, lemma_lex_le_transitive, lex_le, str_le};
use vstd::prelude::*;

verus! {

/// The column by which the table is ordered.
#[derive(Clone, Copy, Debug, PartialEq, Eq, Structural)]
pub enum SortColumn {
    Pid,
    Name,
    Cpu,
    Memory,
    Disk,
}

/// `a` may stand before `b` when the table is ordered by `column`, smallest
/// first. Numeric columns go by their numeric key, never by what is
/// displayed; the name column goes by the lower-case name.
pub open spec fn precedes(column: SortColumn, a: RowView, b: RowView) -> bool {
    match column {
        SortColumn::Pid => a.pid <= b.pid,
        SortColumn::Name => lex_le(a.sort_key_name_lower, b.sort_key_name_lower),
        SortColumn::Cpu => a.sort_key_cpu <= b.sort_key_cpu,
        SortColumn::Memory => a.sort_key_mem <= b.sort_key_mem,
        SortColumn::Disk => a.sort_key_disk <= b.sort_key_disk,
    }
}

/// `a` may stand before `b` in the chosen direction.
pub open spec fn in_order(column: SortColumn, descending: bool, a: RowView, b: RowView) -> bool {
    if descending {
        precedes(column, b, a)
    } else {
        precedes(column, a, b)
    }
}

/// `order` lists the positions of exactly those of `rows` that the filter
/// shows, each once, in the order of `column`.
pub open spec fn is_table(
    rows: Seq<RowView>,
    active: bool,
    query: Seq<char>,
    column: SortColumn,
    descending: bool,
    order: Seq<usize>,
) -> bool {
    &&& order.no_duplicates()
    &&& forall|k: int|
        0 <= k < order.len() ==> (#[trigger] order[k]) < rows.len() && is_visible(
            active,
            query,
            rows[order[k] as int],
        )
    &&& forall|p: int|
        0 <= p < rows.len() && is_visible(active, query, #[trigger] rows[p]) ==> order.contains(
            p as usize,
        )
    &&& forall|i: int, j: int|
        0 <= i < j < order.len() ==> in_order(
            column,
            descending,
            rows[#[trigger] order[i] as int],
            rows[#[trigger] order[j] as int],
        )
}

/// Of two rows one may stand before the other, in either direction.
pub proof fn lemma_in_order_total(column: SortColumn, descending: bool, a: RowView, b: RowView)
    ensures
        in_order(column, descending, a, b) || in_order(column, descending, b, a),
{
    lemma_lex_le_total(a.sort_key_name_lower, b.sort_key_name_lower);
}

/// If `a` may stand before `b` and `b` before `c`, `a` may stand before `c`.
pub proof fn lemma_in_order_transitive(
    column: SortColumn,
    descending: bool,
    a: RowView,
    b: RowView,
    c: RowView,
)
    requires
        in_order(column, descending, a, b),
        in_order(column, descending, b, c),
    ensures
        in_order(column, descending, a, c),
{
    if column == SortColumn::Name {
        if descending {
            lemma_lex_le_transitive(
                c.sort_key_name_lower,
                b.sort_key_name_lower,
                a.sort_key_name_lower,
            );
        } else {
            lemma_lex_le_transitive(
                a.sort_key_name_lower,
                b.sort_key_name_lower,
                c.sort_key_name_lower,
            );
        }
    }
}

/// The order of the CPU column and the order of the memory column are
/// decided by their own numeric keys and by nothing else. Whatever two rows
/// display, and whatever their other keys are, the row with the smaller CPU
/// key stands strictly first by CPU; likewise for memory. So two rows whose
/// CPU usage is displayed alike are still ordered by their true usage.
pub proof fn lemma_numeric_order_is_by_key(a: RowView, b: RowView)
    ensures
        precedes(SortColumn::Cpu, a, b) <==> a.sort_key_cpu <= b.sort_key_cpu,
        precedes(SortColumn::Memory, a, b) <==> a.sort_key_mem <= b.sort_key_mem,
        a.sort_key_cpu < b.sort_key_cpu ==> precedes(SortColumn::Cpu, a, b) && !precedes(
            SortColumn::Cpu,
            b,
            a,
        ),
        a.sort_key_mem < b.sort_key_mem ==> precedes(SortColumn::Memory, a, b) && !precedes(
            SortColumn::Memory,
            b,
            a,
        ),
{
}

/// The order of one numeric column does not look at the other columns: rows
/// that agree with `a` and `b` in the CPU key are ordered by CPU as `a` and
/// `b` are, whatever their memory keys and display strings; and the same
/// with CPU and memory exchanged.
pub proof fn lemma_numeric_orders_are_independent(a: RowView, b: RowView, c: RowView, d: RowView)
    ensures
        a.sort_key_cpu == c.sort_key_cpu && b.sort_key_cpu == d.sort_key_cpu ==> (precedes(
            SortColumn::Cpu,
            a,
            b,
        ) <==> precedes(SortColumn::Cpu, c, d)),
        a.sort_key_mem == c.sort_key_mem && b.sort_key_mem == d.sort_key_mem ==> (precedes(
            SortColumn::Memory,
            a,
            b,
        ) <==> precedes(SortColumn::Memory, c, d)),
{
}

/// Whether `a` may stand before `b`.
pub fn rows_in_order(column: SortColumn, descending: bool, a: &ProcessRow, b: &ProcessRow) -> (ok:
    bool)
    ensures
        ok == in_order(column, descending, a@, b@),
{
    let (first, second) = if descending {
        (b, a)
    } else {
        (a, b)
    };
    match column {
        SortColumn::Pid => first.pid() <= second.pid(),
        SortColumn::Name => str_le(first.sort_key_name_lower(), second.sort_key_name_lower()),
        SortColumn::Cpu => first.sort_key_cpu() <= second.sort_key_cpu(),
        SortColumn::Memory => first.sort_key_mem() <= second.sort_key_mem(),
        SortColumn::Disk => first.sort_key_disk() <= second.sort_key_disk(),
    }
}

/// The positions of the rows that `filter` shows, ordered by `column`:
/// smallest key first, or largest first with `descending`.
pub fn table(registry: &ProcessRegistry, filter: &FilterState, column: SortColumn, descending: bool) -> (order:
    Vec<usize>)
    ensures
        is_table(registry.rows(), filter.active, filter.query@, column, descending, order@),
{
    let ghost rows = registry.rows();
    let ghost active = filter.active;
    let ghost query = filter.query@;
    let mut order: Vec<usize> = Vec::new();
    let mut p: usize = 0;
    while p < registry.len()
        invariant
            rows == registry.rows(),
            active == filter.active,
            query == filter.query@,
            0 <= p <= rows.len(),
            order@.no_duplicates(),
            forall|k: int|
                0 <= k < order@.len() ==> (#[trigger] order@[k]) < p && is_visible(
                    active,
                    query,
                    rows[order@[k] as int],
                ),
            forall|q: int|
                0 <= q < p && is_visible(active, query, #[trigger] rows[q]) ==> order@.contains(
                    q as usize,
                ),
            forall|i: int, j: int|
                0 <= i < j < order@.len() ==> in_order(
                    column,
                    descending,
                    rows[#[trigger] order@[i] as int],
                    rows[#[trigger] order@[j] as int],
                ),
        decreases rows.len() - p,
    {
        let row = registry.row_at(p).unwrap();
        if filter.matches(row) {
            let mut k: usize = order.len();
            while k > 0 && !rows_in_order(
                column,
                descending,
                registry.row_at(order[k - 1]).unwrap(),
                row,
            )
                invariant
                    rows == registry.rows(),
                    0 <= k <= order@.len(),
                    p < rows.len(),
                    row@ == rows[p as int],
                    forall|e: int| 0 <= e < order@.len() ==> (#[trigger] order@[e]) < p,
                    forall|e: int|
                        k <= e < order@.len() ==> !in_order(
                            column,
                            descending,
                            rows[#[trigger] order@[e] as int],
                            rows[p as int],
                        ),
                decreases k,
            {
                k = k - 1;
            }
            let ghost before = order@;
            order.insert(k, p);
            proof {
                let after = order@;
                assert forall|e: int| 0 <= e < after.len() implies (#[trigger] after[e]) <= p
                    && is_visible(active, query, rows[after[e] as int]) by {
                    if e < k {
                        assert(after[e] == before[e]);
                    } else if e > k {
                        assert(after[e] == before[e - 1]);
                    }
                }
                assert(after.no_duplicates()) by {
                    assert forall|i: int, j: int|
                        0 <= i < after.len() && 0 <= j < after.len() && i != j implies after[i]
                        != after[j] by {
                        let bi = if i < k {
                            i
                        } else {
                            i - 1
                        };
                        let bj = if j < k {
                            j
                        } else {
                            j - 1
                        };
                        if i != k && j != k {
                            assert(after[i] == before[bi]);
                            assert(after[j] == before[bj]);
                        } else if i == k {
                            assert(after[j] == before[bj]);
                        } else {
                            assert(after[i] == before[bi]);
                        }
                    }
                }
                assert forall|q: int|
                    0 <= q < p + 1 && is_visible(active, query, #[trigger] rows[q]) implies after.contains(
                    q as usize,
                ) by {
                    if q == p {
                        assert(after[k as int] == p);
                    } else {
                        assert(before.contains(q as usize));
                        let e = choose|e: int| 0 <= e < before.len() && before[e] == q as usize;
                        if e < k {
                            assert(after[e] == before[e]);
                        } else {
                            assert(after[e + 1] == before[e]);
                        }
                    }
                }
                assert forall|i: int, j: int| 0 <= i < j < after.len() implies in_order(
                    column,
                    descending,
                    rows[#[trigger] after[i] as int],
                    rows[#[trigger] after[j] as int],
                ) by {
                    if j < k {
                        assert(after[i] == before[i] && after[j] == before[j]);
                    } else if i > k {
                        assert(after[i] == before[i - 1] && after[j] == before[j - 1]);
                    } else if i < k && j > k {
                        assert(after[i] == before[i] && after[j] == before[j - 1]);
                    } else if j == k {
                        // what stands before the new position may stand before the new row
                        assert(after[i] == before[i]);
                        assert(in_order(
                            column,
                            descending,
                            rows[before[k - 1] as int],
                            rows[p as int],
                        ));
                        if i < k - 1 {
                            lemma_in_order_transitive(
                                column,
                                descending,
                                rows[before[i] as int],
                                rows[before[k - 1] as int],
                                rows[p as int],
                            );
                        }
                    } else {
                        // the new row may stand before what follows it
                        assert(i == k);
                        assert(after[j] == before[j - 1]);
                        lemma_in_order_total(
                            column,
                            descending,
                            rows[before[j - 1] as int],
                            rows[p as int],
                        );
                    }
                }
            }
        }
        p = p + 1;
    }
    order
}

} // verus!
