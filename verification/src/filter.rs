//! The search filter of the process table.

use crate::row::{ProcessRow, RowView};
use crate::strings::{contains_text, occurs_at, str_contains};
use crate::text::{decimal, decimal_string};
use vstd::prelude::*;
use vstd::string::StringExecFns;

verus! {

/// The state of the search entry: whether it is shown, and what it holds.
pub struct FilterState {
    pub active: bool,
    pub query: String,
}

/// One of the two strings stands in the other.
pub open spec fn either_contains(a: Seq<char>, b: Seq<char>) -> bool {
    contains_text(a, b) || contains_text(b, a)
}

/// Whether a row with the given pid numeral and lower-case name is shown
/// under a filter. Every row is shown while the filter is inactive or the
/// query is empty. Otherwise a row is shown when the query and the pid, or
/// the query and the name, are such that one stands in the other.
pub open spec fn shows(active: bool, query: Seq<char>, pid: Seq<char>, name_lower: Seq<char>) -> bool {
    ||| !active
    ||| query.len() == 0
    ||| either_contains(query, pid)
    ||| either_contains(query, name_lower)
}

/// Whether a row is shown under a filter: see `shows`.
pub open spec fn is_visible(active: bool, query: Seq<char>, row: RowView) -> bool {
    shows(active, query, decimal(row.pid as nat), row.sort_key_name_lower)
}

impl FilterState {
    /// An inactive filter with an empty query.
    pub fn new() -> (filter: Self)
        ensures
            !filter.active,
            filter.query@.len() == 0,
    {
        FilterState { active: false, query: String::new() }
    }

    /// Replaces the query.
    pub fn set_query(&mut self, query: &str)
        ensures
            final(self).query@ == query@,
            final(self).active == old(self).active,
    {
        self.query = String::from_str(query);
    }

    /// Shows the search entry if it is hidden, hides it if it is shown. The
    /// query stays.
    pub fn toggle(&mut self)
        ensures
            final(self).active == !old(self).active,
            final(self).query == old(self).query,
    {
        self.active = !self.active;
    }

    /// Hides the search entry and clears the query.
    pub fn hide_filter(&mut self)
        ensures
            !final(self).active,
            final(self).query@.len() == 0,
    {
        self.active = false;
        self.query = String::new();
    }

    /// Whether a row with the given pid numeral and lower-case name is
    /// shown under this filter.
    pub fn matches_text(&self, pid: &str, name_lower: &str) -> (visible: bool)
        ensures
            visible == shows(self.active, self.query@, pid@, name_lower@),
    {
        if !self.active || self.query.as_str().is_empty() {
            return true;
        }
        let query = self.query.as_str();
        str_contains(pid, query) || str_contains(query, pid) || str_contains(name_lower, query)
            || str_contains(query, name_lower)
    }

    /// Whether `row` is shown under this filter.
    pub fn matches(&self, row: &ProcessRow) -> (visible: bool)
        ensures
            visible == is_visible(self.active, self.query@, row@),
    {
        let pid = decimal_string(row.pid() as u64);
        self.matches_text(pid.as_str(), row.sort_key_name_lower())
    }
}

/// With an empty query every row is shown, whether the filter is active or
/// not.
pub proof fn lemma_empty_query_shows_every_row(active: bool, row: RowView)
    ensures
        is_visible(active, Seq::empty(), row),
{
}

/// A query in which the row's pid stands, or which stands in the row's pid,
/// shows the row: the match runs both ways. In particular the pid's own
/// numeral shows it.
pub proof fn lemma_pid_match_runs_both_ways(active: bool, query: Seq<char>, row: RowView)
    ensures
        contains_text(query, decimal(row.pid as nat)) ==> is_visible(active, query, row),
        contains_text(decimal(row.pid as nat), query) ==> is_visible(active, query, row),
        is_visible(active, decimal(row.pid as nat), row),
{
    let numeral = decimal(row.pid as nat);
    assert(numeral.subrange(0, numeral.len() as int) =~= numeral);
    assert(occurs_at(numeral, numeral, 0));
}

} // verus!
