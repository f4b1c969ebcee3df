//! One row of the process table: what is shown in each column, and beside
//! it the key by which the column is ordered.

use crate::process::{InfoView, ProcessInfo};
use crate::strings::{lowercase, to_lowercase};
use crate::text::{one_decimal, one_decimal_string};
use crate::units::{bytes_text, format_bytes};
use vstd::prelude::*;
use vstd::string::StringExecFns;

verus! {

/// A row of the process table.
pub struct ProcessRow {
    pid: u32,
    display_name: String,
    display_cpu: String,
    display_mem: String,
    display_disk: String,
    sort_key_name_lower: String,
    sort_key_cpu: u64,
    sort_key_mem: u64,
    sort_key_disk: u64,
}

/// A row with its strings as character sequences.
pub struct RowView {
    pub pid: u32,
    pub display_name: Seq<char>,
    pub display_cpu: Seq<char>,
    pub display_mem: Seq<char>,
    pub display_disk: Seq<char>,
    pub sort_key_name_lower: Seq<char>,
    /// CPU usage in thousandths of a percent.
    pub sort_key_cpu: u64,
    pub sort_key_mem: u64,
    pub sort_key_disk: u64,
}

/// The row for a process with the given figures: every display string is
/// rendered from the key that stands beside it.
pub open spec fn row_of(pid: u32, name: Seq<char>, cpu: u64, mem: u64, disk: u64) -> RowView {
    RowView {
        pid,
        display_name: name,
        display_cpu: one_decimal(cpu as nat),
        display_mem: bytes_text(mem as nat),
        display_disk: bytes_text(disk as nat),
        sort_key_name_lower: lowercase(name),
        sort_key_cpu: cpu,
        sort_key_mem: mem,
        sort_key_disk: disk,
    }
}

/// The row that a snapshot entry gives.
pub open spec fn row_of_info(info: InfoView) -> RowView {
    row_of(info.pid, info.resolved_name(), info.cpu_usage, info.memory_bytes, info.disk_usage())
}

impl RowView {
    /// The display strings are those of the keys.
    pub open spec fn is_consistent(self) -> bool {
        self == row_of(
            self.pid,
            self.display_name,
            self.sort_key_cpu,
            self.sort_key_mem,
            self.sort_key_disk,
        )
    }
}

impl View for ProcessRow {
    type V = RowView;

    closed spec fn view(&self) -> RowView {
        RowView {
            pid: self.pid,
            display_name: self.display_name@,
            display_cpu: self.display_cpu@,
            display_mem: self.display_mem@,
            display_disk: self.display_disk@,
            sort_key_name_lower: self.sort_key_name_lower@,
            sort_key_cpu: self.sort_key_cpu,
            sort_key_mem: self.sort_key_mem,
            sort_key_disk: self.sort_key_disk,
        }
    }
}

impl ProcessRow {
    /// Builds the row for a process with the given figures: `cpu` in
    /// thousandths of a percent, `mem` and `disk` in bytes.
    pub fn new(pid: u32, name: &str, cpu: u64, mem: u64, disk: u64) -> (row: Self)
        ensures
            row@ == row_of(pid, name@, cpu, mem, disk),
            row@.is_consistent(),
    {
        ProcessRow {
            pid,
            display_name: String::from_str(name),
            display_cpu: one_decimal_string(cpu),
            display_mem: format_bytes(mem),
            display_disk: format_bytes(disk),
            sort_key_name_lower: to_lowercase(name),
            sort_key_cpu: cpu,
            sort_key_mem: mem,
            sort_key_disk: disk,
        }
    }

    /// Builds the row for a snapshot entry, or `None` where the entry is not
    /// listed.
    pub fn from_info(info: &ProcessInfo) -> (row: Option<Self>)
        ensures
            row is Some <==> info@.is_listed(),
            row is Some ==> row.unwrap()@ == row_of_info(info@),
    {
        let name = info.resolved_name();
        if name.as_str().is_empty() || info.cmd.len() == 0 {
            None
        } else {
            Some(
                ProcessRow::new(
                    info.pid,
                    name.as_str(),
                    info.cpu_usage,
                    info.memory_bytes,
                    info.disk_usage(),
                ),
            )
        }
    }

    /// A second row that holds the same.
    pub fn duplicate(&self) -> (row: Self)
        ensures
            row@ == self@,
    {
        ProcessRow {
            pid: self.pid,
            display_name: self.display_name.clone(),
            display_cpu: self.display_cpu.clone(),
            display_mem: self.display_mem.clone(),
            display_disk: self.display_disk.clone(),
            sort_key_name_lower: self.sort_key_name_lower.clone(),
            sort_key_cpu: self.sort_key_cpu,
            sort_key_mem: self.sort_key_mem,
            sort_key_disk: self.sort_key_disk,
        }
    }

    pub fn pid(&self) -> (pid: u32)
        ensures
            pid == self@.pid,
    {
        self.pid
    }

    pub fn display_name(&self) -> (text: &str)
        ensures
            text@ == self@.display_name,
    {
        self.display_name.as_str()
    }

    pub fn display_cpu(&self) -> (text: &str)
        ensures
            text@ == self@.display_cpu,
    {
        self.display_cpu.as_str()
    }

    pub fn display_mem(&self) -> (text: &str)
        ensures
            text@ == self@.display_mem,
    {
        self.display_mem.as_str()
    }

    pub fn display_disk(&self) -> (text: &str)
        ensures
            text@ == self@.display_disk,
    {
        self.display_disk.as_str()
    }

    pub fn sort_key_name_lower(&self) -> (text: &str)
        ensures
            text@ == self@.sort_key_name_lower,
    {
        self.sort_key_name_lower.as_str()
    }

    pub fn sort_key_cpu(&self) -> (key: u64)
        ensures
            key == self@.sort_key_cpu,
    {
        self.sort_key_cpu
    }

    pub fn sort_key_mem(&self) -> (key: u64)
        ensures
            key == self@.sort_key_mem,
    {
        self.sort_key_mem
    }

    pub fn sort_key_disk(&self) -> (key: u64)
        ensures
            key == self@.sort_key_disk,
    {
        self.sort_key_disk
    }
}

} // verus!
