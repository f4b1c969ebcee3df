//! What the snapshot provider reports of one process.

use crate::strings::{file_name_of, path_file_name};
use vstd::prelude::*;
use vstd::string::StringExecFns;

verus! {

/// One process as a snapshot reports it.
pub struct ProcessInfo {
    pub pid: u32,
    pub name: String,
    pub cmd: Vec<String>,
    pub exe_path: String,
    pub cwd: String,
    pub root: String,
    /// Environment entries of the form `KEY=VALUE`.
    pub environ: Vec<String>,
    /// CPU usage in thousandths of a percent.
    pub cpu_usage: u64,
    pub memory_bytes: u64,
    pub disk_read_bytes: u64,
    pub disk_written_bytes: u64,
    pub run_time_seconds: u64,
}

/// `ProcessInfo` with its strings as character sequences.
pub struct InfoView {
    pub pid: u32,
    pub name: Seq<char>,
    pub cmd: Seq<Seq<char>>,
    pub exe_path: Seq<char>,
    pub cwd: Seq<char>,
    pub root: Seq<char>,
    pub environ: Seq<Seq<char>>,
    pub cpu_usage: u64,
    pub memory_bytes: u64,
    pub disk_read_bytes: u64,
    pub disk_written_bytes: u64,
    pub run_time_seconds: u64,
}

/// The strings of `items` as character sequences.
pub open spec fn texts(items: Seq<String>) -> Seq<Seq<char>> {
    Seq::new(items.len(), |i: int| items[i]@)
}

impl View for ProcessInfo {
    type V = InfoView;

    open spec fn view(&self) -> InfoView {
        InfoView {
            pid: self.pid,
            name: self.name@,
            cmd: texts(self.cmd@),
            exe_path: self.exe_path@,
            cwd: self.cwd@,
            root: self.root@,
            environ: texts(self.environ@),
            cpu_usage: self.cpu_usage,
            memory_bytes: self.memory_bytes,
            disk_read_bytes: self.disk_read_bytes,
            disk_written_bytes: self.disk_written_bytes,
            run_time_seconds: self.run_time_seconds,
        }
    }
}

/// The entries of a snapshot as contracts see them.
pub open spec fn infos(snapshot: Seq<ProcessInfo>) -> Seq<InfoView> {
    Seq::new(snapshot.len(), |i: int| snapshot[i]@)
}

/// The name under which a process is listed: `file_name`, the final
/// component of its executable's path, where there is one; else its own name.
pub open spec fn name_or_file_name(file_name: Option<Seq<char>>, name: Seq<char>) -> Seq<char> {
    match file_name {
        Some(component) => component,
        None => name,
    }
}

impl InfoView {
    /// The name under which the process is listed.
    pub open spec fn resolved_name(self) -> Seq<char> {
        name_or_file_name(path_file_name(self.exe_path), self.name)
    }

    /// Bytes read and written, taken together and held at `u64::MAX`.
    pub open spec fn disk_usage(self) -> u64 {
        if self.disk_read_bytes + self.disk_written_bytes > u64::MAX {
            u64::MAX
        } else {
            (self.disk_read_bytes + self.disk_written_bytes) as u64
        }
    }

    /// Whether the process is listed at all: it is not when its resolved
    /// name or its command line is empty.
    pub open spec fn is_listed(self) -> bool {
        self.resolved_name().len() > 0 && self.cmd.len() > 0
    }
}

/// Picks the name under which a process is listed, given the final component
/// of its executable's path.
pub fn pick_name(file_name: Option<String>, name: &str) -> (picked: String)
    ensures
        picked@ == name_or_file_name(
            match file_name {
                Some(component) => Some(component@),
                None => None,
            },
            name@,
        ),
{
    match file_name {
        Some(component) => component,
        None => String::from_str(name),
    }
}

impl ProcessInfo {
    /// The name under which the process is listed.
    pub fn resolved_name(&self) -> (name: String)
        ensures
            name@ == self@.resolved_name(),
    {
        pick_name(file_name_of(self.exe_path.as_str()), self.name.as_str())
    }

    /// Bytes read and written, taken together.
    pub fn disk_usage(&self) -> (total: u64)
        ensures
            total == self@.disk_usage(),
    {
        if self.disk_read_bytes > u64::MAX - self.disk_written_bytes {
            u64::MAX
        } else {
            self.disk_read_bytes + self.disk_written_bytes
        }
    }

    /// Whether the process is listed at all.
    pub fn is_listed(&self) -> (listed: bool)
        ensures
            listed == self@.is_listed(),
    {
        let name = self.resolved_name();
        !name.as_str().is_empty() && self.cmd.len() > 0
    }
}

} // verus!
