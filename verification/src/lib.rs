//! Core of a desktop process and resource monitor: rotating sample buffers,
//! auto-scaling series graphs with unit-aware axis labels, a process table
//! with separate display strings and numeric sort keys, a permissive search
//! filter, and per-process peak tracking.
//!
//! Fractional quantities (CPU percentages, temperatures) are carried as
//! unsigned fixed-point numbers counted in thousandths of their unit.

pub mod detail;
pub mod filter;
pub mod graph;
pub mod labels;
pub mod peak;
pub mod process;
pub mod registry;
pub mod rotating;
pub mod row;
pub mod strings;
pub mod system;
pub mod table;
pub mod text;
pub mod units;
