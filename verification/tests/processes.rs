use process_viewer::filter::FilterState;
use process_viewer::process::{pick_name, ProcessInfo};
use process_viewer::registry::{create_and_fill_model, ProcessRegistry};
use process_viewer::row::ProcessRow;
use process_viewer::table::{rows_in_order, table, SortColumn};

fn info(pid: u32, name: &str, cmd: &[&str], cpu: u64, memory: u64) -> ProcessInfo {
    ProcessInfo {
        pid,
        name: name.to_string(),
        cmd: cmd.iter().map(|part| part.to_string()).collect(),
        exe_path: String::new(),
        cwd: String::new(),
        root: String::new(),
        environ: Vec::new(),
        cpu_usage: cpu,
        memory_bytes: memory,
        disk_read_bytes: 0,
        disk_written_bytes: 0,
        run_time_seconds: 0,
    }
}

fn filter(active: bool, query: &str) -> FilterState {
    FilterState { active, query: query.to_string() }
}

fn pids_of(registry: &ProcessRegistry, order: &[usize]) -> Vec<u32> {
    order.iter().map(|position| registry.row_at(*position).unwrap().pid()).collect()
}

#[test]
fn reconcile_drops_empty_then_lists_named_process() {
    let mut registry = ProcessRegistry::new();
    registry.reconcile(&vec![info(1, "", &[], 0, 0)]);
    assert!(!registry.contains(1));
    assert!(registry.get(1).is_none());
    assert_eq!(registry.len(), 0);
    registry.reconcile(&vec![info(1, "sh", &["sh"], 5_000, 2_048)]);
    assert!(registry.contains(1));
    let row = registry.get(1).unwrap();
    assert_eq!(row.sort_key_cpu(), 5_000);
    assert_eq!(row.sort_key_mem(), 2_048);
    assert_eq!(row.display_cpu(), "5.0");
    assert_eq!(row.display_mem(), "2 kB");
    assert_eq!(row.display_name(), "sh");
    assert_eq!(registry.len(), 1);
}

#[test]
fn reconcile_removes_absent_pids_and_updates_in_place() {
    let mut registry = ProcessRegistry::new();
    registry.reconcile(&vec![
        info(1, "init", &["init"], 0, 1_000),
        info(2, "bash", &["bash"], 1_500, 2_000),
        info(3, "vim", &["vim", "a.txt"], 300, 3_000),
    ]);
    assert_eq!(registry.len(), 3);
    registry.reconcile(&vec![
        info(3, "vim", &["vim", "a.txt"], 900, 4_000),
        info(4, "top", &["top"], 100, 500),
    ]);
    assert_eq!(registry.len(), 2);
    assert!(!registry.contains(1));
    assert!(!registry.contains(2));
    assert_eq!(registry.get(3).unwrap().sort_key_cpu(), 900);
    assert_eq!(registry.get(3).unwrap().display_mem(), "4 kB");
    assert_eq!(registry.get(4).unwrap().display_name(), "top");
    registry.reconcile(&Vec::new());
    assert!(registry.is_empty());
}

#[test]
fn reconcile_keeps_row_when_entry_is_not_listed() {
    let mut registry = ProcessRegistry::new();
    registry.reconcile(&vec![info(7, "worker", &["worker"], 2_000, 10)]);
    registry.reconcile(&vec![info(7, "worker", &[], 9_000, 20)]);
    assert!(registry.contains(7));
    assert_eq!(registry.get(7).unwrap().sort_key_cpu(), 2_000);
    registry.reconcile(&vec![info(8, "other", &["other"], 0, 0)]);
    assert!(!registry.contains(7));
}

#[test]
fn reconcile_takes_the_last_listed_entry_of_a_pid() {
    let mut registry = ProcessRegistry::new();
    registry.reconcile(&vec![
        info(5, "first", &["first"], 1_000, 0),
        info(5, "second", &["second"], 2_000, 0),
        info(5, "", &[], 3_000, 0),
    ]);
    assert_eq!(registry.len(), 1);
    assert_eq!(registry.get(5).unwrap().display_name(), "second");
    assert_eq!(registry.get(5).unwrap().sort_key_cpu(), 2_000);
}

#[test]
fn rebuild_equals_reconcile_from_nothing() {
    let snapshot = vec![info(1, "a", &["a"], 1, 1), info(2, "", &["x"], 1, 1)];
    let registry = ProcessRegistry::rebuild(&snapshot);
    assert_eq!(registry.len(), 1);
    assert!(registry.contains(1));
    assert!(!registry.contains(2));
}

#[test]
fn upsert_inserts_and_replaces() {
    let mut registry = ProcessRegistry::new();
    assert!(registry.upsert(&info(9, "Bash", &["bash"], 1_000, 5)));
    assert!(registry.upsert(&info(9, "Bash", &["bash"], 2_000, 6)));
    assert!(!registry.upsert(&info(9, "Bash", &[], 3_000, 7)));
    assert!(!registry.upsert(&info(10, "", &["x"], 3_000, 7)));
    assert_eq!(registry.len(), 1);
    assert_eq!(registry.get(9).unwrap().sort_key_cpu(), 2_000);
    assert_eq!(registry.row_at(0).unwrap().pid(), 9);
    assert!(registry.row_at(1).is_none());
}

#[test]
fn create_and_fill_model_skips_empty_name_or_command() {
    let mut registry = ProcessRegistry::new();
    let cmd = vec!["sh".to_string()];
    assert!(!create_and_fill_model(&mut registry, 1, &[], "sh", 0, 0));
    assert!(!create_and_fill_model(&mut registry, 1, &cmd, "", 0, 0));
    assert!(registry.is_empty());
    assert!(create_and_fill_model(&mut registry, 1, &cmd, "sh", 12_340, 1_500_000));
    let row = registry.get(1).unwrap();
    assert_eq!(row.display_cpu(), "12.3");
    assert_eq!(row.display_mem(), "1500 kB");
    assert_eq!(row.display_disk(), "0 B");
    assert_eq!(row.sort_key_disk(), 0);
}

#[test]
fn row_keys_and_display_strings_agree() {
    let row = ProcessRow::new(42, "Firefox", 9_960, 100_000_000, 999);
    assert_eq!(row.pid(), 42);
    assert_eq!(row.display_name(), "Firefox");
    assert_eq!(row.sort_key_name_lower(), "firefox");
    assert_eq!(row.display_cpu(), "10.0");
    assert_eq!(row.sort_key_cpu(), 9_960);
    assert_eq!(row.display_mem(), "100 MB");
    assert_eq!(row.sort_key_mem(), 100_000_000);
    assert_eq!(row.display_disk(), "999 B");
    assert_eq!(row.sort_key_disk(), 999);
    let copy = row.duplicate();
    assert_eq!(copy.display_name(), "Firefox");
    assert_eq!(copy.sort_key_cpu(), 9_960);
}

#[test]
fn lower_case_key_differs_from_display_name() {
    let row = ProcessRow::new(1, "XOrg", 0, 0, 0);
    assert_eq!(row.display_name(), "XOrg");
    assert_eq!(row.sort_key_name_lower(), "xorg");
}

#[test]
fn resolved_name_prefers_the_executable_file_name() {
    let mut entry = info(1, "kworker", &["x"], 0, 0);
    assert_eq!(entry.resolved_name(), "kworker");
    entry.exe_path = "/usr/bin/bash".to_string();
    assert_eq!(entry.resolved_name(), "bash");
    assert!(entry.is_listed());
    assert_eq!(ProcessRow::from_info(&entry).unwrap().display_name(), "bash");
}

#[test]
fn entry_with_empty_name_but_executable_is_listed() {
    let mut entry = info(1, "", &["x"], 0, 0);
    assert!(!entry.is_listed());
    assert!(ProcessRow::from_info(&entry).is_none());
    entry.exe_path = "/bin/true".to_string();
    assert!(entry.is_listed());
}

#[test]
fn pick_name_falls_back_to_the_process_name() {
    assert_eq!(pick_name(Some("exe".to_string()), "name"), "exe");
    assert_eq!(pick_name(None, "name"), "name");
}

#[test]
fn disk_usage_sums_and_saturates() {
    let mut entry = info(1, "a", &["a"], 0, 0);
    entry.disk_read_bytes = 1_200;
    entry.disk_written_bytes = 800;
    assert_eq!(entry.disk_usage(), 2_000);
    let row = ProcessRow::from_info(&entry).unwrap();
    assert_eq!(row.sort_key_disk(), 2_000);
    assert_eq!(row.display_disk(), "2 kB");
    entry.disk_read_bytes = u64::MAX;
    entry.disk_written_bytes = 1;
    assert_eq!(entry.disk_usage(), u64::MAX);
}

#[test]
fn filter_matches_pid_exactly() {
    let row = ProcessRow::new(123, "bash", 0, 0, 0);
    assert!(filter(true, "123").matches(&row));
}

#[test]
fn filter_matches_longer_query_holding_the_pid() {
    let row = ProcessRow::new(123, "bash", 0, 0, 0);
    assert!(filter(true, "1234").matches(&row));
    assert!(filter(true, "12").matches(&row));
}

#[test]
fn filter_rejects_unrelated_row() {
    let row = ProcessRow::new(123, "bash", 0, 0, 0);
    assert!(!filter(true, "xyz").matches(&row));
    assert!(!filter(true, "124").matches(&row));
}

#[test]
fn filter_with_empty_query_shows_everything() {
    let row = ProcessRow::new(123, "bash", 0, 0, 0);
    assert!(filter(true, "").matches(&row));
    assert!(filter(false, "").matches(&row));
}

#[test]
fn inactive_filter_shows_everything() {
    let row = ProcessRow::new(123, "bash", 0, 0, 0);
    assert!(filter(false, "xyz").matches(&row));
}

#[test]
fn filter_matches_name_both_ways_in_lower_case() {
    let row = ProcessRow::new(7, "Firefox", 0, 0, 0);
    assert!(filter(true, "fire").matches(&row));
    assert!(filter(true, "firefox-bin").matches(&row));
    assert!(!filter(true, "Fire").matches(&row));
    assert!(!filter(true, "chrome").matches(&row));
}

#[test]
fn filter_state_toggle_and_hide() {
    let mut state = FilterState::new();
    assert!(!state.active);
    assert_eq!(state.query, "");
    state.toggle();
    state.set_query("abc");
    assert!(state.active);
    assert_eq!(state.query, "abc");
    state.toggle();
    assert!(!state.active);
    assert_eq!(state.query, "abc");
    state.toggle();
    state.hide_filter();
    assert!(!state.active);
    assert_eq!(state.query, "");
}

#[test]
fn cpu_order_is_numeric_not_by_display() {
    let mut registry = ProcessRegistry::new();
    registry.reconcile(&vec![
        info(1, "a", &["a"], 9_980, 0),
        info(2, "b", &["b"], 9_960, 0),
        info(3, "c", &["c"], 10_000, 0),
        info(4, "d", &["d"], 9_000, 0),
        info(5, "e", &["e"], 9_940, 0),
    ]);
    assert_eq!(registry.get(1).unwrap().display_cpu(), "10.0");
    assert_eq!(registry.get(2).unwrap().display_cpu(), "10.0");
    assert_eq!(registry.get(3).unwrap().display_cpu(), "10.0");
    assert_eq!(registry.get(4).unwrap().display_cpu(), "9.0");
    let order = table(&registry, &FilterState::new(), SortColumn::Cpu, false);
    assert_eq!(pids_of(&registry, &order), vec![4, 5, 2, 1, 3]);
    let order = table(&registry, &FilterState::new(), SortColumn::Cpu, true);
    assert_eq!(pids_of(&registry, &order), vec![3, 1, 2, 5, 4]);
}

#[test]
fn cpu_and_memory_orders_are_independent() {
    let mut registry = ProcessRegistry::new();
    registry.reconcile(&vec![
        info(1, "a", &["a"], 3_000, 999),
        info(2, "b", &["b"], 1_000, 1_000),
        info(3, "c", &["c"], 2_000, 100_000_000),
    ]);
    let by_cpu = table(&registry, &FilterState::new(), SortColumn::Cpu, false);
    assert_eq!(pids_of(&registry, &by_cpu), vec![2, 3, 1]);
    let by_mem = table(&registry, &FilterState::new(), SortColumn::Memory, false);
    assert_eq!(pids_of(&registry, &by_mem), vec![1, 2, 3]);
    registry.reconcile(&vec![
        info(1, "a", &["a"], 3_000, 5),
        info(2, "b", &["b"], 1_000, 4),
        info(3, "c", &["c"], 2_000, 3),
    ]);
    let by_cpu = table(&registry, &FilterState::new(), SortColumn::Cpu, false);
    assert_eq!(pids_of(&registry, &by_cpu), vec![2, 3, 1]);
    let by_mem = table(&registry, &FilterState::new(), SortColumn::Memory, false);
    assert_eq!(pids_of(&registry, &by_mem), vec![3, 2, 1]);
}

#[test]
fn memory_order_ignores_formatted_strings() {
    let mut registry = ProcessRegistry::new();
    registry.reconcile(&vec![
        info(1, "a", &["a"], 0, 9_000),
        info(2, "b", &["b"], 0, 10_000),
        info(3, "c", &["c"], 0, 900),
    ]);
    let order = table(&registry, &FilterState::new(), SortColumn::Memory, false);
    assert_eq!(pids_of(&registry, &order), vec![3, 1, 2]);
}

#[test]
fn name_order_folds_case() {
    let mut registry = ProcessRegistry::new();
    registry.reconcile(&vec![
        info(1, "bash", &["x"], 0, 0),
        info(2, "Bash2", &["x"], 0, 0),
        info(3, "Apache", &["x"], 0, 0),
        info(4, "zsh", &["x"], 0, 0),
        info(5, "ba", &["x"], 0, 0),
    ]);
    let order = table(&registry, &FilterState::new(), SortColumn::Name, false);
    assert_eq!(pids_of(&registry, &order), vec![3, 5, 1, 2, 4]);
    let order = table(&registry, &FilterState::new(), SortColumn::Name, true);
    assert_eq!(pids_of(&registry, &order), vec![4, 2, 1, 5, 3]);
}

#[test]
fn table_lists_only_visible_rows() {
    let mut registry = ProcessRegistry::new();
    registry.reconcile(&vec![
        info(10, "bash", &["x"], 0, 0),
        info(210, "vim", &["x"], 0, 0),
        info(3, "basher", &["x"], 0, 0),
        info(44, "top", &["x"], 0, 0),
    ]);
    let order = table(&registry, &filter(true, "bash"), SortColumn::Pid, false);
    assert_eq!(pids_of(&registry, &order), vec![3, 10]);
    let order = table(&registry, &filter(true, "10"), SortColumn::Pid, true);
    assert_eq!(pids_of(&registry, &order), vec![210, 10]);
    let order = table(&registry, &filter(true, "nothing"), SortColumn::Pid, false);
    assert!(order.is_empty());
    let order = table(&registry, &filter(false, "nothing"), SortColumn::Pid, false);
    assert_eq!(pids_of(&registry, &order), vec![3, 10, 44, 210]);
}

#[test]
fn rows_in_order_compares_one_column() {
    let small = ProcessRow::new(1, "b", 1_000, 50, 7);
    let large = ProcessRow::new(2, "a", 2_000, 40, 7);
    assert!(rows_in_order(SortColumn::Cpu, false, &small, &large));
    assert!(!rows_in_order(SortColumn::Cpu, true, &small, &large));
    assert!(!rows_in_order(SortColumn::Memory, false, &small, &large));
    assert!(!rows_in_order(SortColumn::Name, false, &small, &large));
    assert!(rows_in_order(SortColumn::Disk, false, &small, &large));
    assert!(rows_in_order(SortColumn::Disk, true, &small, &large));
    assert!(rows_in_order(SortColumn::Pid, false, &small, &large));
}

#[test]
fn matches_text_works_on_plain_strings() {
    assert!(filter(true, "123").matches_text("123", "bash"));
    assert!(filter(true, "1234").matches_text("123", "bash"));
    assert!(filter(true, "as").matches_text("123", "bash"));
    assert!(filter(true, "bashful").matches_text("123", "bash"));
    assert!(!filter(true, "xyz").matches_text("123", "bash"));
    assert!(filter(false, "xyz").matches_text("123", "bash"));
    assert!(filter(true, "").matches_text("123", "bash"));
}

fn table_order(registry: &ProcessRegistry) -> Vec<u32> {
    (0..registry.len()).map(|position| registry.row_at(position).unwrap().pid()).collect()
}

#[test]
fn reconcile_keeps_rows_in_place_and_appends_new_ones() {
    let mut registry = ProcessRegistry::new();
    registry.reconcile(&vec![
        info(1, "init", &["init"], 0, 1_000),
        info(2, "bash", &["bash"], 1_500, 2_000),
        info(3, "vim", &["vim"], 300, 3_000),
    ]);
    assert_eq!(table_order(&registry), vec![1, 2, 3]);
    registry.reconcile(&vec![
        info(3, "vim", &["vim"], 900, 4_000),
        info(5, "top", &["top"], 100, 500),
        info(4, "cat", &["cat"], 100, 500),
        info(1, "init", &["init"], 7_000, 1_000),
    ]);
    assert_eq!(table_order(&registry), vec![1, 3, 5, 4]);
    assert_eq!(registry.row_at(0).unwrap().sort_key_cpu(), 7_000);
    assert_eq!(registry.row_at(1).unwrap().sort_key_cpu(), 900);
    assert_eq!(registry.row_at(1).unwrap().display_mem(), "4 kB");
    registry.reconcile(&vec![
        info(4, "cat", &["cat"], 0, 0),
        info(3, "vim", &[], 0, 0),
        info(9, "", &["x"], 0, 0),
    ]);
    assert_eq!(table_order(&registry), vec![3, 4]);
    assert_eq!(registry.row_at(0).unwrap().sort_key_cpu(), 900);
    assert!(!registry.contains(9));
}

#[test]
fn reconcile_with_the_same_snapshot_changes_no_place() {
    let snapshot = vec![
        info(30, "c", &["c"], 0, 0),
        info(10, "a", &["a"], 0, 0),
        info(20, "b", &["b"], 0, 0),
    ];
    let mut registry = ProcessRegistry::rebuild(&snapshot);
    assert_eq!(table_order(&registry), vec![30, 10, 20]);
    let shuffled = vec![
        info(20, "b", &["b"], 1, 0),
        info(30, "c", &["c"], 2, 0),
        info(10, "a", &["a"], 3, 0),
    ];
    registry.reconcile(&shuffled);
    assert_eq!(table_order(&registry), vec![30, 10, 20]);
    assert_eq!(registry.get(30).unwrap().sort_key_cpu(), 2);
}

#[test]
fn upsert_replaces_where_the_row_stands() {
    let mut registry = ProcessRegistry::new();
    registry.upsert(&info(1, "a", &["a"], 0, 0));
    registry.upsert(&info(2, "b", &["b"], 0, 0));
    registry.upsert(&info(3, "c", &["c"], 0, 0));
    registry.upsert(&info(2, "b2", &["b"], 5, 0));
    assert_eq!(table_order(&registry), vec![1, 2, 3]);
    assert_eq!(registry.row_at(1).unwrap().display_name(), "b2");
    let cmd = vec!["x".to_string()];
    assert!(create_and_fill_model(&mut registry, 1, &cmd, "a1", 0, 0));
    assert!(create_and_fill_model(&mut registry, 4, &cmd, "d", 0, 0));
    assert_eq!(table_order(&registry), vec![1, 2, 3, 4]);
    assert_eq!(registry.row_at(0).unwrap().display_name(), "a1");
}
