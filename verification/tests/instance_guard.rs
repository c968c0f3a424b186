use roseline_launcher::instance_guard::{
    duplicate_notice, is_already_running, InstanceGuard, ProcessEntry, ScanReport,
};

fn entry(pid: u32, name: &str) -> ProcessEntry {
    ProcessEntry { pid, name: name.to_string() }
}

#[test]
fn foreign_process_with_matching_name_is_a_duplicate() {
    let guard = InstanceGuard::for_launcher(100);
    let table = vec![entry(1, "init"), entry(100, "roseline-launcher"), entry(220, "roseline-web")];
    assert!(guard.is_duplicate(&table));
    assert_eq!(guard.find_duplicate(&table), Some(2));
}

#[test]
fn own_entry_alone_is_no_duplicate() {
    let guard = InstanceGuard::for_launcher(100);
    let table = vec![entry(100, "roseline-launcher")];
    assert!(!guard.is_duplicate(&table));
    assert_eq!(guard.find_duplicate(&table), None);
}

#[test]
fn empty_table_is_no_duplicate() {
    let guard = InstanceGuard::for_launcher(7);
    assert!(!guard.is_duplicate(&Vec::new()));
}

#[test]
fn match_is_by_fragment_anywhere_in_the_name() {
    let guard = InstanceGuard::for_launcher(1);
    assert!(guard.is_duplicate(&vec![entry(2, "my-roseline.exe")]));
    assert!(guard.is_duplicate(&vec![entry(2, "roseline")]));
    assert!(!guard.is_duplicate(&vec![entry(2, "roselin")]));
    assert!(!guard.is_duplicate(&vec![entry(2, "Roseline")]));
    assert!(!guard.is_duplicate(&vec![entry(2, "rose line")]));
    assert!(!guard.is_duplicate(&vec![entry(2, "")]));
}

#[test]
fn first_conflicting_row_is_reported() {
    let guard = InstanceGuard::for_launcher(5);
    let table = vec![
        entry(3, "bash"),
        entry(5, "roseline"),
        entry(9, "roseline"),
        entry(11, "roseline-web"),
    ];
    assert_eq!(guard.find_duplicate(&table), Some(2));
}

#[test]
fn guard_with_another_identity() {
    let guard = InstanceGuard::new("web", 5);
    assert!(guard.conflicts_with(&entry(6, "roseline-web")));
    assert!(!guard.conflicts_with(&entry(5, "roseline-web")));
    assert!(!guard.conflicts_with(&entry(6, "roseline")));
}

#[test]
fn empty_identity_matches_every_foreign_process() {
    let guard = InstanceGuard::new("", 5);
    assert!(guard.conflicts_with(&entry(6, "")));
    assert!(guard.conflicts_with(&entry(6, "anything")));
    assert!(!guard.conflicts_with(&entry(5, "anything")));
}

#[test]
fn duplicate_notice_names_process_and_pid() {
    assert_eq!(
        duplicate_notice(&entry(4242, "roseline-web")),
        "Found Roseline's process 'roseline-web' with pid=4242. Exiting..."
    );
    assert_eq!(
        duplicate_notice(&entry(0, "roseline")),
        "Found Roseline's process 'roseline' with pid=0. Exiting..."
    );
    assert_eq!(
        duplicate_notice(&entry(u32::MAX, "x")),
        "Found Roseline's process 'x' with pid=4294967295. Exiting..."
    );
}

#[test]
fn is_already_running_on_a_foreign_match() {
    let table = vec![entry(1, "init"), entry(100, "launcher"), entry(220, "roseline-web")];
    assert!(is_already_running(100, &table));
    assert!(is_already_running(1, &table));
    assert!(!is_already_running(220, &table));
}

#[test]
fn is_already_running_ignores_the_own_entry() {
    assert!(!is_already_running(100, &vec![entry(100, "roseline-launcher")]));
    assert!(is_already_running(101, &vec![entry(100, "roseline-launcher")]));
    assert!(!is_already_running(100, &vec![entry(100, "roseline"), entry(100, "roseline-web")]));
}

#[test]
fn is_already_running_on_an_unreadable_table_is_false() {
    assert!(!is_already_running(100, &Vec::new()));
    assert!(!is_already_running(0, &Vec::new()));
}

#[test]
fn is_already_running_agrees_with_the_report() {
    let tables = vec![
        Vec::new(),
        vec![entry(5, "roseline")],
        vec![entry(4, "bash"), entry(5, "Roseline"), entry(6, "xroselinex")],
        vec![entry(6, "roseline"), entry(7, "roseline")],
    ];
    for table in tables {
        for own_pid in [4, 5, 6, 7] {
            let report = ScanReport::of(own_pid, table.clone());
            assert_eq!(is_already_running(own_pid, &table), report.conflict.is_some());
        }
    }
}

#[test]
fn report_on_a_given_table() {
    let table = vec![entry(1, "init"), entry(40, "roseline"), entry(41, "roseline-web")];
    let report = ScanReport::of(40, table.clone());
    assert_eq!(report, ScanReport { own_pid: 40, table: table.clone(), conflict: Some(2) });
    let alone = ScanReport::of(41, vec![entry(41, "roseline-web")]);
    assert_eq!(alone.conflict, None);
    assert_eq!(alone.own_pid, 41);
    let empty = ScanReport::of(7, Vec::new());
    assert_eq!(empty, ScanReport { own_pid: 7, table: Vec::new(), conflict: None });
}
