use aurr_manager::names::HasName;
use aurr_manager::shell::Shell;
use aurr_manager::table::SortedTable;
use aurr_manager::template::{CaseTemplate, TaskTemplate};

fn calls(entries: &[(&str, &[&str])]) -> SortedTable<Vec<String>> {
    let mut t = SortedTable::new();
    for (k, v) in entries {
        t.insert(k.to_string(), v.iter().map(|s| s.to_string()).collect());
    }
    t
}

fn template() -> TaskTemplate {
    let mut tasks: SortedTable<Option<SortedTable<Vec<String>>>> = SortedTable::new();
    tasks.insert("2 triage".to_string(), None);
    tasks.insert("1 memory".to_string(), Some(calls(&[("velo", &["Default"])])));
    TaskTemplate::new("T".to_string(), "Linux".to_string(), Shell::Bash, tasks)
}

#[test]
fn tasks_run_in_alphanumeric_order() {
    let mut tasks: SortedTable<Option<SortedTable<Vec<String>>>> = SortedTable::new();
    tasks.insert("A before memory task".to_string(), None);
    tasks.insert("2 triage".to_string(), None);
    tasks.insert("1 Memory".to_string(), None);
    let t = TaskTemplate::new("n".to_string(), "Windows".to_string(), Shell::Powershell, tasks);
    assert_eq!(t.list_tasks(), vec!["1 Memory", "2 triage", "A before memory task"]);
}

#[test]
fn tool_calls_in_task_then_option_order() {
    let mut tasks: SortedTable<Option<SortedTable<Vec<String>>>> = SortedTable::new();
    tasks.insert(
        "2 b".to_string(),
        Some(calls(&[("zeta", &["Z1"]), ("alpha", &["A1", "A2"])])),
    );
    tasks.insert("1 a".to_string(), Some(calls(&[("surge", &["Default_Windows_Upload_Azure", "NotDefault_Windows_Upload_Auze"])])));
    tasks.insert("3 c".to_string(), None);
    let t = TaskTemplate::new("n".to_string(), "Windows".to_string(), Shell::Powershell, tasks);
    let s = t.scheduled_calls();
    let expected: Vec<(String, Vec<String>)> = vec![
        ("surge".to_string(), vec!["Default_Windows_Upload_Azure".to_string(), "NotDefault_Windows_Upload_Auze".to_string()]),
        ("alpha".to_string(), vec!["A1".to_string(), "A2".to_string()]),
        ("zeta".to_string(), vec!["Z1".to_string()]),
    ];
    assert_eq!(s, expected);
}

#[test]
fn tasks_copy_is_equal() {
    let t = template();
    let c = t.tasks();
    assert_eq!(c.keys(), vec!["1 memory", "2 triage"]);
    assert!(c.get("2 triage").unwrap().is_none());
    let m = c.get("1 memory").unwrap().as_ref().unwrap();
    assert_eq!(m.get("velo"), Some(&vec!["Default".to_string()]));
}

#[test]
fn list_tasks_clean_writes_each_task() {
    let t = template();
    let c = t.list_tasks_clean();
    assert_eq!(c.get("2 triage"), Some(&"None".to_string()));
    assert_eq!(c.get("1 memory"), Some(&"\n\tvelo        :  [Default]".to_string()));
}

#[test]
fn ls_case_lists_name_host_and_template() {
    let c = CaseTemplate::from_parts("CaseA".to_string(), "host".to_string(), template());
    assert_eq!(
        c.ls_case(),
        "\n      name: CaseA\n      hostname: host\n        task_template: \n        TaskName: T,\n        OS: Linux,\n        Shell: Bash,\n        Tasks: \n\t1 memory    :  velo        :  [Default]\n\t2 triage    :  None\n        \n        "
    );
    assert_eq!(c.name(), "CaseA");
    assert_eq!(c.task_template().name(), "T");
    assert_eq!(c.task_template().os(), "Linux");
    assert_eq!(c.task_template().shell(), Shell::Bash);
}

#[test]
fn new_case_gets_a_uuid_and_default_host() {
    let c = CaseTemplate::new_from_task(None, None, template());
    let n = c.name();
    assert_eq!(n.len(), 36);
    for (i, ch) in n.chars().enumerate() {
        if [8, 13, 18, 23].contains(&i) {
            assert_eq!(ch, '-');
        } else {
            assert!(ch.is_ascii_hexdigit() && !ch.is_ascii_uppercase());
        }
    }
    assert_eq!(n.chars().nth(14), Some('4'));
    assert!(c.ls_case().starts_with(&format!("\n      name: {}\n      hostname: N/A\n", n)));
    let d = CaseTemplate::new_from_task(Some("x".to_string()), Some("h".to_string()), template());
    assert_eq!(d.name(), "x");
    assert!(d.ls_case().contains("hostname: h\n"));
}
