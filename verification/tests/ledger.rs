use autogen_rust::task_ledger::TaskLedger;

#[test]
fn ledger_walks_tasks_in_order() {
    let tasks = vec!["first".to_string(), "second".to_string(), "third".to_string()];
    let mut ledger = TaskLedger::new(tasks.clone(), Some("parent".to_string()));

    let mut seen: Vec<String> = Vec::new();
    let mut flips: usize = 0;
    for i in 0..3 {
        assert!(!ledger.task_done);
        seen.push(ledger.current_task().expect("task expected"));
        ledger.record_result(format!("result {}", i));
        if ledger.task_done {
            flips += 1;
        }
    }
    assert_eq!(seen, tasks);
    assert!(ledger.task_done);
    assert_eq!(flips, 1);
    assert_eq!(ledger.result_list.len(), 3);
}

#[test]
fn ledger_single_task_finishes_on_first_result() {
    let mut ledger = TaskLedger::new(vec!["only".to_string()], None);
    assert_eq!(ledger.current_task().as_deref(), Some("only"));
    assert!(!ledger.task_done);
    ledger.record_result("done".to_string());
    assert!(ledger.task_done);
    assert_eq!(ledger.current_task().as_deref(), Some("only"));
}

#[test]
fn ledger_empty_list_finishes_on_first_result() {
    let mut ledger = TaskLedger::new(Vec::new(), Some("fallback".to_string()));
    assert_eq!(ledger.current_task(), None);
    assert!(!ledger.task_done);
    ledger.record_result("done".to_string());
    assert!(ledger.task_done);
    assert_eq!(ledger.current_task(), None);
}

#[test]
fn ledger_keeps_results_in_order() {
    let mut ledger = TaskLedger::new(vec!["a".to_string(), "b".to_string()], None);
    ledger.record_result("ra".to_string());
    assert!(!ledger.task_done);
    assert_eq!(ledger.current_task().as_deref(), Some("b"));
    ledger.record_result("rb".to_string());
    assert!(ledger.task_done);
    assert_eq!(ledger.result_list, vec!["ra".to_string(), "rb".to_string()]);
    assert_eq!(ledger.parent_task, None);
}
