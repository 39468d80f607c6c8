use autogen_rust::repair::{
    RepairAction, RepairEvent, RepairLoop, RepairOutcome, RepairPhase, DEFAULT_REPAIR_BUDGET,
};

fn fresh(budget: usize) -> RepairLoop {
    RepairLoop::new("You write Python.".to_string(), "sum 1 to 10", budget)
}

#[test]
fn all_failures_end_unresolved_after_exactly_the_budget() {
    let mut m = fresh(DEFAULT_REPAIR_BUDGET);
    let mut action = RepairAction::Generate;
    let mut failed_rounds: usize = 0;
    let mut steps: usize = 0;
    loop {
        steps += 1;
        assert!(steps < 100, "the loop must terminate");
        action = match action {
            RepairAction::Generate => {
                m.step(RepairEvent::Generated("```python\nboom()\n```".to_string()))
            },
            RepairAction::Execute(code) => {
                assert_eq!(code, "boom()");
                failed_rounds += 1;
                m.step(RepairEvent::Executed(false, "Error: boom".to_string()))
            },
            RepairAction::Compress => m.step(RepairEvent::Summarized("summary so far".to_string())),
            RepairAction::Classify(_) => panic!("no execution ever succeeds here"),
            RepairAction::Halt => break,
        };
    }
    assert_eq!(failed_rounds, DEFAULT_REPAIR_BUDGET);
    assert_eq!(m.rounds, DEFAULT_REPAIR_BUDGET);
    assert!(matches!(m.phase, RepairPhase::Done(RepairOutcome::Unresolved)));
}

#[test]
fn replies_without_code_also_spend_the_budget() {
    let mut m = fresh(3);
    let mut halts: usize = 0;
    for _ in 0..3 {
        match m.step(RepairEvent::Generated("no fences at all".to_string())) {
            RepairAction::Halt => halts += 1,
            RepairAction::Generate | RepairAction::Compress => {},
            _ => panic!("unexpected action"),
        }
        if let RepairPhase::AwaitSummary = m.phase {
            m.step(RepairEvent::Summarized("s".to_string()));
        }
    }
    assert_eq!(halts, 1);
    assert!(matches!(m.phase, RepairPhase::Done(RepairOutcome::Unresolved)));
}

#[test]
fn accepted_result_completes_the_loop() {
    let mut m = fresh(9);
    let a = m.step(RepairEvent::Generated("```python\nprint(sum(range(11)))\n```".to_string()));
    assert!(matches!(a, RepairAction::Execute(_)));
    let a = m.step(RepairEvent::Executed(true, "55".to_string()));
    match a {
        RepairAction::Classify(out) => assert_eq!(out, "55"),
        _ => panic!("expected a classification request"),
    }
    let a = m.step(RepairEvent::Judged(true));
    assert!(matches!(a, RepairAction::Halt));
    match &m.phase {
        RepairPhase::Done(RepairOutcome::Completed(out)) => assert_eq!(out, "55"),
        _ => panic!("expected completion"),
    }
    assert_eq!(m.rounds, 0);
}

#[test]
fn incorrect_result_spends_a_round_with_feedback() {
    let mut m = fresh(9);
    m.step(RepairEvent::Generated("```python\nprint(2)\n```".to_string()));
    m.step(RepairEvent::Executed(true, "2".to_string()));
    let a = m.step(RepairEvent::Judged(false));
    assert!(matches!(a, RepairAction::Generate));
    assert_eq!(m.rounds, 1);
    let last = m.window.last().expect("feedback appended").content_to_string();
    assert_eq!(
        last,
        "Executed the code below:\nprint(2)\nproducing the following result, but the result is incorrect:\n2"
    );
}

#[test]
fn long_windows_are_compressed_back_to_three_entries() {
    let mut m = fresh(9);
    let mut compressed = false;
    for _ in 0..4 {
        let a = m.step(RepairEvent::Generated("```python\nx\n```".to_string()));
        assert!(matches!(a, RepairAction::Execute(_)));
        let a = m.step(RepairEvent::Executed(false, "err".to_string()));
        if matches!(a, RepairAction::Compress) {
            assert!(m.window.len() > 5);
            let a = m.step(RepairEvent::Summarized("what went wrong so far".to_string()));
            assert!(matches!(a, RepairAction::Generate));
            assert_eq!(m.window.len(), 3);
            assert_eq!(m.window[2].content_to_string(), "what went wrong so far");
            compressed = true;
            break;
        }
    }
    assert!(compressed, "the window limit must trigger compression");
}
