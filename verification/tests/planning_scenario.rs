//! An end-to-end pass over the decision core with the completion client
//! stubbed by its canned replies: planning a computational goal yields one
//! merged coding step, the ledger serves it, and the dispatcher routes it to
//! code generation — not to three separate search, fetch and code steps.

use autogen_rust::dispatch::{dispatch_decision, Capability, DispatchDecision};
use autogen_rust::json::{parse_planning_steps, parse_reply_content};
use autogen_rust::task_ledger::TaskLedger;

#[test]
fn prime_calculation_plans_one_merged_coding_step() {
    // The planner's reply for "calculate prime numbers up to 100".
    let mut planning_reply = String::new();
    planning_reply.push_str("{\"my_goal\": \"goal is to help complete this mathematical computation efficiently\",");
    planning_reply.push_str("\"my_thought_process\": [");
    planning_reply.push_str("\"intrinsic knowledge alone does not settle it\",");
    planning_reply.push_str("\"a computation like this fits one Python script\",");
    planning_reply.push_str("\"[Check for unnecessary breakdowns especially for 'coding' tasks]: merge into single coding action\"");
    planning_reply.push_str("],");
    planning_reply.push_str("\"steps_to_take\": [\"Work out the following task/tasks as one coding problem: ");
    planning_reply.push_str("Define function checking primes; loop through 2-100 calling function; print primes\"]}");
    let steps = parse_planning_steps(&planning_reply).expect("the plan parses");
    assert_eq!(steps.len(), 1, "one merged step, not three");

    let mut ledger = TaskLedger::new(steps, Some("calculate prime numbers up to 100".to_string()));
    let task = ledger.current_task().expect("the merged step is current");
    assert!(task.starts_with("Work out the following task/tasks as one coding problem:"));

    // The dispatcher's reply for that step.
    let mut dispatch_reply = String::new();
    dispatch_reply.push_str("<tool_call>\n");
    dispatch_reply.push_str("{\"arguments\": {\"key_points\": \"Define function checking primes; loop through 2-100");
    dispatch_reply.push_str(" calling function; print primes\"},\n\"name\": \"code_with_python\"}\n");
    dispatch_reply.push_str("</tool_call>");
    let content = parse_reply_content(&dispatch_reply).expect("the reply parses");
    match dispatch_decision(&content) {
        DispatchDecision::Invoke(Capability::CodeWithPython, key_points) => {
            assert!(key_points.contains("primes"));
        },
        _ => panic!("the merged step must route to code generation"),
    }

    ledger.record_result("code_with_python working".to_string());
    assert!(ledger.task_done, "the single step completes the goal");
}
