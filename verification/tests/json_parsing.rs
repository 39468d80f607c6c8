use autogen_rust::json::{
    parse_issue_summary_from_json, parse_planning_steps, parse_reply_content,
    parse_summary_from_raw_json, parse_tool_call, parse_verdict, JsonError, ReplyError,
};
use autogen_rust::messages::Content;

#[test]
fn tool_call_payload_parses() {
    let payload = "{\"arguments\": {\"query\": \"latest AI research trends\"}, \"name\": \"search_with_bing\"}";
    let call = parse_tool_call(payload).expect("tool call expected");
    assert_eq!(call.name, "search_with_bing");
    assert_eq!(call.get_argument("query").as_deref(), Some("latest AI research trends"));
    assert_eq!(call.get_argument("url"), None);
}

#[test]
fn tool_call_without_arguments_has_none() {
    let call = parse_tool_call("{\"name\": \"use_intrinsic_knowledge\"}").expect("tool call");
    assert_eq!(call.name, "use_intrinsic_knowledge");
    assert!(call.arguments.is_empty());
}

#[test]
fn bad_tool_call_payload_is_rejected() {
    assert!(parse_tool_call("{\"no_name\": 1}").is_none());
    assert!(parse_tool_call("not json at all").is_none());
    assert!(parse_tool_call("{\"name\": \"x\", \"arguments\": 5}").is_none());
}

#[test]
fn plain_reply_is_text_never_an_error() {
    match parse_reply_content("just a thought") {
        Ok(Content::Text(t)) => assert_eq!(t, "just a thought"),
        _ => panic!("expected plain text"),
    }
}

#[test]
fn wrapped_reply_is_a_tool_call() {
    let reply = "<tool_call>\n{\"arguments\": {\"task\": \"tell a joke\"}, \"name\": \"use_intrinsic_knowledge\"}\n</tool_call>";
    match parse_reply_content(reply) {
        Ok(Content::ToolCall(tc)) => {
            assert_eq!(tc.name, "use_intrinsic_knowledge");
            assert_eq!(tc.get_argument("task").as_deref(), Some("tell a joke"));
        },
        _ => panic!("expected a tool call"),
    }
}

#[test]
fn wrapped_garbage_is_a_malformed_reply() {
    let reply = "<tool_call>{broken json}</tool_call>";
    match parse_reply_content(reply) {
        Err(ReplyError::MalformedToolCall) => {},
        _ => panic!("expected a malformed-reply error"),
    }
}

#[test]
fn planning_steps_come_back_reversed() {
    let reply = "{\"my_thought_process\": [\"a\", \"b\"], \"steps_to_take\": [\"one\", \"two\", \"three\"]}";
    let steps = parse_planning_steps(reply).expect("steps expected");
    assert_eq!(steps, vec!["three".to_string(), "two".to_string(), "one".to_string()]);
}

#[test]
fn planning_reply_without_steps_is_rejected() {
    assert!(parse_planning_steps("{\"other\": []}").is_none());
    assert!(parse_planning_steps("nonsense").is_none());
}

#[test]
fn terminate_verdict_stops_with_joined_key_points() {
    let reply = "{\"continue_or_terminate\": \"TERMINATE\", \"key_points\": [\"fast\", \"correct\"]}";
    let (stop, points) = parse_verdict(reply).expect("verdict expected");
    assert!(stop);
    assert_eq!(points, "fast,correct");
}

#[test]
fn continue_verdict_does_not_stop() {
    let reply = "{\"continue_or_terminate\": \"CONTINUE\", \"key_points\": \"keep going\"}";
    let (stop, points) = parse_verdict(reply).expect("verdict expected");
    assert!(!stop);
    assert_eq!(points, "keep going");
    assert!(parse_verdict("{\"other\": 1}").is_none());
}

#[test]
fn summary_fields_join_with_spaces() {
    let reply = "{\"impactful\": \"big step\", \"alignment\": \"\", \"patterns\": \"loops fail\", \"significance\": \"high\"}";
    let joined = parse_summary_from_raw_json(reply).expect("summary expected");
    assert_eq!(joined, "big step loops fail high");
    assert_eq!(parse_summary_from_raw_json("[1, 2]"), None);
}

#[test]
fn issue_summary_keeps_string_entries() {
    let reply = "{\"b_second\": \"two\", \"a_first\": \"one\", \"skipped\": 7}";
    let pairs = parse_issue_summary_from_json(reply).expect("pairs expected");
    assert_eq!(
        pairs,
        vec![("a_first".to_string(), "one".to_string()), ("b_second".to_string(), "two".to_string())]
    );
    assert_eq!(parse_issue_summary_from_json("17"), Err(JsonError::InvalidObject));
}
