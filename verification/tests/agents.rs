use autogen_rust::agent::ImmutableAgent;
use autogen_rust::json::output_llama_response;
use autogen_rust::messages::{role_from_label, role_label, Content, Message, Role, TokenUsage};
use autogen_rust::store::{count_words, AgentStore, GroupChat};

#[test]
fn simple_agent_has_name_and_prompt_only() {
    let a = ImmutableAgent::simple("user_proxy", "act for the user");
    assert_eq!(a.name, "user_proxy");
    assert_eq!(a.system_prompt, "act for the user");
    assert_eq!(a.llm_config, None);
    assert_eq!(a.tools_map_meta, "");
    assert_eq!(a.description, "");
}

#[test]
fn full_agent_keeps_every_field() {
    let a = ImmutableAgent::new("coder", "write code", Some("{}".to_string()), "tools", "desc");
    assert_eq!(a.name, "coder");
    assert_eq!(a.system_prompt, "write code");
    assert_eq!(a.llm_config.as_deref(), Some("{}"));
    assert_eq!(a.tools_map_meta, "tools");
    assert_eq!(a.description, "desc");
}

#[test]
fn role_labels_round_trip() {
    for role in [Role::System, Role::User, Role::Assistant] {
        assert_eq!(role_from_label(role_label(role)), role);
    }
    assert_eq!(role_label(Role::Assistant), "assistant");
    assert_eq!(role_from_label("anything else"), Role::User);
}

#[test]
fn default_message_is_a_user_placeholder() {
    let m = Message::default();
    assert_eq!(m.role, Role::User);
    assert_eq!(m.name, None);
    assert_eq!(m.content_to_string(), "placeholder");
}

#[test]
fn counting_words_splits_on_whitespace_runs() {
    assert_eq!(count_words("hello world"), 2);
    assert_eq!(count_words("  spaced\tout\n\nwords  "), 3);
    assert_eq!(count_words(""), 0);
    assert_eq!(count_words("   "), 0);
    assert_eq!(count_words("one"), 1);
}

#[test]
fn store_rows_hold_plain_values() {
    let row = GroupChat {
        agent_name: "router".to_string(),
        message_content: "hello there".to_string(),
        message_role: role_label(Role::Assistant).to_string(),
        tokens_count: count_words("hello there") as u16,
        next_speaker: "user_proxy".to_string(),
    };
    assert_eq!(row.tokens_count, 2);
    assert_eq!(row.message_role, "assistant");
    let agent_row = AgentStore {
        agent_name: "coder".to_string(),
        agent_description: "writes code".to_string(),
        current_system_prompt: "write code".to_string(),
        tools_map_meta: String::new(),
        recent_instruction: String::new(),
    };
    assert_eq!(agent_row.agent_name, "coder");
}

#[test]
fn llama_responses_surface_text_calls_and_errors() {
    let usage = TokenUsage { prompt_tokens: 1, completion_tokens: 2, total_tokens: 3 };
    let none = output_llama_response(None, Role::Assistant, usage).expect("no content is fine");
    assert!(none.is_none());

    let text = output_llama_response(Some("an answer".to_string()), Role::Assistant, usage)
        .expect("plain text is fine")
        .expect("a message comes back");
    assert!(matches!(text.content, Content::Text(t) if t == "an answer"));
    assert_eq!(text.usage.total_tokens, 3);

    let call = output_llama_response(
        Some("<tool_call>{\"name\": \"get_webpage_text\", \"arguments\": {\"url\": \"https://example.com\"}}</tool_call>".to_string()),
        Role::Assistant,
        usage,
    )
    .expect("a wrapped call is fine")
    .expect("a message comes back");
    match call.content {
        Content::ToolCall(tc) => {
            assert_eq!(tc.name, "get_webpage_text");
            assert_eq!(tc.get_argument("url").as_deref(), Some("https://example.com"));
        },
        _ => panic!("expected a tool call"),
    }

    let bad = output_llama_response(
        Some("<tool_call>{oops}</tool_call>".to_string()),
        Role::Assistant,
        usage,
    );
    assert!(bad.is_err());
}
