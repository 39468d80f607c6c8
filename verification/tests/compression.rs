use autogen_rust::compress::{apply_compression, compression_payload, PREAMBLE_LEN};
use autogen_rust::messages::{Content, Message, Role, ToolCall};

fn msg(role: Role, text: &str) -> Message {
    Message { content: Content::Text(text.to_string()), name: None, role }
}

fn window_of(n: usize) -> Vec<Message> {
    let mut w = vec![msg(Role::System, "setup"), msg(Role::User, "task")];
    for i in 0..n.saturating_sub(2) {
        w.push(msg(Role::User, &format!("turn {}", i)));
    }
    w
}

#[test]
fn compressed_window_is_preamble_plus_one() {
    for len in [2usize, 3, 5, 9, 20] {
        let window = window_of(len);
        let out = apply_compression(window.clone(), "the summary".to_string());
        assert_eq!(out.len(), PREAMBLE_LEN + 1);
        for i in 0..PREAMBLE_LEN {
            assert_eq!(out[i].content_to_string(), window[i].content_to_string());
            assert_eq!(out[i].role, window[i].role);
        }
        assert_eq!(out[PREAMBLE_LEN].role, Role::User);
        assert_eq!(out[PREAMBLE_LEN].content_to_string(), "the summary");
    }
}

#[test]
fn payload_joins_the_tail_with_newlines() {
    let mut w = window_of(2);
    w.push(msg(Role::Assistant, "first answer"));
    w.push(msg(Role::User, "second turn"));
    assert_eq!(compression_payload(&w), "first answer\nsecond turn");
    assert_eq!(compression_payload(&window_of(2)), "");
}

#[test]
fn tool_calls_render_into_the_payload() {
    let mut w = window_of(2);
    w.push(Message {
        content: Content::ToolCall(ToolCall {
            name: "search_with_bing".to_string(),
            arguments: vec![("query".to_string(), "rust verifier".to_string())],
        }),
        name: None,
        role: Role::Assistant,
    });
    assert_eq!(
        compression_payload(&w),
        "tool_call: search_with_bing, arguments: query: rust verifier"
    );
}
