use autogen_rust::extract::{extract_code, extract_code_blocks, extract_json_from_xml_like};

#[test]
fn extract_code_returns_block_content() {
    assert_eq!(extract_code("```python\nprint(1)\n```"), "print(1)");
}

#[test]
fn extract_code_trims_surrounding_whitespace() {
    assert_eq!(extract_code("text before\n```python\n\n  x = 1\n\n```\ntext after"), "x = 1");
}

#[test]
fn extract_code_without_block_is_empty() {
    assert_eq!(extract_code("no code here"), "");
    assert_eq!(extract_code("```python\nunclosed"), "");
}

#[test]
fn extract_code_honours_only_the_first_block() {
    let reply = "```python\nfirst\n```\nand\n```python\nsecond\n```";
    assert_eq!(extract_code(reply), "first");
}

#[test]
fn wrapped_json_is_detected() {
    let reply = "  <tool_call>\n{\"name\": \"x\"}\n</tool_call>  ";
    assert_eq!(extract_json_from_xml_like(reply).as_deref(), Some("{\"name\": \"x\"}"));
}

#[test]
fn unwrapped_text_is_not_a_tool_call() {
    assert_eq!(extract_json_from_xml_like("just text"), None);
    assert_eq!(extract_json_from_xml_like("<tool_call> only opened"), None);
}

#[test]
fn code_blocks_collects_language_and_content() {
    let text = "intro\n```python\na = 1\n```\nmiddle\n```\nplain\n```\n";
    let blocks = extract_code_blocks(text, false);
    assert_eq!(blocks.len(), 2);
    assert_eq!(blocks[0].0.as_deref(), Some("python"));
    assert_eq!(blocks[0].1, "a = 1");
    assert_eq!(blocks[1].0, None);
    assert_eq!(blocks[1].1, "plain");
}

#[test]
fn code_blocks_detects_single_line_spans() {
    let text = "use `pip install` or `cargo add` here";
    let blocks = extract_code_blocks(text, true);
    assert_eq!(blocks.len(), 2);
    assert_eq!(blocks[0].0, None);
    assert_eq!(blocks[0].1, "pip install");
    assert_eq!(blocks[1].1, "cargo add");
    assert_eq!(extract_code_blocks(text, false).len(), 0);
}
