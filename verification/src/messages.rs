//! The data exchanged with the completion client, modelled as plain values:
//! roles, token usage, message content (free text or a structured capability
//! invocation), and the role-tagged messages a conversation window holds.

use vstd::prelude::*;
use vstd::string::*;
use crate::text::{concat3, join_spec, join_all};

verus! {

/// The role a message carries: system setup, user turn, or assistant reply.
#[derive(Clone, Copy, Debug, PartialEq, Eq, Structural)]
pub enum Role {
    System,
    User,
    Assistant,
}

/// The label each role carries on the wire and in the persistence layer.
pub open spec fn role_label_spec(role: Role) -> Seq<char> {
    match role {
        Role::System => "system"@,
        Role::User => "user"@,
        Role::Assistant => "assistant"@,
    }
}

/// The textual label of a role.
pub fn role_label(role: Role) -> (r: &'static str)
    ensures
        r@ == role_label_spec(role),
{
    match role {
        Role::System => "system",
        Role::User => "user",
        Role::Assistant => "assistant",
    }
}

/// The role a label names; an unknown label falls back to `User`.
pub open spec fn role_from_label_spec(s: Seq<char>) -> Role {
    if s == "assistant"@ {
        Role::Assistant
    } else if s == "system"@ {
        Role::System
    } else {
        Role::User
    }
}

/// Parses a role label; an unknown label falls back to `User`.
pub fn role_from_label(s: &str) -> (r: Role)
    ensures
        r == role_from_label_spec(s@),
{
    if crate::text::str_eq(s, "assistant") {
        Role::Assistant
    } else if crate::text::str_eq(s, "system") {
        Role::System
    } else {
        Role::User
    }
}

/// Token counts reported by the completion client for one exchange.
#[derive(Clone, Copy, Debug, PartialEq, Eq, Structural)]
pub struct TokenUsage {
    pub prompt_tokens: u32,
    pub completion_tokens: u32,
    pub total_tokens: u32,
}

/// A structured capability invocation parsed out of a model reply: a
/// capability name and its named string arguments, in the order the reply
/// listed them.
#[derive(Clone, Debug)]
pub struct ToolCall {
    pub name: String,
    pub arguments: Vec<(String, String)>,
}

/// The value under `key` among the argument pairs, first occurrence.
pub open spec fn arg_lookup(args: Seq<(String, String)>, key: Seq<char>) -> Option<String>
    decreases args.len(),
{
    if args.len() == 0 {
        None
    } else if args[0].0@ == key {
        Some(args[0].1)
    } else {
        arg_lookup(args.skip(1), key)
    }
}

impl ToolCall {
    /// The value of the named argument, if the call carries it.
    pub fn get_argument(&self, key: &str) -> (r: Option<String>)
        ensures
            r == arg_lookup(self.arguments@, key@),
    {
        let n: usize = self.arguments.len();
        let mut i: usize = 0;
        proof {
            assert(self.arguments@.skip(0) =~= self.arguments@);
        }
        while i < n
            invariant
                0 <= i <= n,
                n == self.arguments@.len(),
                arg_lookup(self.arguments@, key@) == arg_lookup(self.arguments@.skip(i as int), key@),
            decreases n - i,
        {
            proof {
                assert(self.arguments@.skip(i as int)[0] == self.arguments@[i as int]);
                assert(self.arguments@.skip(i as int).skip(1) =~= self.arguments@.skip(i + 1));
            }
            if crate::text::str_eq(self.arguments[i].0.as_str(), key) {
                return Some(self.arguments[i].1.clone());
            }
            i = i + 1;
        }
        proof {
            assert(self.arguments@.skip(n as int).len() == 0);
        }
        None
    }
}

/// What a model reply content holds: plain text, or a structured capability
/// invocation.
#[derive(Clone, Debug)]
pub enum Content {
    Text(String),
    ToolCall(ToolCall),
}

/// A role-tagged message in a conversation window.
#[derive(Clone, Debug)]
pub struct Message {
    pub content: Content,
    pub name: Option<String>,
    pub role: Role,
}

impl Default for Message {
    /// A placeholder user message.
    fn default() -> (r: Message)
        ensures
            (match r.content {
                Content::Text(t) => t@ == "placeholder"@,
                Content::ToolCall(_) => false,
            }),
            r.name is None,
            r.role == Role::User,
    {
        Message { content: Content::Text("placeholder".to_owned()), name: None, role: Role::User }
    }
}

/// The argument pairs of a tool call, each rendered as `key: value`.
pub open spec fn pair_texts(args: Seq<(String, String)>) -> Seq<Seq<char>> {
    args.map_values(|p: (String, String)| p.0@ + ": "@ + p.1@)
}

/// The single line of text a message contributes to a joined transcript:
/// plain text as it stands; a tool call rendered as its name and arguments.
pub open spec fn content_text_spec(c: Content) -> Seq<char> {
    match c {
        Content::Text(t) => t@,
        Content::ToolCall(tc) => "tool_call: "@ + tc.name@ + ", arguments: "@ + join_spec(
            pair_texts(tc.arguments@),
            ", "@,
        ),
    }
}

/// Renders content as the line of text it contributes to a transcript.
pub fn content_text(c: &Content) -> (r: String)
    ensures
        r@ == content_text_spec(*c),
{
    match c {
        Content::Text(t) => t.clone(),
        Content::ToolCall(tc) => {
            let n: usize = tc.arguments.len();
            let mut parts: Vec<String> = Vec::new();
            let mut i: usize = 0;
            while i < n
                invariant
                    0 <= i <= n,
                    n == tc.arguments@.len(),
                    parts@.len() == i,
                    forall|k: int|
                        0 <= k < i ==> #[trigger] parts@[k]@ == pair_texts(tc.arguments@)[k],
                decreases n - i,
            {
                parts.push(concat3(tc.arguments[i].0.as_str(), ": ", tc.arguments[i].1.as_str()));
                i = i + 1;
            }
            let joined = join_all(&parts, ", ");
            proof {
                assert(parts.deep_view() =~= pair_texts(tc.arguments@));
            }
            let head = concat3("tool_call: ", tc.name.as_str(), ", arguments: ");
            crate::text::concat2(head.as_str(), joined.as_str())
        },
    }
}

impl Message {
    /// Builds a message from its parts.
    pub fn new(content: Content, name: Option<String>, role: Role) -> (r: Message)
        ensures
            r == (Message { content, name, role }),
    {
        Message { content, name, role }
    }

    /// The text of this message, as fed to transcripts and summaries.
    pub fn content_to_string(&self) -> (r: String)
        ensures
            r@ == content_text_spec(self.content),
    {
        content_text(&self.content)
    }
}

/// A parsed reply from the completion client: its content, the role the
/// client tagged it with, and the reported token usage.
#[derive(Clone, Debug)]
pub struct LlamaResponseMessage {
    pub content: Content,
    pub role: Role,
    pub usage: TokenUsage,
}

impl LlamaResponseMessage {
    /// The text of this reply, as fed to transcripts and parsers.
    pub fn content_to_string(&self) -> (r: String)
        ensures
            r@ == content_text_spec(self.content),
    {
        content_text(&self.content)
    }
}

} // verus!
