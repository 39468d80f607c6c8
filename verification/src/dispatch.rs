//! Routing a parsed model reply to a capability.
//!
//! The capabilities form a closed set: reasoning over intrinsic knowledge,
//! web search, page fetch, and code generation. A plain-text reply is the
//! reasoning-only fallback; a structured tool call is routed by name, with
//! an unknown name reported to the caller rather than ending the process.

use vstd::prelude::*;
use vstd::string::*;
use crate::messages::{Content, ToolCall, arg_lookup};
use crate::text::{str_eq, concat3, concat4};

verus! {

/// The closed set of actions a task can be routed to.
#[derive(Clone, Copy, Debug, PartialEq, Eq, Structural)]
pub enum Capability {
    UseIntrinsicKnowledge,
    SearchWithBing,
    CodeWithPython,
    GetWebpageText,
}

/// The capability a tool-call name selects, if any.
pub open spec fn capability_of_spec(name: Seq<char>) -> Option<Capability> {
    if name == "use_intrinsic_knowledge"@ {
        Some(Capability::UseIntrinsicKnowledge)
    } else if name == "search_with_bing"@ {
        Some(Capability::SearchWithBing)
    } else if name == "code_with_python"@ {
        Some(Capability::CodeWithPython)
    } else if name == "get_webpage_text"@ {
        Some(Capability::GetWebpageText)
    } else {
        None
    }
}

/// Resolves a tool-call name against the closed capability set.
pub fn capability_of_name(name: &str) -> (r: Option<Capability>)
    ensures
        r == capability_of_spec(name@),
{
    if str_eq(name, "use_intrinsic_knowledge") {
        Some(Capability::UseIntrinsicKnowledge)
    } else if str_eq(name, "search_with_bing") {
        Some(Capability::SearchWithBing)
    } else if str_eq(name, "code_with_python") {
        Some(Capability::CodeWithPython)
    } else if str_eq(name, "get_webpage_text") {
        Some(Capability::GetWebpageText)
    } else {
        None
    }
}

/// The name of each capability, as tool calls spell it.
pub open spec fn capability_label_spec(cap: Capability) -> Seq<char> {
    match cap {
        Capability::UseIntrinsicKnowledge => "use_intrinsic_knowledge"@,
        Capability::SearchWithBing => "search_with_bing"@,
        Capability::CodeWithPython => "code_with_python"@,
        Capability::GetWebpageText => "get_webpage_text"@,
    }
}

/// The name of a capability.
pub fn capability_label(cap: Capability) -> (r: &'static str)
    ensures
        r@ == capability_label_spec(cap),
{
    match cap {
        Capability::UseIntrinsicKnowledge => "use_intrinsic_knowledge",
        Capability::SearchWithBing => "search_with_bing",
        Capability::CodeWithPython => "code_with_python",
        Capability::GetWebpageText => "get_webpage_text",
    }
}

/// The argument each capability requires.
pub open spec fn argument_key_spec(cap: Capability) -> Seq<char> {
    match cap {
        Capability::UseIntrinsicKnowledge => "task"@,
        Capability::SearchWithBing => "query"@,
        Capability::CodeWithPython => "key_points"@,
        Capability::GetWebpageText => "url"@,
    }
}

/// The name of the argument a capability requires.
pub fn argument_key(cap: Capability) -> (r: &'static str)
    ensures
        r@ == argument_key_spec(cap),
{
    match cap {
        Capability::UseIntrinsicKnowledge => "task",
        Capability::SearchWithBing => "query",
        Capability::CodeWithPython => "key_points",
        Capability::GetWebpageText => "url",
    }
}

/// Where a reply sends the driver next: pass the text through, invoke a
/// capability on its argument, or report what was wrong with the call.
pub enum DispatchDecision {
    /// The reply was plain text: the reasoning-only fallback, handed back
    /// with a note that no structured call was produced.
    TextFallback(String),
    /// A recognised capability with its required argument.
    Invoke(Capability, String),
    /// A recognised capability whose required argument is missing.
    MissingArgument(Capability),
    /// A capability name outside the closed set, reported, never a panic.
    UnknownCapability(String),
}

/// The capability a decision selects, if it selects one.
pub open spec fn decision_capability(r: DispatchDecision) -> Option<Capability> {
    match r {
        DispatchDecision::TextFallback(_) => None,
        DispatchDecision::Invoke(cap, _) => Some(cap),
        DispatchDecision::MissingArgument(cap) => Some(cap),
        DispatchDecision::UnknownCapability(_) => None,
    }
}

/// Routes parsed reply content: plain text falls back to reasoning-only;
/// a tool call is resolved against the closed capability set and must carry
/// the argument its capability requires.
pub fn dispatch_decision(content: &Content) -> (r: DispatchDecision)
    ensures
        match content {
            Content::Text(t) => r matches DispatchDecision::TextFallback(msg) && msg@
                == "attempt to run tool_call failed, returning text result: "@ + t@ + " "@,
            Content::ToolCall(tc) => {
                &&& decision_capability(r) == capability_of_spec(tc.name@)
                &&& match capability_of_spec(tc.name@) {
                    None => r matches DispatchDecision::UnknownCapability(n) && n@ == tc.name@,
                    Some(cap) => match arg_lookup(tc.arguments@, argument_key_spec(cap)) {
                        Some(v) => r == DispatchDecision::Invoke(cap, v),
                        None => r == DispatchDecision::MissingArgument(cap),
                    },
                }
            },
        },
{
    match content {
        Content::Text(t) => DispatchDecision::TextFallback(
            concat3("attempt to run tool_call failed, returning text result: ", t.as_str(), " "),
        ),
        Content::ToolCall(tc) => match capability_of_name(tc.name.as_str()) {
            None => DispatchDecision::UnknownCapability(tc.name.clone()),
            Some(cap) => match tc.get_argument(argument_key(cap)) {
                Some(v) => DispatchDecision::Invoke(cap, v),
                None => DispatchDecision::MissingArgument(cap),
            },
        },
    }
}

/// A tool call named for the search capability resolves to web search and to
/// no other capability — in particular never to code generation — whatever
/// arguments it carries.
pub proof fn lemma_search_routes_to_search(tc: ToolCall)
    requires
        tc.name@ == "search_with_bing"@,
    ensures
        capability_of_spec(tc.name@) == Some(Capability::SearchWithBing),
        capability_of_spec(tc.name@) != Some(Capability::CodeWithPython),
{
    reveal_strlit("search_with_bing");
    reveal_strlit("use_intrinsic_knowledge");
    assert("search_with_bing"@.len() == 16);
    assert("use_intrinsic_knowledge"@.len() == 23);
}

/// The text the dispatcher answers when a capability was named without the
/// argument it requires.
pub fn missing_argument_text(cap: Capability) -> (r: String)
    ensures
        r@ == "failed in "@ + capability_label_spec(cap),
{
    crate::text::concat2("failed in ", capability_label(cap))
}

/// The prompt handed to an agent for one task.
pub fn task_prompt(content_text: &str) -> (r: String)
    ensures
        r@ == "Here is the task for you: \""@ + content_text@ + "\""@,
{
    concat3("Here is the task for you: \"", content_text, "\"")
}

/// The prompt that chains one step's result into the next task.
pub fn chain_prompt(previous_result: &str, next_task: &str) -> (r: String)
    ensures
        r@ == "Here is the result from previous step: "@ + previous_result@
            + ", here is the next task: "@ + next_task@,
{
    concat4(
        "Here is the result from previous step: ",
        previous_result,
        ", here is the next task: ",
        next_task,
    )
}

/// The prompt the termination gatekeeper judges one result against.
pub fn termination_prompt(instruction: &str, current_result: &str) -> (r: String)
    ensures
        r@ == "Given the task: \""@ + instruction@ + "\", examine current result: "@
            + current_result@ + ", please decide whether the task is done or not"@,
{
    crate::text::concat5(
        "Given the task: \"",
        instruction,
        "\", examine current result: ",
        current_result,
        ", please decide whether the task is done or not",
    )
}

/// What a line of human input means to the driver: the stop sentinel is a
/// typed cancellation signal handed up the call stack, everything else is
/// ordinary input.
pub enum FeedbackSignal {
    Stop,
    Input(String),
}

/// Classifies one line of human input against the stop sentinel.
pub fn classify_feedback(input: &str) -> (r: FeedbackSignal)
    ensures
        if input@ == "stop"@ {
            r == FeedbackSignal::Stop
        } else {
            r matches FeedbackSignal::Input(t) && t@ == input@
        },
{
    if str_eq(input, "stop") {
        FeedbackSignal::Stop
    } else {
        FeedbackSignal::Input(input.to_owned())
    }
}

} // verus!
