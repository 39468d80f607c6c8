//! The JSON shapes this engine reads out of completion-client replies.
//!
//! serde_json does the parsing; each parse stands behind one trusted wrapper
//! whose result carries a name, and everything that inspects or combines the
//! parsed values is verified code in this module.

use vstd::prelude::*;
use vstd::string::*;
use crate::messages::{Content, LlamaResponseMessage, Role, TokenUsage, ToolCall};
use crate::extract::{extract_wrapped_spec, extract_json_from_xml_like};
use crate::text::{join_spec, join_all};

verus! {

/// What serde_json reads out of a tool-call payload: the string under
/// `"name"` and the string-valued pairs under `"arguments"` (in serde_json's
/// deterministic map order), or nothing when the text is not such an object.
pub uninterp spec fn tool_call_of(s: Seq<char>) -> Option<(String, Vec<(String, String)>)>;

/// Relies on serde_json::from_str: the payload must be a JSON object with a
/// string under "name"; "arguments", when present and not null, must be an
/// object with string values, handed back as pairs in serde_json's map order.
#[verifier::external_body]
fn parse_tool_call_json(s: &str) -> (r: Option<(String, Vec<(String, String)>)>)
    ensures
        r == tool_call_of(s@),
{
    let v: serde_json::Value = serde_json::from_str(s).ok()?;
    let name = v.get("name")?.as_str()?.to_string();
    let mut arguments: Vec<(String, String)> = Vec::new();
    match v.get("arguments") {
        None | Some(serde_json::Value::Null) => {},
        Some(serde_json::Value::Object(map)) => {
            for (k, val) in map {
                arguments.push((k.clone(), val.as_str()?.to_string()));
            }
        },
        Some(_) => return None,
    }
    Some((name, arguments))
}

/// Parses the JSON payload of a wrapped tool call into a [`ToolCall`].
pub fn parse_tool_call(s: &str) -> (r: Option<ToolCall>)
    ensures
        match tool_call_of(s@) {
            Some(p) => r matches Some(tc) && tc.name == p.0 && tc.arguments == p.1,
            None => r is None,
        },
{
    match parse_tool_call_json(s) {
        Some(p) => Some(ToolCall { name: p.0, arguments: p.1 }),
        None => None,
    }
}

/// An error in the structure of a completion reply.
#[derive(Clone, Copy, Debug, PartialEq, Eq, Structural)]
pub enum ReplyError {
    /// The reply carries the tool-call wrapper, but its payload is not a
    /// well-formed tool-call object.
    MalformedToolCall,
}

/// Turns raw reply text into content: a reply without the `<tool_call>`
/// wrapper is plain text, never an error; a wrapped payload either parses
/// into a tool call or is reported as malformed.
pub fn parse_reply_content(data: &str) -> (r: Result<Content, ReplyError>)
    ensures
        match extract_wrapped_spec(data@) {
            None => r matches Ok(c) && c matches Content::Text(t) && t@ == data@,
            Some(json) => match tool_call_of(json) {
                Some(p) => r matches Ok(c) && c matches Content::ToolCall(tc) && tc.name == p.0
                    && tc.arguments == p.1,
                None => r matches Err(e) && e == ReplyError::MalformedToolCall,
            },
        },
{
    match extract_json_from_xml_like(data) {
        Some(json_str) => match parse_tool_call(json_str.as_str()) {
            Some(tc) => Ok(Content::ToolCall(tc)),
            None => Err(ReplyError::MalformedToolCall),
        },
        None => Ok(Content::Text(data.to_owned())),
    }
}

/// Turns one completion-client reply into a message: an absent content field
/// yields nothing, a wrapped payload yields a tool call, anything else is
/// plain text; a wrapped payload that does not parse is a malformed reply.
pub fn output_llama_response(content: Option<String>, role: Role, usage: TokenUsage) -> (r: Result<
    Option<LlamaResponseMessage>,
    ReplyError,
>)
    ensures
        match content {
            None => r matches Ok(o) && o is None,
            Some(data) => match extract_wrapped_spec(data@) {
                None => r matches Ok(o) && o matches Some(m) && m.content matches Content::Text(t)
                    && t@ == data@ && m.role == role && m.usage == usage,
                Some(json) => match tool_call_of(json) {
                    Some(p) => r matches Ok(o) && o matches Some(m) && m.content
                        matches Content::ToolCall(tc) && tc.name == p.0 && tc.arguments == p.1
                        && m.role == role && m.usage == usage,
                    None => r matches Err(e) && e == ReplyError::MalformedToolCall,
                },
            },
        },
{
    match content {
        None => Ok(None),
        Some(data) => match parse_reply_content(data.as_str()) {
            Ok(c) => Ok(Some(LlamaResponseMessage { content: c, role, usage })),
            Err(e) => Err(e),
        },
    }
}

/// What serde_json reads out of a planning reply: the strings under the
/// `"steps_to_take"` array, or nothing when the text is not a JSON object
/// carrying such an array.
pub uninterp spec fn planning_steps_of(s: Seq<char>) -> Option<Vec<String>>;

/// Relies on serde_json::from_str: the payload must be a JSON object whose
/// "steps_to_take" is an array of strings.
#[verifier::external_body]
fn parse_steps_json(s: &str) -> (r: Option<Vec<String>>)
    ensures
        r == planning_steps_of(s@),
{
    let v: serde_json::Value = serde_json::from_str(s).ok()?;
    let arr = v.get("steps_to_take")?.as_array()?;
    let mut steps: Vec<String> = Vec::new();
    for item in arr {
        steps.push(item.as_str()?.to_string());
    }
    Some(steps)
}

/// Parses a planning reply into its planned steps, reversed so that callers
/// can pop them off the end in their original order.
pub fn parse_planning_steps(s: &str) -> (r: Option<Vec<String>>)
    ensures
        match planning_steps_of(s@) {
            Some(steps) => r matches Some(out) && out@ == steps@.reverse(),
            None => r is None,
        },
{
    match parse_steps_json(s) {
        Some(steps) => {
            let n: usize = steps.len();
            let mut out: Vec<String> = Vec::new();
            let mut i: usize = n;
            while i > 0
                invariant
                    0 <= i <= n,
                    n == steps@.len(),
                    out@.len() == n - i,
                    forall|k: int| 0 <= k < n - i ==> out@[k] == steps@[n - 1 - k],
                decreases i,
            {
                i = i - 1;
                out.push(steps[i].clone());
            }
            proof {
                assert(out@ =~= steps@.reverse());
            }
            Some(out)
        },
        None => None,
    }
}

/// What serde_json reads out of a gatekeeper reply: the string under
/// `"continue_or_terminate"` and the strings under `"key_points"` (an array
/// of strings, or a single string), or nothing when the text is not such an
/// object.
pub uninterp spec fn verdict_of(s: Seq<char>) -> Option<(String, Vec<String>)>;

/// Relies on serde_json::from_str: the payload must be a JSON object with a
/// string under "continue_or_terminate"; "key_points" may be an array of
/// strings, a single string, or absent.
#[verifier::external_body]
fn parse_verdict_json(s: &str) -> (r: Option<(String, Vec<String>)>)
    ensures
        r == verdict_of(s@),
{
    let v: serde_json::Value = serde_json::from_str(s).ok()?;
    let flag = v.get("continue_or_terminate")?.as_str()?.to_string();
    let mut points: Vec<String> = Vec::new();
    match v.get("key_points") {
        Some(serde_json::Value::Array(arr)) => {
            for item in arr {
                points.push(item.as_str()?.to_string());
            }
        },
        Some(serde_json::Value::String(one)) => points.push(one.clone()),
        _ => {},
    }
    Some((flag, points))
}

/// Reads a gatekeeper reply: a stop flag, true exactly on `TERMINATE`, and
/// the key points joined with commas.
pub fn parse_verdict(s: &str) -> (r: Option<(bool, String)>)
    ensures
        match verdict_of(s@) {
            Some(p) => r matches Some(v) && (v.0 == (p.0@ == "TERMINATE"@)) && v.1@ == join_spec(
                p.1.deep_view(),
                ","@,
            ),
            None => r is None,
        },
{
    match parse_verdict_json(s) {
        Some(p) => {
            let stop = crate::text::str_eq(p.0.as_str(), "TERMINATE");
            let joined = join_all(&p.1, ",");
            Some((stop, joined))
        },
        None => None,
    }
}

/// What serde_json reads out of a summary object: the optional strings under
/// "impactful", "alignment", "patterns", "synergy" and "significance", in
/// that fixed order, or nothing when the text is not such an object.
pub uninterp spec fn summary_fields_of(s: Seq<char>) -> Option<Vec<Option<String>>>;

/// Relies on serde_json::from_str: the payload must be a JSON object; each of
/// the five summary fields is taken when it is a string, is absent when
/// missing or null, and anything else fails the parse. The result always
/// holds exactly five entries, in the fixed field order.
#[verifier::external_body]
fn parse_summary_json(s: &str) -> (r: Option<Vec<Option<String>>>)
    ensures
        r == summary_fields_of(s@),
        r matches Some(v) ==> v@.len() == 5,
{
    let v: serde_json::Value = serde_json::from_str(s).ok()?;
    if !v.is_object() {
        return None;
    }
    let mut fields: Vec<Option<String>> = Vec::new();
    for key in ["impactful", "alignment", "patterns", "synergy", "significance"] {
        match v.get(key) {
            None | Some(serde_json::Value::Null) => fields.push(None),
            Some(val) => fields.push(Some(val.as_str()?.to_string())),
        }
    }
    Some(fields)
}

/// The texts of the fields that are present and non-empty, in field order.
pub open spec fn present_texts(fields: Seq<Option<String>>) -> Seq<Seq<char>>
    decreases fields.len(),
{
    if fields.len() == 0 {
        Seq::empty()
    } else {
        let rest = present_texts(fields.drop_last());
        match fields.last() {
            Some(t) => if t@.len() > 0 {
                rest.push(t@)
            } else {
                rest
            },
            None => rest,
        }
    }
}

/// Folds a summary object into one line: the fields that are present and
/// non-empty, in field order, joined with single spaces. A payload that is
/// not a summary object yields `None`.
pub fn parse_summary_from_raw_json(input: &str) -> (r: Option<String>)
    ensures
        match summary_fields_of(input@) {
            Some(f) => r matches Some(t) && t@ == join_spec(present_texts(f@), " "@),
            None => r is None,
        },
{
    match parse_summary_json(input) {
        Some(fields) => {
            let n: usize = fields.len();
            let mut present: Vec<String> = Vec::new();
            let mut i: usize = 0;
            proof {
                assert(fields@.take(0) =~= Seq::<Option<String>>::empty());
            }
            while i < n
                invariant
                    0 <= i <= n,
                    n == fields@.len(),
                    present.deep_view() == present_texts(fields@.take(i as int)),
                decreases n - i,
            {
                proof {
                    assert(fields@.take(i + 1).drop_last() =~= fields@.take(i as int));
                    assert(fields@.take(i + 1).last() == fields@[i as int]);
                }
                match &fields[i] {
                    Some(t) => {
                        if !t.as_str().is_empty() {
                            present.push(t.clone());
                            proof {
                                assert(present.deep_view() =~= present_texts(
                                    fields@.take(i as int),
                                ).push(t@));
                            }
                        }
                    },
                    None => {},
                }
                i = i + 1;
            }
            proof {
                assert(fields@.take(n as int) =~= fields@);
            }
            Some(join_all(&present, " "))
        },
        None => None,
    }
}

/// What serde_json reads out of an issue-summary object: its keys paired
/// with their string values, in serde_json's deterministic map order,
/// skipping values that are not strings; or nothing when the text is not a
/// JSON object.
pub uninterp spec fn issue_pairs_of(s: Seq<char>) -> Option<Vec<(String, String)>>;

/// Relies on serde_json::from_str: the payload must be a JSON object; each
/// entry with a string value is handed back, in serde_json's map order.
#[verifier::external_body]
fn parse_issue_pairs_json(s: &str) -> (r: Option<Vec<(String, String)>>)
    ensures
        r == issue_pairs_of(s@),
{
    let parsed: serde_json::Map<String, serde_json::Value> = serde_json::from_str(s).ok()?;
    let mut out: Vec<(String, String)> = Vec::new();
    for (key, value) in parsed.iter() {
        if let Some(t) = value.as_str() {
            out.push((key.clone(), t.to_string()));
        }
    }
    Some(out)
}

/// A malformed JSON payload, reported to the caller instead of a panic.
#[derive(Clone, Copy, Debug, PartialEq, Eq, Structural)]
pub enum JsonError {
    InvalidObject,
}

/// Reads an issue-summary object into key/summary pairs; a payload that is
/// not a JSON object is reported as an error, never a panic.
pub fn parse_issue_summary_from_json(input: &str) -> (r: Result<Vec<(String, String)>, JsonError>)
    ensures
        match issue_pairs_of(input@) {
            Some(v) => r matches Ok(out) && out == v,
            None => r matches Err(e) && e == JsonError::InvalidObject,
        },
{
    match parse_issue_pairs_json(input) {
        Some(v) => Ok(v),
        None => Err(JsonError::InvalidObject),
    }
}

} // verus!
