//! Extraction of structured pieces out of raw model text: the first fenced
//! code block tagged for a language, and the JSON payload wrapped between
//! `<tool_call>` delimiter tags.

use vstd::prelude::*;
use vstd::string::*;
use crate::text::{find_spec, match_at, trim_spec, lemma_find_spec_some, find_from, match_at_exec,
    trim_str};

verus! {

/// The trimmed content of the first block that opens with `opener` and runs
/// to the next triple backtick, if both are present.
pub open spec fn fenced_block_spec(s: Seq<char>, opener: Seq<char>) -> Option<Seq<char>> {
    match find_spec(s, opener, 0) {
        None => None,
        Some(i) => match find_spec(s, "```"@, i + opener.len()) {
            None => None,
            Some(j) => Some(trim_spec(s.subrange(i + opener.len(), j))),
        },
    }
}

/// Extracts the first fenced block that opens with `opener` (for example
/// ```` ```python ````) and closes at the next triple backtick, trimmed of
/// surrounding whitespace.
pub fn extract_fenced_block(s: &str, opener: &str) -> (r: Option<String>)
    ensures
        match r {
            Some(t) => fenced_block_spec(s@, opener@) == Some(t@),
            None => fenced_block_spec(s@, opener@) is None,
        },
{
    let n: usize = s.unicode_len();
    let m: usize = opener.unicode_len();
    match find_from(s, opener, 0) {
        None => None,
        Some(i) => {
            proof {
                lemma_find_spec_some(s@, opener@, 0);
                assert(i + m <= n);
            }
            match find_from(s, "```", i + m) {
                None => None,
                Some(j) => {
                    proof {
                        lemma_find_spec_some(s@, "```"@, i + m);
                    }
                    let content = s.substring_char(i + m, j);
                    Some(trim_str(content).to_owned())
                },
            }
        },
    }
}

/// What [`extract_code`] returns: the trimmed content of the first fenced
/// Python block, or nothing at all when no complete block is present.
pub open spec fn extract_code_spec(s: Seq<char>) -> Seq<char> {
    match fenced_block_spec(s, "```python"@) {
        Some(c) => c,
        None => Seq::empty(),
    }
}

/// Extracts the first fenced Python code block from raw model text, trimmed
/// of surrounding whitespace. Only the first block is honoured: further
/// blocks in one reply breach the reply contract and are not concatenated.
/// Without a complete block the result is empty.
pub fn extract_code(text: &str) -> (r: String)
    ensures
        r@ == extract_code_spec(text@),
{
    match extract_fenced_block(text, "```python") {
        Some(c) => c,
        None => String::new(),
    }
}

/// The JSON payload of a reply wrapped in `<tool_call>` ... `</tool_call>`
/// tags: the trimmed reply must carry the opening tag as its prefix and the
/// closing tag as its suffix; the payload between them is trimmed in turn.
pub open spec fn extract_wrapped_spec(s: Seq<char>) -> Option<Seq<char>> {
    let t = trim_spec(s);
    let open_tag = "<tool_call>"@;
    let close_tag = "</tool_call>"@;
    if t.len() >= open_tag.len() + close_tag.len() && match_at(t, open_tag, 0) && match_at(
        t,
        close_tag,
        t.len() - close_tag.len(),
    ) {
        Some(trim_spec(t.subrange(open_tag.len() as int, t.len() - close_tag.len())))
    } else {
        None
    }
}

/// Detects the `<tool_call>` wrapper around a reply and hands back the JSON
/// text between the tags; absent the wrapper, the reply is plain text and
/// the result is `None`.
pub fn extract_json_from_xml_like(xml_like_data: &str) -> (r: Option<String>)
    ensures
        match r {
            Some(t) => extract_wrapped_spec(xml_like_data@) == Some(t@),
            None => extract_wrapped_spec(xml_like_data@) is None,
        },
{
    proof {
        reveal_strlit("<tool_call>");
        reveal_strlit("</tool_call>");
    }
    let t = trim_str(xml_like_data);
    let n: usize = t.unicode_len();
    let a: usize = "<tool_call>".unicode_len();
    let b: usize = "</tool_call>".unicode_len();
    if n >= a + b && match_at_exec(t, "<tool_call>", 0) && match_at_exec(t, "</tool_call>", n - b) {
        let inner = t.substring_char(a, n - b);
        Some(trim_str(inner).to_owned())
    } else {
        None
    }
}

/// The fenced blocks of `s` from position `from` on. A block opens at a
/// triple backtick, carries an optional language word on the rest of that
/// line, and closes at the next line break followed by a triple backtick;
/// its content and language are trimmed, and an absent or empty language
/// word is `None`.
pub open spec fn blocks_spec(s: Seq<char>, from: int) -> Seq<(Option<Seq<char>>, Seq<char>)>
    decreases s.len() - from + 1,
    via blocks_spec_decreases
{
    match find_spec(s, "```"@, from) {
        None => Seq::empty(),
        Some(i) => match find_spec(s, "\n"@, i + 3) {
            None => Seq::empty(),
            Some(h) => match find_spec(s, "\n```"@, h + 1) {
                None => Seq::empty(),
                Some(j) => {
                    let lang = trim_spec(s.subrange(i + 3, h));
                    let item = (
                        if lang.len() > 0 {
                            Some(lang)
                        } else {
                            None
                        },
                        trim_spec(s.subrange(h + 1, j)),
                    );
                    seq![item] + blocks_spec(s, j + 4)
                },
            },
        },
    }
}

#[via_fn]
proof fn blocks_spec_decreases(s: Seq<char>, from: int) {
    reveal_strlit("```");
    reveal_strlit("\n");
    reveal_strlit("\n```");
    lemma_find_spec_some(s, "```"@, from);
    match find_spec(s, "```"@, from) {
        None => {},
        Some(i) => {
            lemma_find_spec_some(s, "\n"@, i + 3);
            match find_spec(s, "\n"@, i + 3) {
                None => {},
                Some(h) => {
                    lemma_find_spec_some(s, "\n```"@, h + 1);
                },
            }
        },
    }
}

/// The single-line spans of `s` from position `from` on: each pair of
/// backticks with at least one character between them yields its trimmed
/// content, with no language; an empty pair yields nothing and the scan
/// resumes at its second backtick.
pub open spec fn inline_spec(s: Seq<char>, from: int) -> Seq<(Option<Seq<char>>, Seq<char>)>
    decreases s.len() - from + 1,
    via inline_spec_decreases
{
    match find_spec(s, "`"@, from) {
        None => Seq::empty(),
        Some(p) => match find_spec(s, "`"@, p + 1) {
            None => Seq::empty(),
            Some(q) => if q > p + 1 {
                seq![(None, trim_spec(s.subrange(p + 1, q)))] + inline_spec(s, q + 1)
            } else {
                inline_spec(s, q)
            },
        },
    }
}

#[via_fn]
proof fn inline_spec_decreases(s: Seq<char>, from: int) {
    reveal_strlit("`");
    lemma_find_spec_some(s, "`"@, from);
    match find_spec(s, "`"@, from) {
        None => {},
        Some(p) => {
            lemma_find_spec_some(s, "`"@, p + 1);
        },
    }
}

/// Collects the fenced blocks of `text` from `from` on.
fn blocks_exec(text: &str, from: usize) -> (r: Vec<(Option<String>, String)>)
    ensures
        r.deep_view() == blocks_spec(text@, from as int),
    decreases text@.len() - from,
{
    proof {
        reveal_strlit("```");
        reveal_strlit("\n");
        reveal_strlit("\n```");
    }
    let n: usize = text.unicode_len();
    let i = match find_from(text, "```", from) {
        None => {
            return Vec::new();
        },
        Some(i) => i,
    };
    proof {
        lemma_find_spec_some(text@, "```"@, from as int);
    }
    let h = match find_from(text, "\n", i + 3) {
        None => {
            return Vec::new();
        },
        Some(h) => h,
    };
    proof {
        lemma_find_spec_some(text@, "\n"@, i + 3);
    }
    let j = match find_from(text, "\n```", h + 1) {
        None => {
            return Vec::new();
        },
        Some(j) => j,
    };
    proof {
        lemma_find_spec_some(text@, "\n```"@, h + 1);
    }
    let lang = trim_str(text.substring_char(i + 3, h));
    let language: Option<String> = if lang.unicode_len() > 0 {
        Some(lang.to_owned())
    } else {
        None
    };
    let content = trim_str(text.substring_char(h + 1, j)).to_owned();
    let mut out: Vec<(Option<String>, String)> = Vec::new();
    out.push((language, content));
    let mut rest = blocks_exec(text, j + 4);
    out.append(&mut rest);
    proof {
        assert(out.deep_view() =~= blocks_spec(text@, from as int));
    }
    out
}

/// Collects the single-line spans of `text` from `from` on.
fn inline_exec(text: &str, from: usize) -> (r: Vec<(Option<String>, String)>)
    ensures
        r.deep_view() == inline_spec(text@, from as int),
    decreases text@.len() - from,
{
    proof {
        reveal_strlit("`");
    }
    let n: usize = text.unicode_len();
    let p = match find_from(text, "`", from) {
        None => {
            return Vec::new();
        },
        Some(p) => p,
    };
    proof {
        lemma_find_spec_some(text@, "`"@, from as int);
    }
    let q = match find_from(text, "`", p + 1) {
        None => {
            return Vec::new();
        },
        Some(q) => q,
    };
    proof {
        lemma_find_spec_some(text@, "`"@, p + 1);
    }
    if q > p + 1 {
        let content = trim_str(text.substring_char(p + 1, q)).to_owned();
        let mut out: Vec<(Option<String>, String)> = Vec::new();
        out.push((None, content));
        let mut rest = inline_exec(text, q + 1);
        out.append(&mut rest);
        proof {
            assert(out.deep_view() =~= inline_spec(text@, from as int));
        }
        out
    } else {
        inline_exec(text, q)
    }
}

/// Collects every fenced code block of `text` as a trimmed language tag and
/// trimmed content; with `detect_single_line_code` the single-line backtick
/// spans follow, in text order, with no language.
pub fn extract_code_blocks(text: &str, detect_single_line_code: bool) -> (r: Vec<
    (Option<String>, String),
>)
    ensures
        detect_single_line_code ==> r.deep_view() == blocks_spec(text@, 0) + inline_spec(text@, 0),
        !detect_single_line_code ==> r.deep_view() == blocks_spec(text@, 0),
{
    let mut out = blocks_exec(text, 0);
    if detect_single_line_code {
        let mut singles = inline_exec(text, 0);
        out.append(&mut singles);
        proof {
            assert(out.deep_view() =~= blocks_spec(text@, 0) + inline_spec(text@, 0));
        }
    }
    out
}

} // verus!
